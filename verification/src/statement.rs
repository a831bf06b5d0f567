//! Statements: the text that is sent to the database, the values bound to
//! its placeholders, and how much of the answer is wanted.

use sqlx::sqlite::SqliteArguments;
use sqlx::Arguments;
use vstd::prelude::*;
use vstd::string::*;

verus! {

/// `sqlx::sqlite::SqliteArguments`: the values bound to the placeholders of
/// one statement, in the order of the placeholders.
#[verifier::external_type_specification]
#[verifier::external_body]
pub struct ExSqliteArguments<'q>(SqliteArguments<'q>);

/// The values that `arguments` holds, first bound first, each as the text
/// that was bound.
pub uninterp spec fn bound_values(arguments: SqliteArguments<'static>) -> Seq<Seq<char>>;

/// `SqliteArguments::default()`. The derived `Default` starts from an empty
/// list of values.
#[verifier::external_body]
fn arguments_new() -> (arguments: SqliteArguments<'static>)
    ensures
        bound_values(arguments) == Seq::<Seq<char>>::empty(),
{
    SqliteArguments::default()
}

/// `sqlx::Arguments::add` with a `String`. For SQLite a `String` is encoded
/// by pushing it, as one text value, behind the values already held.
#[verifier::external_body]
fn arguments_add(arguments: &mut SqliteArguments<'static>, value: String)
    ensures
        bound_values(*final(arguments)) == bound_values(*old(arguments)).push(value@),
{
    arguments.add(value);
}

/// How much of a statement's answer the caller wants.
#[derive(Clone, Copy, Debug, PartialEq, Eq, Structural)]
pub enum Fetch {
    /// The statement is run for its effect; no row is read.
    Nothing,
    /// The first row of the answer, if there is one.
    First,
    /// Every row of the answer.
    All,
}

/// A statement ready to be run: its text, with one `?` for each bound value,
/// the bound values, and how much of the answer is wanted.
#[derive(Debug)]
pub struct Statement {
    pub sql: String,
    pub arguments: SqliteArguments<'static>,
    pub fetch: Fetch,
}

/// A [`Statement`] as plain values.
pub struct StatementView {
    pub sql: Seq<char>,
    pub binds: Seq<Seq<char>>,
    pub fetch: Fetch,
}

impl View for Statement {
    type V = StatementView;

    open spec fn view(&self) -> StatementView {
        StatementView {
            sql: self.sql@,
            binds: bound_values(self.arguments),
            fetch: self.fetch,
        }
    }
}

impl DeepView for Statement {
    type V = StatementView;

    open spec fn deep_view(&self) -> StatementView {
        self@
    }
}

/// The text of the placeholder that stands for a bound value.
pub open spec fn placeholder() -> Seq<char> {
    seq!['?']
}

impl Statement {
    /// Starts a statement with the text `init` and no bound value.
    pub fn new(init: &str, fetch: Fetch) -> (s: Statement)
        ensures
            s@ == (StatementView { sql: init@, binds: Seq::empty(), fetch }),
    {
        Statement { sql: String::from_str(init), arguments: arguments_new(), fetch }
    }

    /// Appends `sql` to the text.
    pub fn push(&mut self, sql: &str)
        ensures
            final(self)@ == (StatementView { sql: old(self)@.sql + sql@, ..old(self)@ }),
    {
        self.sql.append(sql);
    }

    /// Appends a placeholder to the text and binds `value` to it.
    pub fn push_bind(&mut self, value: &str)
        ensures
            final(self)@ == (StatementView {
                sql: old(self)@.sql + placeholder(),
                binds: old(self)@.binds.push(value@),
                fetch: old(self)@.fetch,
            }),
    {
        arguments_add(&mut self.arguments, value.to_owned());
        self.sql.append("?");
        proof {
            reveal_strlit("?");
            assert("?"@ =~= placeholder());
        }
    }
}

} // verus!
