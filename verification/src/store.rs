//! The store: one table of keys and values, and the statement that each of
//! its operations sends to the database.

use crate::error::{result_view, StoreError, StoreErrorView};
use crate::name::{spec_valid_name, valid_name};
use crate::statement::{placeholder, Fetch, Statement, StatementView};
use vstd::prelude::*;
use vstd::string::*;

verus! {

/// The text that reads the value of one key from `table`.
pub open spec fn select_value_sql(table: Seq<char>) -> Seq<char> {
    "SELECT value FROM "@ + table + " WHERE key = ?"@
}

/// The text that writes one row into `table`, in place of the row that holds
/// the same key, if there is one.
pub open spec fn upsert_sql(table: Seq<char>) -> Seq<char> {
    "INSERT OR REPLACE INTO "@ + table + " VALUES (?, ?)"@
}

/// The text that removes the row of one key from `table`.
pub open spec fn delete_sql(table: Seq<char>) -> Seq<char> {
    "DELETE FROM "@ + table + " WHERE key = ?"@
}

/// The text that reads every key of `table`.
pub open spec fn select_keys_sql(table: Seq<char>) -> Seq<char> {
    "SELECT key FROM "@ + table
}

/// The text that reads every value of `table`.
pub open spec fn select_values_sql(table: Seq<char>) -> Seq<char> {
    "SELECT value FROM "@ + table
}

/// The text that reads every row of `table`, the key before the value.
pub open spec fn select_records_sql(table: Seq<char>) -> Seq<char> {
    "SELECT key, value FROM "@ + table
}

/// The text that creates `table`.
pub open spec fn create_table_sql(table: Seq<char>) -> Seq<char> {
    "CREATE TABLE "@ + table + " (key TEXT PRIMARY KEY, value TEXT)"@
}

/// The text that looks a table up, by its name, in the database's catalog.
pub open spec fn find_table_sql() -> Seq<char> {
    "SELECT name FROM sqlite_master WHERE type = 'table' AND name = ?"@
}

/// The statement of `get` and of `contains`: read the value of `key`, and
/// answer with the first row.
pub open spec fn select_value_statement(table: Seq<char>, key: Seq<char>) -> StatementView {
    StatementView { sql: select_value_sql(table), binds: seq![key], fetch: Fetch::First }
}

/// The statement of `set`: write the row of `key` and `value`.
pub open spec fn upsert_statement(
    table: Seq<char>,
    key: Seq<char>,
    value: Seq<char>,
) -> StatementView {
    StatementView { sql: upsert_sql(table), binds: seq![key, value], fetch: Fetch::Nothing }
}

/// The statement of `del`: remove the row of `key`.
pub open spec fn delete_statement(table: Seq<char>, key: Seq<char>) -> StatementView {
    StatementView { sql: delete_sql(table), binds: seq![key], fetch: Fetch::Nothing }
}

/// The statement of `keys`.
pub open spec fn select_keys_statement(table: Seq<char>) -> StatementView {
    StatementView { sql: select_keys_sql(table), binds: Seq::empty(), fetch: Fetch::All }
}

/// The statement of `values`.
pub open spec fn select_values_statement(table: Seq<char>) -> StatementView {
    StatementView { sql: select_values_sql(table), binds: Seq::empty(), fetch: Fetch::All }
}

/// The statement of `records`.
pub open spec fn select_records_statement(table: Seq<char>) -> StatementView {
    StatementView { sql: select_records_sql(table), binds: Seq::empty(), fetch: Fetch::All }
}

/// The statement that creates `table`.
pub open spec fn create_table_statement(table: Seq<char>) -> StatementView {
    StatementView { sql: create_table_sql(table), binds: Seq::empty(), fetch: Fetch::Nothing }
}

/// The statement that looks for `table` in the catalog: the table exists if
/// and only if the answer has a row.
pub open spec fn find_table_statement(table: Seq<char>) -> StatementView {
    StatementView { sql: find_table_sql(), binds: seq![table], fetch: Fetch::First }
}

/// What `create_store_table` gives for `kv_name`: the statement that creates
/// the table, or `InvalidTableName` for a name that is not accepted.
pub open spec fn spec_create_store_table(kv_name: Seq<char>) -> Result<
    StatementView,
    StoreErrorView,
> {
    if spec_valid_name(kv_name) {
        Ok(create_table_statement(kv_name))
    } else {
        Err(StoreErrorView::InvalidTableName)
    }
}

/// Builds the statement that creates `table`.
pub(crate) fn build_create_table(table: &str) -> (s: Statement)
    ensures
        s@ == create_table_statement(table@),
{
    let mut s = Statement::new("CREATE TABLE ", Fetch::Nothing);
    s.push(table);
    s.push(" (key TEXT PRIMARY KEY, value TEXT)");
    assert(s@.sql =~= create_table_sql(table@));
    s
}

/// Builds the statement that looks for `table` in the catalog.
pub(crate) fn build_find_table(table: &str) -> (s: Statement)
    ensures
        s@ == find_table_statement(table@),
{
    let mut s = Statement::new(
        "SELECT name FROM sqlite_master WHERE type = 'table' AND name = ",
        Fetch::First,
    );
    s.push_bind(table);
    proof {
        reveal_strlit("SELECT name FROM sqlite_master WHERE type = 'table' AND name = ");
        reveal_strlit("SELECT name FROM sqlite_master WHERE type = 'table' AND name = ?");
        assert(s@.sql =~= find_table_sql());
        assert(s@.binds =~= seq![table@]);
    }
    s
}

/// A store: one table of a database, which holds at most one value for each
/// key. A `KVLite` comes out of the steps that open a store, so the table
/// that it names exists, and its name is one that [`valid_name`] accepts.
pub struct KVLite {
    kv_name: String,
}

impl KVLite {
    #[verifier::type_invariant]
    spec fn name_is_valid(&self) -> bool {
        spec_valid_name(self.kv_name@)
    }

    /// The name of the store's table.
    pub closed spec fn table(&self) -> Seq<char> {
        self.kv_name@
    }

    /// The store over the table `kv_name`.
    pub(crate) fn over(kv_name: String) -> (store: KVLite)
        requires
            spec_valid_name(kv_name@),
        ensures
            store.table() == kv_name@,
    {
        KVLite { kv_name }
    }

    /// The name of the store's table.
    pub fn kv_name(&self) -> (name: &str)
        ensures
            name@ == self.table(),
            spec_valid_name(name@),
    {
        proof {
            use_type_invariant(self);
        }
        self.kv_name.as_str()
    }

    /// The statement that creates the table `kv_name`, or `InvalidTableName`
    /// where `kv_name` is not a name that [`valid_name`] accepts.
    pub fn create_store_table(kv_name: &str) -> (r: Result<Statement, StoreError>)
        ensures
            result_view(r) == spec_create_store_table(kv_name@),
    {
        if valid_name(kv_name) {
            Ok(build_create_table(kv_name))
        } else {
            Err(StoreError::InvalidTableName)
        }
    }

    /// The statement that reads the value of `key`. Its outcome is read with
    /// `Outcome::value`.
    pub fn get(&self, key: &str) -> (s: Statement)
        ensures
            s@ == select_value_statement(self.table(), key@),
    {
        let mut s = Statement::new("SELECT value FROM ", Fetch::First);
        s.push(self.kv_name.as_str());
        s.push(" WHERE key = ");
        s.push_bind(key);
        proof {
            reveal_strlit(" WHERE key = ");
            reveal_strlit(" WHERE key = ?");
            assert(" WHERE key = "@ + placeholder() =~= " WHERE key = ?"@);
            assert(s@.sql =~= "SELECT value FROM "@ + self.table() + (" WHERE key = "@
                + placeholder()));
            assert(s@.binds =~= seq![key@]);
        }
        s
    }

    /// The statement that writes `value` under `key`, in place of the value
    /// that `key` had, if it had one. Its outcome is read with
    /// `Outcome::written`.
    pub fn set(&self, key: &str, value: &str) -> (s: Statement)
        ensures
            s@ == upsert_statement(self.table(), key@, value@),
    {
        let mut s = Statement::new("INSERT OR REPLACE INTO ", Fetch::Nothing);
        s.push(self.kv_name.as_str());
        s.push(" VALUES (");
        s.push_bind(key);
        s.push(", ");
        s.push_bind(value);
        s.push(")");
        proof {
            reveal_strlit(" VALUES (");
            reveal_strlit(", ");
            reveal_strlit(")");
            reveal_strlit(" VALUES (?, ?)");
            let tail = " VALUES ("@ + placeholder() + ", "@ + placeholder() + ")"@;
            assert(tail =~= " VALUES (?, ?)"@);
            assert(s@.sql =~= "INSERT OR REPLACE INTO "@ + self.table() + tail);
            assert(s@.binds =~= seq![key@, value@]);
        }
        s
    }

    /// The statement that removes the row of `key`. Its outcome is read with
    /// `Outcome::written`; that no row held `key` is no failure.
    pub fn del(&self, key: &str) -> (s: Statement)
        ensures
            s@ == delete_statement(self.table(), key@),
    {
        let mut s = Statement::new("DELETE FROM ", Fetch::Nothing);
        s.push(self.kv_name.as_str());
        s.push(" WHERE key = ");
        s.push_bind(key);
        proof {
            reveal_strlit(" WHERE key = ");
            reveal_strlit(" WHERE key = ?");
            assert(" WHERE key = "@ + placeholder() =~= " WHERE key = ?"@);
            assert(s@.sql =~= "DELETE FROM "@ + self.table() + (" WHERE key = "@
                + placeholder()));
            assert(s@.binds =~= seq![key@]);
        }
        s
    }

    /// The statement that reads every key. Its outcome is read with
    /// `Outcome::column`.
    pub fn keys(&self) -> (s: Statement)
        ensures
            s@ == select_keys_statement(self.table()),
    {
        let mut s = Statement::new("SELECT key FROM ", Fetch::All);
        s.push(self.kv_name.as_str());
        s
    }

    /// The statement that reads every value. Its outcome is read with
    /// `Outcome::column`.
    pub fn values(&self) -> (s: Statement)
        ensures
            s@ == select_values_statement(self.table()),
    {
        let mut s = Statement::new("SELECT value FROM ", Fetch::All);
        s.push(self.kv_name.as_str());
        s
    }

    /// The statement that reads every row. Its outcome is read with
    /// `Outcome::records`.
    pub fn records(&self) -> (s: Statement)
        ensures
            s@ == select_records_statement(self.table()),
    {
        let mut s = Statement::new("SELECT key, value FROM ", Fetch::All);
        s.push(self.kv_name.as_str());
        s
    }

    /// The statement that tells whether `key` has a value: the one of `get`.
    /// Its outcome is read with `Outcome::found`.
    pub fn contains(&self, key: &str) -> (s: Statement)
        ensures
            s@ == select_value_statement(self.table(), key@),
    {
        self.get(key)
    }
}

} // verus!
