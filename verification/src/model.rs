//! What the store expects of the database, as mathematics: a table is a map
//! from keys to values, a database a map from table names to tables, and
//! each statement of the library reads or changes them in one fixed way.
//! Nothing here is run; the laws of the store are proved against it.

use crate::command::CommandView;
use crate::open::{spec_step, OpenStepView, OpeningView};
use crate::outcome::{OutcomeView, RecordView};
use vstd::prelude::*;

verus! {

/// The rows of a table: at most one value for each key.
#[verifier::ext_equal]
pub struct Table {
    pub rows: Map<Seq<char>, Seq<char>>,
}

/// Whether `command` writes a value under `key`.
pub open spec fn puts(command: CommandView, key: Seq<char>) -> bool {
    command matches CommandView::Put { key: written, .. } && written == key
}

/// The rows of an answer that lists the key of each record.
pub open spec fn key_rows(listing: Seq<RecordView>) -> Seq<Seq<Seq<char>>> {
    Seq::new(listing.len(), |i: int| seq![listing[i].key])
}

/// The rows of an answer that lists the value of each record.
pub open spec fn value_rows(listing: Seq<RecordView>) -> Seq<Seq<Seq<char>>> {
    Seq::new(listing.len(), |i: int| seq![listing[i].value])
}

/// The rows of an answer that lists each record, the key before the value.
pub open spec fn record_rows(listing: Seq<RecordView>) -> Seq<Seq<Seq<char>>> {
    Seq::new(listing.len(), |i: int| seq![listing[i].key, listing[i].value])
}

impl Table {
    /// The table without rows.
    pub open spec fn empty() -> Table {
        Table { rows: Map::empty() }
    }

    /// Whether a row holds `key`.
    pub open spec fn has(self, key: Seq<char>) -> bool {
        self.rows.contains_key(key)
    }

    /// The table once the statement of `command` has run: a `Put` writes its
    /// row in place of the row of the same key, a `Delete` removes the row of
    /// its key if there is one, and every other command leaves the table as
    /// it is.
    pub open spec fn after(self, command: CommandView) -> Table {
        match command {
            CommandView::Put { key, value } => Table { rows: self.rows.insert(key, value) },
            CommandView::Delete { key } => Table { rows: self.rows.remove(key) },
            _ => self,
        }
    }

    /// Whether `listing` holds every row of the table once, in any order.
    pub open spec fn listed_by(self, listing: Seq<RecordView>) -> bool {
        &&& forall|i: int|
            0 <= i < listing.len() ==> self.rows.contains_pair(
                (#[trigger] listing[i]).key,
                listing[i].value,
            )
        &&& forall|i: int, j: int|
            0 <= i < j < listing.len() ==> (#[trigger] listing[i]).key != (
            #[trigger] listing[j]).key
        &&& forall|key: Seq<char>| #[trigger]
            self.rows.contains_key(key) ==> exists|i: int|
                0 <= i < listing.len() && (#[trigger] listing[i]).key == key
    }

    /// Whether `outcome` is what a database that holds this table, and does
    /// not fail, hands back for the statement of `command`. The order of the
    /// rows of a list is the database's choice.
    pub open spec fn answers(self, command: CommandView, outcome: OutcomeView) -> bool {
        match command {
            CommandView::Put { .. } | CommandView::Delete { .. } => outcome == OutcomeView::Done,
            CommandView::Contains { key } | CommandView::Get { key } => outcome
                == OutcomeView::First(
                if self.has(key) {
                    Some(seq![self.rows[key]])
                } else {
                    None
                },
            ),
            CommandView::Keys => exists|listing: Seq<RecordView>|
                self.listed_by(listing) && outcome == OutcomeView::All(#[trigger] key_rows(listing)),
            CommandView::Values => exists|listing: Seq<RecordView>|
                self.listed_by(listing) && outcome == OutcomeView::All(
                    #[trigger] value_rows(listing),
                ),
            CommandView::Records => exists|listing: Seq<RecordView>|
                self.listed_by(listing) && outcome == OutcomeView::All(
                    #[trigger] record_rows(listing),
                ),
        }
    }
}

/// The table that the commands of `history`, carried out in order on a table
/// without rows, leave behind.
pub open spec fn replay(history: Seq<CommandView>) -> Table
    decreases history.len(),
{
    if history.len() == 0 {
        Table::empty()
    } else {
        replay(history.drop_last()).after(history.last())
    }
}

/// What the commands of `history` leave under `key`: the value of the last
/// `Put` of `key`, unless a `Delete` of `key` came after it.
pub open spec fn last_write(history: Seq<CommandView>, key: Seq<char>) -> Option<Seq<char>>
    decreases history.len(),
{
    if history.len() == 0 {
        None
    } else {
        match history.last() {
            CommandView::Put { key: written, value } if written == key => Some(value),
            CommandView::Delete { key: removed } if removed == key => None,
            _ => last_write(history.drop_last(), key),
        }
    }
}

/// The tables of a database, by name.
#[verifier::ext_equal]
pub struct Database {
    pub tables: Map<Seq<char>, Table>,
}

impl Database {
    /// What the database hands back for the statement that looks for
    /// `table` in the catalog: a row that names the table, if it exists.
    pub open spec fn find_table(self, table: Seq<char>) -> OutcomeView {
        OutcomeView::First(
            if self.tables.contains_key(table) {
                Some(seq![table])
            } else {
                None
            },
        )
    }

    /// The database once the statement that creates `table` has run where
    /// `table` was missing: it holds `table`, without rows, beside the tables
    /// that it held.
    pub open spec fn after_create(self, table: Seq<char>) -> Database {
        Database { tables: self.tables.insert(table, Table::empty()) }
    }
}

/// The opening of a store carried through against `db`, from the moment the
/// connection stands: the database afterwards, and how the opening ended.
/// The statement that looks for the table is answered by
/// [`Database::find_table`]; the statement that creates it, which is run only
/// where the table is missing, succeeds.
pub open spec fn opened(db: Database, opening: OpeningView) -> (Database, OpenStepView) {
    match spec_step(opening, OutcomeView::Done) {
        OpenStepView::Run(finding, _) => match spec_step(finding, db.find_table(finding.table)) {
            OpenStepView::Run(creating, _) => (
                db.after_create(creating.table),
                spec_step(creating, OutcomeView::Done),
            ),
            end => (db, end),
        },
        end => (db, end),
    }
}

} // verus!
