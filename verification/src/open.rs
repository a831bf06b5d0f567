//! Opening a store: connect, look for the table, create it where it is
//! missing. The database work is the driver's; which work comes next, and
//! what its outcome means, is decided here.

use crate::error::{result_view, StoreError, StoreErrorView};
use crate::name::{spec_valid_name, valid_name};
use crate::outcome::{Outcome, OutcomeView};
use crate::statement::{Statement, StatementView};
use crate::store::{
    build_create_table, build_find_table, create_table_statement, find_table_statement, KVLite,
};
use vstd::prelude::*;

verus! {

/// Where the database is, and how it is to be opened.
#[derive(Debug, Clone, PartialEq, Eq)]
pub struct Location {
    /// The database file, as a path or as a URL that starts with `sqlite:`.
    pub filename: String,
    /// Open the database for reading only.
    pub read_only: bool,
    /// Create the database file where there is none.
    pub create_if_missing: bool,
}

/// A [`Location`] as plain values.
pub struct LocationView {
    pub filename: Seq<char>,
    pub read_only: bool,
    pub create_if_missing: bool,
}

impl View for Location {
    type V = LocationView;

    open spec fn view(&self) -> LocationView {
        LocationView {
            filename: self.filename@,
            read_only: self.read_only,
            create_if_missing: self.create_if_missing,
        }
    }
}

/// How far the opening of a store has come: the work whose outcome is
/// awaited.
#[derive(Clone, Copy, Debug, PartialEq, Eq, Structural)]
pub enum Phase {
    /// Connecting to the database.
    Connecting,
    /// Looking for the table in the catalog.
    FindingTable,
    /// Creating the table.
    CreatingTable,
}

/// A store that is being opened.
pub struct Opening {
    location: Location,
    kv_name: String,
    phase: Phase,
}

/// An [`Opening`] as plain values.
pub struct OpeningView {
    pub location: LocationView,
    pub table: Seq<char>,
    pub phase: Phase,
}

/// What the driver does next for a store that is being opened.
pub enum OpenStep {
    /// Run the statement, and hand its outcome to the opening.
    Run(Opening, Statement),
    /// The store is open.
    Ready(KVLite),
    /// The store could not be opened.
    Failed(StoreError),
}

/// An [`OpenStep`] as plain values; a store that is ready is given by the
/// name of its table.
pub enum OpenStepView {
    Run(OpeningView, StatementView),
    Ready(Seq<char>),
    Failed(StoreErrorView),
}

impl View for OpenStep {
    type V = OpenStepView;

    open spec fn view(&self) -> OpenStepView {
        match *self {
            OpenStep::Run(opening, statement) => OpenStepView::Run(opening@, statement@),
            OpenStep::Ready(store) => OpenStepView::Ready(store.table()),
            OpenStep::Failed(error) => OpenStepView::Failed(error@),
        }
    }
}

/// Where opening starts: `InvalidTableName` for a table name that is not
/// accepted, and else the opening that awaits the connection.
pub open spec fn spec_new(
    filename: Seq<char>,
    kv_name: Seq<char>,
    read_only: bool,
    create_new: bool,
) -> Result<OpeningView, StoreErrorView> {
    if spec_valid_name(kv_name) {
        Ok(
            OpeningView {
                location: LocationView { filename, read_only, create_if_missing: create_new },
                table: kv_name,
                phase: Phase::Connecting,
            },
        )
    } else {
        Err(StoreErrorView::InvalidTableName)
    }
}

/// What follows from `outcome`, the outcome of the work that `opening`
/// awaited.
///
/// Once connected, the table is looked for. Where it is found the store is
/// ready, and nothing is written; where it is missing it is created, and the
/// store is ready once that is done. A failure to connect or to read the
/// catalog is an `OpenError`, a failure to create the table a `SchemaError`.
pub open spec fn spec_step(opening: OpeningView, outcome: OutcomeView) -> OpenStepView {
    match opening.phase {
        Phase::Connecting => match outcome {
            OutcomeView::Done => OpenStepView::Run(
                OpeningView { phase: Phase::FindingTable, ..opening },
                find_table_statement(opening.table),
            ),
            OutcomeView::Failed(report) => OpenStepView::Failed(StoreErrorView::OpenError(report)),
            _ => OpenStepView::Failed(StoreErrorView::UnexpectedOutcome),
        },
        Phase::FindingTable => match outcome {
            OutcomeView::First(Some(_)) => OpenStepView::Ready(opening.table),
            OutcomeView::First(None) => OpenStepView::Run(
                OpeningView { phase: Phase::CreatingTable, ..opening },
                create_table_statement(opening.table),
            ),
            OutcomeView::Failed(report) => OpenStepView::Failed(StoreErrorView::OpenError(report)),
            _ => OpenStepView::Failed(StoreErrorView::UnexpectedOutcome),
        },
        Phase::CreatingTable => match outcome {
            OutcomeView::Done => OpenStepView::Ready(opening.table),
            OutcomeView::Failed(report) => OpenStepView::Failed(
                StoreErrorView::SchemaError(report),
            ),
            _ => OpenStepView::Failed(StoreErrorView::UnexpectedOutcome),
        },
    }
}

impl Opening {
    #[verifier::type_invariant]
    spec fn name_is_valid(&self) -> bool {
        spec_valid_name(self.kv_name@)
    }

    /// Where the database is, and how the driver is to connect to it.
    pub fn location(&self) -> (location: &Location)
        ensures
            location@ == self@.location,
    {
        &self.location
    }

    /// How far the opening has come.
    pub fn phase(&self) -> (phase: Phase)
        ensures
            phase == self@.phase,
    {
        self.phase
    }

    /// Takes the outcome of the work that was awaited and says what the
    /// driver does next. The outcome of connecting is `Outcome::Done` or
    /// `Outcome::Failed`.
    pub fn step(self, outcome: Outcome) -> (next: OpenStep)
        ensures
            next@ == spec_step(self@, outcome@),
    {
        proof {
            use_type_invariant(&self);
        }
        let Opening { location, kv_name, phase } = self;
        match phase {
            Phase::Connecting => match outcome {
                Outcome::Done => {
                    let statement = build_find_table(kv_name.as_str());
                    OpenStep::Run(
                        Opening { location, kv_name, phase: Phase::FindingTable },
                        statement,
                    )
                },
                Outcome::Failed(report) => OpenStep::Failed(StoreError::OpenError(report)),
                _ => OpenStep::Failed(StoreError::UnexpectedOutcome),
            },
            Phase::FindingTable => match outcome {
                Outcome::First(Some(_)) => OpenStep::Ready(KVLite::over(kv_name)),
                Outcome::First(None) => {
                    let statement = build_create_table(kv_name.as_str());
                    OpenStep::Run(
                        Opening { location, kv_name, phase: Phase::CreatingTable },
                        statement,
                    )
                },
                Outcome::Failed(report) => OpenStep::Failed(StoreError::OpenError(report)),
                _ => OpenStep::Failed(StoreError::UnexpectedOutcome),
            },
            Phase::CreatingTable => match outcome {
                Outcome::Done => OpenStep::Ready(KVLite::over(kv_name)),
                Outcome::Failed(report) => OpenStep::Failed(StoreError::SchemaError(report)),
                _ => OpenStep::Failed(StoreError::UnexpectedOutcome),
            },
        }
    }
}

impl View for Opening {
    type V = OpeningView;

    closed spec fn view(&self) -> OpeningView {
        OpeningView { location: self.location@, table: self.kv_name@, phase: self.phase }
    }
}

impl DeepView for Opening {
    type V = OpeningView;

    open spec fn deep_view(&self) -> OpeningView {
        self@
    }
}

impl KVLite {
    /// Starts to open the store that keeps its rows in the table `kv_name` of
    /// the database at `filename`. The table name is checked first; the
    /// driver then connects to [`Opening::location`] and hands the outcome to
    /// [`Opening::step`].
    pub fn new(filename: &str, kv_name: &str, read_only: bool, create_new: bool) -> (r: Result<
        Opening,
        StoreError,
    >)
        ensures
            result_view(r) == spec_new(filename@, kv_name@, read_only, create_new),
    {
        if valid_name(kv_name) {
            Ok(
                Opening {
                    location: Location {
                        filename: filename.to_owned(),
                        read_only,
                        create_if_missing: create_new,
                    },
                    kv_name: kv_name.to_owned(),
                    phase: Phase::Connecting,
                },
            )
        } else {
            Err(StoreError::InvalidTableName)
        }
    }
}

} // verus!
