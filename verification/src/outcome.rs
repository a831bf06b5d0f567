//! Outcomes: what came of running a statement, and what each operation of
//! the store reads from it.

use crate::error::{result_view, StoreError, StoreErrorView};
use vstd::prelude::*;

verus! {

/// What came of running a statement. A row is the list of its columns, each
/// as text, in the order in which the statement names them.
#[derive(Debug, Clone, PartialEq, Eq)]
pub enum Outcome {
    /// A statement that asked for no row has run.
    Done,
    /// The first row of the answer, or `None` where the answer has no row.
    First(Option<Vec<String>>),
    /// Every row of the answer, in the order in which the database gave them.
    All(Vec<Vec<String>>),
    /// The database failed; this is its report.
    Failed(String),
}

/// An [`Outcome`] as plain values.
pub enum OutcomeView {
    Done,
    First(Option<Seq<Seq<char>>>),
    All(Seq<Seq<Seq<char>>>),
    Failed(Seq<char>),
}

impl View for Outcome {
    type V = OutcomeView;

    open spec fn view(&self) -> OutcomeView {
        match *self {
            Outcome::Done => OutcomeView::Done,
            Outcome::First(row) => OutcomeView::First(row.deep_view()),
            Outcome::All(rows) => OutcomeView::All(rows.deep_view()),
            Outcome::Failed(report) => OutcomeView::Failed(report@),
        }
    }
}

/// One row of the store's table.
#[derive(Debug, Clone, PartialEq, Eq)]
pub struct Record {
    pub key: String,
    pub value: String,
}

/// A [`Record`] as plain values.
pub struct RecordView {
    pub key: Seq<char>,
    pub value: Seq<char>,
}

impl View for Record {
    type V = RecordView;

    open spec fn view(&self) -> RecordView {
        RecordView { key: self.key@, value: self.value@ }
    }
}

impl DeepView for Record {
    type V = RecordView;

    open spec fn deep_view(&self) -> RecordView {
        self@
    }
}

/// Whether every row of `rows` has exactly `width` columns.
pub open spec fn all_of_width(rows: Seq<Seq<Seq<char>>>, width: nat) -> bool {
    forall|i: int| 0 <= i < rows.len() ==> (#[trigger] rows[i]).len() == width
}

/// The first column of each row, in the order of the rows.
pub open spec fn first_column(rows: Seq<Seq<Seq<char>>>) -> Seq<Seq<char>> {
    Seq::new(rows.len(), |i: int| rows[i][0])
}

/// Each row of two columns as a record: the first column is the key, the
/// second the value.
pub open spec fn as_records(rows: Seq<Seq<Seq<char>>>) -> Seq<RecordView> {
    Seq::new(rows.len(), |i: int| RecordView { key: rows[i][0], value: rows[i][1] })
}

/// What `get` reads from the outcome of its statement: the one column of the
/// first row; `NotFound` where there is no row.
pub open spec fn spec_value(outcome: OutcomeView) -> Result<Seq<char>, StoreErrorView> {
    match outcome {
        OutcomeView::First(Some(row)) => if row.len() == 1 {
            Ok(row[0])
        } else {
            Err(StoreErrorView::UnexpectedOutcome)
        },
        OutcomeView::First(None) => Err(StoreErrorView::NotFound),
        OutcomeView::Failed(report) => Err(StoreErrorView::ReadError(report)),
        _ => Err(StoreErrorView::UnexpectedOutcome),
    }
}

/// What `contains` reads from the outcome of its statement: whether there is
/// a row. That there is none is an answer, not a failure.
pub open spec fn spec_found(outcome: OutcomeView) -> Result<bool, StoreErrorView> {
    match outcome {
        OutcomeView::First(row) => Ok(row is Some),
        OutcomeView::Failed(report) => Err(StoreErrorView::ReadError(report)),
        _ => Err(StoreErrorView::UnexpectedOutcome),
    }
}

/// What `set` and `del` read from the outcome of their statements.
pub open spec fn spec_written(outcome: OutcomeView) -> Result<(), StoreErrorView> {
    match outcome {
        OutcomeView::Done => Ok(()),
        OutcomeView::Failed(report) => Err(StoreErrorView::WriteError(report)),
        _ => Err(StoreErrorView::UnexpectedOutcome),
    }
}

/// What `keys` and `values` read from the outcome of their statements: the
/// one column of every row, in the order of the rows.
pub open spec fn spec_column(outcome: OutcomeView) -> Result<Seq<Seq<char>>, StoreErrorView> {
    match outcome {
        OutcomeView::All(rows) => if all_of_width(rows, 1) {
            Ok(first_column(rows))
        } else {
            Err(StoreErrorView::UnexpectedOutcome)
        },
        OutcomeView::Failed(report) => Err(StoreErrorView::ReadError(report)),
        _ => Err(StoreErrorView::UnexpectedOutcome),
    }
}

/// What `records` reads from the outcome of its statement: every row as a
/// record, in the order of the rows.
pub open spec fn spec_records(outcome: OutcomeView) -> Result<Seq<RecordView>, StoreErrorView> {
    match outcome {
        OutcomeView::All(rows) => if all_of_width(rows, 2) {
            Ok(as_records(rows))
        } else {
            Err(StoreErrorView::UnexpectedOutcome)
        },
        OutcomeView::Failed(report) => Err(StoreErrorView::ReadError(report)),
        _ => Err(StoreErrorView::UnexpectedOutcome),
    }
}

impl Outcome {
    /// Reads the outcome of a `get`: the value found, or why there is none.
    pub fn value(self) -> (r: Result<String, StoreError>)
        ensures
            result_view(r) == spec_value(self@),
    {
        match self {
            Outcome::First(Some(mut row)) => {
                if row.len() == 1 {
                    match row.pop() {
                        Some(value) => Ok(value),
                        None => Err(StoreError::UnexpectedOutcome),
                    }
                } else {
                    Err(StoreError::UnexpectedOutcome)
                }
            },
            Outcome::First(None) => Err(StoreError::NotFound),
            Outcome::Failed(report) => Err(StoreError::ReadError(report)),
            _ => Err(StoreError::UnexpectedOutcome),
        }
    }

    /// Reads the outcome of a `contains`: whether a row was found.
    pub fn found(self) -> (r: Result<bool, StoreError>)
        ensures
            result_view(r) == spec_found(self@),
    {
        match self {
            Outcome::First(row) => Ok(row.is_some()),
            Outcome::Failed(report) => Err(StoreError::ReadError(report)),
            _ => Err(StoreError::UnexpectedOutcome),
        }
    }

    /// Reads the outcome of a `set` or a `del`.
    pub fn written(self) -> (r: Result<(), StoreError>)
        ensures
            result_view(r) == spec_written(self@),
    {
        match self {
            Outcome::Done => Ok(()),
            Outcome::Failed(report) => Err(StoreError::WriteError(report)),
            _ => Err(StoreError::UnexpectedOutcome),
        }
    }

    /// Reads the outcome of a `keys` or a `values`: the column that was
    /// asked for, one item for each row.
    pub fn column(self) -> (r: Result<Vec<String>, StoreError>)
        ensures
            result_view(r) == spec_column(self@),
    {
        match self {
            Outcome::All(rows) => match column_of(&rows) {
                Some(items) => Ok(items),
                None => Err(StoreError::UnexpectedOutcome),
            },
            Outcome::Failed(report) => Err(StoreError::ReadError(report)),
            _ => Err(StoreError::UnexpectedOutcome),
        }
    }

    /// Reads the outcome of a `records`: one record for each row.
    pub fn records(self) -> (r: Result<Vec<Record>, StoreError>)
        ensures
            result_view(r) == spec_records(self@),
    {
        match self {
            Outcome::All(rows) => match records_of(&rows) {
                Some(items) => Ok(items),
                None => Err(StoreError::UnexpectedOutcome),
            },
            Outcome::Failed(report) => Err(StoreError::ReadError(report)),
            _ => Err(StoreError::UnexpectedOutcome),
        }
    }
}

/// The first column of each row, where every row has one column.
fn column_of(rows: &Vec<Vec<String>>) -> (r: Option<Vec<String>>)
    ensures
        r.deep_view() == if all_of_width(rows.deep_view(), 1) {
            Some(first_column(rows.deep_view()))
        } else {
            None
        },
{
    let mut items: Vec<String> = Vec::new();
    let mut i: usize = 0;
    while i < rows.len()
        invariant
            i <= rows.len(),
            items.len() == i,
            forall|j: int| 0 <= j < i ==> (#[trigger] rows@[j])@.len() == 1,
            forall|j: int| 0 <= j < i ==> (#[trigger] items@[j])@ == rows@[j]@[0]@,
        decreases rows.len() - i,
    {
        if rows[i].len() != 1 {
            assert(rows.deep_view()[i as int].len() != 1);
            return None;
        }
        items.push(rows[i][0].clone());
        i = i + 1;
    }
    assert(all_of_width(rows.deep_view(), 1));
    assert(items.deep_view() =~= first_column(rows.deep_view()));
    Some(items)
}

/// Each row as a record, where every row has two columns.
fn records_of(rows: &Vec<Vec<String>>) -> (r: Option<Vec<Record>>)
    ensures
        r.deep_view() == if all_of_width(rows.deep_view(), 2) {
            Some(as_records(rows.deep_view()))
        } else {
            None
        },
{
    let mut items: Vec<Record> = Vec::new();
    let mut i: usize = 0;
    while i < rows.len()
        invariant
            i <= rows.len(),
            items.len() == i,
            forall|j: int| 0 <= j < i ==> (#[trigger] rows@[j])@.len() == 2,
            forall|j: int|
                0 <= j < i ==> (#[trigger] items@[j])@ == (RecordView {
                    key: rows@[j]@[0]@,
                    value: rows@[j]@[1]@,
                }),
        decreases rows.len() - i,
    {
        if rows[i].len() != 2 {
            assert(rows.deep_view()[i as int].len() != 2);
            return None;
        }
        items.push(Record { key: rows[i][0].clone(), value: rows[i][1].clone() });
        i = i + 1;
    }
    assert(all_of_width(rows.deep_view(), 2));
    assert(items.deep_view() =~= as_records(rows.deep_view()));
    Some(items)
}

} // verus!
