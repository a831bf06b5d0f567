//! Commands: the operations of the store as values, the statement that each
//! one sends, the response that its outcome gives, and the lines that a
//! response prints.

use crate::error::{result_view, StoreError, StoreErrorView};
use crate::outcome::{
    spec_column, spec_found, spec_records, spec_value, spec_written, Outcome, OutcomeView, Record,
    RecordView,
};
use crate::statement::{Statement, StatementView};
use crate::store::{
    delete_statement, select_keys_statement, select_records_statement, select_value_statement,
    select_values_statement, upsert_statement, KVLite,
};
use vstd::prelude::*;
use vstd::string::*;

verus! {

/// One operation of the store.
#[derive(Debug, Clone, PartialEq, Eq)]
pub enum Command {
    /// Set the value of a record.
    Put { key: String, value: String },
    /// Check if a record exists.
    Contains { key: String },
    /// Get the value of a record.
    Get { key: String },
    /// Delete a record.
    Delete { key: String },
    /// List the keys of all records.
    Keys,
    /// List the values of all records.
    Values,
    /// List all records.
    Records,
}

/// A [`Command`] as plain values.
pub enum CommandView {
    Put { key: Seq<char>, value: Seq<char> },
    Contains { key: Seq<char> },
    Get { key: Seq<char> },
    Delete { key: Seq<char> },
    Keys,
    Values,
    Records,
}

impl View for Command {
    type V = CommandView;

    open spec fn view(&self) -> CommandView {
        match *self {
            Command::Put { key, value } => CommandView::Put { key: key@, value: value@ },
            Command::Contains { key } => CommandView::Contains { key: key@ },
            Command::Get { key } => CommandView::Get { key: key@ },
            Command::Delete { key } => CommandView::Delete { key: key@ },
            Command::Keys => CommandView::Keys,
            Command::Values => CommandView::Values,
            Command::Records => CommandView::Records,
        }
    }
}

/// What a command that succeeded gives back.
#[derive(Debug, Clone, PartialEq, Eq)]
pub enum Response {
    /// A `Put` or a `Delete` was carried out.
    Done,
    /// Whether the key of a `Contains` has a value.
    Found(bool),
    /// The value that a `Get` asked for.
    Value(String),
    /// The keys of all records, in no particular order.
    Keys(Vec<String>),
    /// The values of all records, in no particular order.
    Values(Vec<String>),
    /// All records, in no particular order.
    Records(Vec<Record>),
}

/// A [`Response`] as plain values.
pub enum ResponseView {
    Done,
    Found(bool),
    Value(Seq<char>),
    Keys(Seq<Seq<char>>),
    Values(Seq<Seq<char>>),
    Records(Seq<RecordView>),
}

impl View for Response {
    type V = ResponseView;

    open spec fn view(&self) -> ResponseView {
        match *self {
            Response::Done => ResponseView::Done,
            Response::Found(found) => ResponseView::Found(found),
            Response::Value(value) => ResponseView::Value(value@),
            Response::Keys(keys) => ResponseView::Keys(keys.deep_view()),
            Response::Values(values) => ResponseView::Values(values.deep_view()),
            Response::Records(records) => ResponseView::Records(records.deep_view()),
        }
    }
}

impl DeepView for Response {
    type V = ResponseView;

    open spec fn deep_view(&self) -> ResponseView {
        self@
    }
}

/// The statement that `command` sends to the table `table`.
pub open spec fn spec_statement(table: Seq<char>, command: CommandView) -> StatementView {
    match command {
        CommandView::Put { key, value } => upsert_statement(table, key, value),
        CommandView::Contains { key } => select_value_statement(table, key),
        CommandView::Get { key } => select_value_statement(table, key),
        CommandView::Delete { key } => delete_statement(table, key),
        CommandView::Keys => select_keys_statement(table),
        CommandView::Values => select_values_statement(table),
        CommandView::Records => select_records_statement(table),
    }
}

/// The response that `outcome`, the outcome of the statement of `command`,
/// gives: each command reads the outcome as the operation of its name does.
pub open spec fn spec_response(command: CommandView, outcome: OutcomeView) -> Result<
    ResponseView,
    StoreErrorView,
> {
    match command {
        CommandView::Put { .. } | CommandView::Delete { .. } => match spec_written(outcome) {
            Ok(_) => Ok(ResponseView::Done),
            Err(error) => Err(error),
        },
        CommandView::Contains { .. } => match spec_found(outcome) {
            Ok(found) => Ok(ResponseView::Found(found)),
            Err(error) => Err(error),
        },
        CommandView::Get { .. } => match spec_value(outcome) {
            Ok(value) => Ok(ResponseView::Value(value)),
            Err(error) => Err(error),
        },
        CommandView::Keys => match spec_column(outcome) {
            Ok(keys) => Ok(ResponseView::Keys(keys)),
            Err(error) => Err(error),
        },
        CommandView::Values => match spec_column(outcome) {
            Ok(values) => Ok(ResponseView::Values(values)),
            Err(error) => Err(error),
        },
        CommandView::Records => match spec_records(outcome) {
            Ok(records) => Ok(ResponseView::Records(records)),
            Err(error) => Err(error),
        },
    }
}

/// The line that stands for a record: the key, a comma, the value.
pub open spec fn record_line(record: RecordView) -> Seq<char> {
    record.key + seq![','] + record.value
}

/// The lines that `response` prints: `ok` for a write, `true` or `false` for
/// a `Contains`, the value for a `Get`, and one line for each item of a list.
pub open spec fn spec_lines(response: ResponseView) -> Seq<Seq<char>> {
    match response {
        ResponseView::Done => seq!["ok"@],
        ResponseView::Found(found) => seq![if found { "true"@ } else { "false"@ }],
        ResponseView::Value(value) => seq![value],
        ResponseView::Keys(keys) => keys,
        ResponseView::Values(values) => values,
        ResponseView::Records(records) => Seq::new(
            records.len(),
            |i: int| record_line(records[i]),
        ),
    }
}

impl KVLite {
    /// The statement that `command` sends.
    pub fn statement(&self, command: &Command) -> (s: Statement)
        ensures
            s@ == spec_statement(self.table(), command@),
    {
        match command {
            Command::Put { key, value } => self.set(key.as_str(), value.as_str()),
            Command::Contains { key } => self.contains(key.as_str()),
            Command::Get { key } => self.get(key.as_str()),
            Command::Delete { key } => self.del(key.as_str()),
            Command::Keys => self.keys(),
            Command::Values => self.values(),
            Command::Records => self.records(),
        }
    }
}

impl Command {
    /// Reads `outcome`, the outcome of this command's statement.
    pub fn response(&self, outcome: Outcome) -> (r: Result<Response, StoreError>)
        ensures
            result_view(r) == spec_response(self@, outcome@),
    {
        match self {
            Command::Put { .. } | Command::Delete { .. } => match outcome.written() {
                Ok(_) => Ok(Response::Done),
                Err(error) => Err(error),
            },
            Command::Contains { .. } => match outcome.found() {
                Ok(found) => Ok(Response::Found(found)),
                Err(error) => Err(error),
            },
            Command::Get { .. } => match outcome.value() {
                Ok(value) => Ok(Response::Value(value)),
                Err(error) => Err(error),
            },
            Command::Keys => match outcome.column() {
                Ok(keys) => Ok(Response::Keys(keys)),
                Err(error) => Err(error),
            },
            Command::Values => match outcome.column() {
                Ok(values) => Ok(Response::Values(values)),
                Err(error) => Err(error),
            },
            Command::Records => match outcome.records() {
                Ok(records) => Ok(Response::Records(records)),
                Err(error) => Err(error),
            },
        }
    }
}

/// A copy of `items`.
fn copy_of(items: &Vec<String>) -> (copy: Vec<String>)
    ensures
        copy.deep_view() == items.deep_view(),
{
    let mut copy: Vec<String> = Vec::new();
    let mut i: usize = 0;
    while i < items.len()
        invariant
            i <= items.len(),
            copy.len() == i,
            forall|j: int| 0 <= j < i ==> (#[trigger] copy@[j])@ == items@[j]@,
        decreases items.len() - i,
    {
        copy.push(items[i].clone());
        i = i + 1;
    }
    assert(copy.deep_view() =~= items.deep_view());
    copy
}

impl Response {
    /// The lines that this response prints.
    pub fn lines(&self) -> (lines: Vec<String>)
        ensures
            lines.deep_view() == spec_lines(self@),
    {
        match self {
            Response::Done => {
                let lines = vec![String::from_str("ok")];
                assert(lines.deep_view() =~= seq!["ok"@]);
                lines
            },
            Response::Found(found) => {
                let word = if *found {
                    "true"
                } else {
                    "false"
                };
                let lines = vec![String::from_str(word)];
                assert(lines.deep_view() =~= seq![word@]);
                lines
            },
            Response::Value(value) => {
                let lines = vec![value.clone()];
                assert(lines.deep_view() =~= seq![value@]);
                lines
            },
            Response::Keys(keys) => copy_of(keys),
            Response::Values(values) => copy_of(values),
            Response::Records(records) => {
                let mut lines: Vec<String> = Vec::new();
                let mut i: usize = 0;
                while i < records.len()
                    invariant
                        i <= records.len(),
                        lines.len() == i,
                        forall|j: int|
                            0 <= j < i ==> (#[trigger] lines@[j])@ == record_line(records@[j]@),
                    decreases records.len() - i,
                {
                    let mut line = records[i].key.clone();
                    line.append(",");
                    line.append(records[i].value.as_str());
                    proof {
                        reveal_strlit(",");
                        assert(","@ =~= seq![',']);
                    }
                    lines.push(line);
                    i = i + 1;
                }
                assert(lines.deep_view() =~= spec_lines(self@));
                lines
            },
        }
    }
}

} // verus!
