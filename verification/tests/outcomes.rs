use kvlite::{Outcome, Record, StoreError};

fn row(columns: &[&str]) -> Vec<String> {
    columns.iter().map(|c| c.to_string()).collect()
}

#[test]
fn value_is_the_column_of_the_first_row() {
    assert_eq!(Outcome::First(Some(row(&["value42"]))).value(), Ok("value42".to_string()));
    assert_eq!(Outcome::First(Some(row(&[""]))).value(), Ok(String::new()));
}

#[test]
fn value_without_a_row_is_not_found() {
    assert_eq!(Outcome::First(None).value(), Err(StoreError::NotFound));
}

#[test]
fn value_of_a_failure_is_a_read_error() {
    assert_eq!(
        Outcome::Failed("disk I/O error".to_string()).value(),
        Err(StoreError::ReadError("disk I/O error".to_string()))
    );
}

#[test]
fn value_of_another_outcome_is_unexpected() {
    assert_eq!(Outcome::Done.value(), Err(StoreError::UnexpectedOutcome));
    assert_eq!(Outcome::All(vec![row(&["v"])]).value(), Err(StoreError::UnexpectedOutcome));
    assert_eq!(Outcome::First(Some(row(&[]))).value(), Err(StoreError::UnexpectedOutcome));
    assert_eq!(
        Outcome::First(Some(row(&["k", "v"]))).value(),
        Err(StoreError::UnexpectedOutcome)
    );
}

#[test]
fn found_tells_whether_there_is_a_row() {
    assert_eq!(Outcome::First(Some(row(&["value1"]))).found(), Ok(true));
    assert_eq!(Outcome::First(None).found(), Ok(false));
}

#[test]
fn found_of_a_failure_is_a_read_error() {
    assert_eq!(
        Outcome::Failed("locked".to_string()).found(),
        Err(StoreError::ReadError("locked".to_string()))
    );
}

#[test]
fn found_of_another_outcome_is_unexpected() {
    assert_eq!(Outcome::Done.found(), Err(StoreError::UnexpectedOutcome));
    assert_eq!(Outcome::All(vec![]).found(), Err(StoreError::UnexpectedOutcome));
}

#[test]
fn written_succeeds_when_the_statement_has_run() {
    assert_eq!(Outcome::Done.written(), Ok(()));
}

#[test]
fn written_of_a_failure_is_a_write_error() {
    assert_eq!(
        Outcome::Failed("attempt to write a readonly database".to_string()).written(),
        Err(StoreError::WriteError("attempt to write a readonly database".to_string()))
    );
}

#[test]
fn written_of_another_outcome_is_unexpected() {
    assert_eq!(Outcome::First(None).written(), Err(StoreError::UnexpectedOutcome));
    assert_eq!(Outcome::All(vec![]).written(), Err(StoreError::UnexpectedOutcome));
}

#[test]
fn column_keeps_the_order_of_the_rows() {
    let rows = vec![row(&["key2"]), row(&["key0"]), row(&["key1"])];
    assert_eq!(
        Outcome::All(rows).column(),
        Ok(vec!["key2".to_string(), "key0".to_string(), "key1".to_string()])
    );
}

#[test]
fn column_of_an_empty_table_is_empty() {
    assert_eq!(Outcome::All(vec![]).column(), Ok(vec![]));
}

#[test]
fn column_rejects_a_row_of_another_width() {
    let rows = vec![row(&["key0"]), row(&["key1", "value1"])];
    assert_eq!(Outcome::All(rows).column(), Err(StoreError::UnexpectedOutcome));
    assert_eq!(Outcome::All(vec![row(&[])]).column(), Err(StoreError::UnexpectedOutcome));
}

#[test]
fn column_of_a_failure_is_a_read_error() {
    assert_eq!(
        Outcome::Failed("no such table: store".to_string()).column(),
        Err(StoreError::ReadError("no such table: store".to_string()))
    );
    assert_eq!(Outcome::Done.column(), Err(StoreError::UnexpectedOutcome));
    assert_eq!(Outcome::First(None).column(), Err(StoreError::UnexpectedOutcome));
}

#[test]
fn records_pair_the_key_with_the_value() {
    let rows = vec![row(&["key1", "value1"]), row(&["key0", "value0"])];
    assert_eq!(
        Outcome::All(rows).records(),
        Ok(vec![
            Record { key: "key1".to_string(), value: "value1".to_string() },
            Record { key: "key0".to_string(), value: "value0".to_string() },
        ])
    );
}

#[test]
fn records_of_an_empty_table_are_empty() {
    assert_eq!(Outcome::All(vec![]).records(), Ok(vec![]));
}

#[test]
fn records_reject_a_row_of_another_width() {
    let rows = vec![row(&["key0", "value0"]), row(&["key1"])];
    assert_eq!(Outcome::All(rows).records(), Err(StoreError::UnexpectedOutcome));
    let rows = vec![row(&["key0", "value0", "more"])];
    assert_eq!(Outcome::All(rows).records(), Err(StoreError::UnexpectedOutcome));
}

#[test]
fn records_of_a_failure_are_a_read_error() {
    assert_eq!(
        Outcome::Failed("malformed".to_string()).records(),
        Err(StoreError::ReadError("malformed".to_string()))
    );
    assert_eq!(Outcome::Done.records(), Err(StoreError::UnexpectedOutcome));
    assert_eq!(Outcome::First(None).records(), Err(StoreError::UnexpectedOutcome));
}
