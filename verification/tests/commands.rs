use kvlite::{Command, KVLite, OpenStep, Outcome, Record, Response, StoreError};

fn open_store() -> KVLite {
    let opening = KVLite::new("sqlite::memory:", "store", false, true).unwrap();
    let finding = match opening.step(Outcome::Done) {
        OpenStep::Run(finding, _) => finding,
        _ => panic!("connecting did not lead to a statement"),
    };
    match finding.step(Outcome::First(Some(vec!["store".to_string()]))) {
        OpenStep::Ready(store) => store,
        _ => panic!("a table that was found did not make the store ready"),
    }
}

fn key(text: &str) -> String {
    text.to_string()
}

fn same(command: &Command, expected: kvlite::Statement) {
    let got = open_store().statement(command);
    assert_eq!(got.sql, expected.sql);
    assert_eq!(format!("{:?}", got.arguments), format!("{:?}", expected.arguments));
    assert_eq!(got.fetch, expected.fetch);
}

#[test]
fn each_command_sends_the_statement_of_its_operation() {
    let store = open_store();
    same(&Command::Put { key: key("k"), value: key("v") }, store.set("k", "v"));
    same(&Command::Contains { key: key("k") }, store.contains("k"));
    same(&Command::Get { key: key("k") }, store.get("k"));
    same(&Command::Delete { key: key("k") }, store.del("k"));
    same(&Command::Keys, store.keys());
    same(&Command::Values, store.values());
    same(&Command::Records, store.records());
}

#[test]
fn put_sends_the_upsert() {
    let s = open_store().statement(&Command::Put { key: key("k"), value: key("v") });
    assert_eq!(s.sql, "INSERT OR REPLACE INTO store VALUES (?, ?)");
    assert_eq!(format!("{:?}", s.arguments), "SqliteArguments { values: [Text(\"k\"), Text(\"v\")] }");
}

#[test]
fn a_write_that_has_run_is_done() {
    let put = Command::Put { key: key("k"), value: key("v") };
    assert_eq!(put.response(Outcome::Done), Ok(Response::Done));
    let delete = Command::Delete { key: key("k") };
    assert_eq!(delete.response(Outcome::Done), Ok(Response::Done));
}

#[test]
fn a_write_that_failed_is_a_write_error() {
    let put = Command::Put { key: key("k"), value: key("v") };
    assert_eq!(
        put.response(Outcome::Failed("full".to_string())),
        Err(StoreError::WriteError("full".to_string()))
    );
    let delete = Command::Delete { key: key("k") };
    assert_eq!(
        delete.response(Outcome::Failed("full".to_string())),
        Err(StoreError::WriteError("full".to_string()))
    );
    assert_eq!(put.response(Outcome::First(None)), Err(StoreError::UnexpectedOutcome));
}

#[test]
fn get_gives_the_value_or_not_found() {
    let get = Command::Get { key: key("key42") };
    assert_eq!(
        get.response(Outcome::First(Some(vec![key("value42")]))),
        Ok(Response::Value(key("value42")))
    );
    assert_eq!(get.response(Outcome::First(None)), Err(StoreError::NotFound));
    assert_eq!(
        get.response(Outcome::Failed("busy".to_string())),
        Err(StoreError::ReadError("busy".to_string()))
    );
}

#[test]
fn contains_gives_true_or_false_and_never_not_found() {
    let contains = Command::Contains { key: key("key42") };
    assert_eq!(
        contains.response(Outcome::First(Some(vec![key("value42")]))),
        Ok(Response::Found(true))
    );
    assert_eq!(contains.response(Outcome::First(None)), Ok(Response::Found(false)));
}

#[test]
fn lists_give_one_item_for_each_row() {
    let rows = vec![vec![key("b")], vec![key("a")]];
    assert_eq!(
        Command::Keys.response(Outcome::All(rows.clone())),
        Ok(Response::Keys(vec![key("b"), key("a")]))
    );
    assert_eq!(
        Command::Values.response(Outcome::All(rows.clone())),
        Ok(Response::Values(vec![key("b"), key("a")]))
    );
    assert_eq!(Command::Records.response(Outcome::All(rows)), Err(StoreError::UnexpectedOutcome));
    let rows = vec![vec![key("k1"), key("v1")], vec![key("k0"), key("v0")]];
    assert_eq!(
        Command::Records.response(Outcome::All(rows.clone())),
        Ok(Response::Records(vec![
            Record { key: key("k1"), value: key("v1") },
            Record { key: key("k0"), value: key("v0") },
        ]))
    );
    assert_eq!(Command::Keys.response(Outcome::All(rows)), Err(StoreError::UnexpectedOutcome));
    assert_eq!(Command::Keys.response(Outcome::All(vec![])), Ok(Response::Keys(vec![])));
}

#[test]
fn a_write_prints_ok() {
    assert_eq!(Response::Done.lines(), vec!["ok".to_string()]);
}

#[test]
fn contains_prints_true_or_false() {
    assert_eq!(Response::Found(true).lines(), vec!["true".to_string()]);
    assert_eq!(Response::Found(false).lines(), vec!["false".to_string()]);
}

#[test]
fn get_prints_the_value_as_it_is() {
    assert_eq!(Response::Value(key("value42")).lines(), vec![key("value42")]);
    assert_eq!(Response::Value(key("a,b c")).lines(), vec![key("a,b c")]);
}

#[test]
fn lists_print_one_item_on_each_line() {
    assert_eq!(
        Response::Keys(vec![key("key1"), key("key0")]).lines(),
        vec![key("key1"), key("key0")]
    );
    assert_eq!(Response::Values(vec![key("value0")]).lines(), vec![key("value0")]);
    assert_eq!(Response::Keys(vec![]).lines(), Vec::<String>::new());
}

#[test]
fn records_print_key_comma_value() {
    let records = vec![
        Record { key: key("key0"), value: key("value0") },
        Record { key: key("key1"), value: key("") },
    ];
    assert_eq!(Response::Records(records).lines(), vec![key("key0,value0"), key("key1,")]);
    assert_eq!(Response::Records(vec![]).lines(), Vec::<String>::new());
}
