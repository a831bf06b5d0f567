use kvlite::{Fetch, KVLite, OpenStep, Outcome, Statement, StoreError};

fn store_over(kv_name: &str) -> KVLite {
    let opening = KVLite::new("sqlite::memory:", kv_name, false, true).unwrap();
    let finding = match opening.step(Outcome::Done) {
        OpenStep::Run(finding, _) => finding,
        _ => panic!("connecting did not lead to a statement"),
    };
    match finding.step(Outcome::First(Some(vec![kv_name.to_string()]))) {
        OpenStep::Ready(store) => store,
        _ => panic!("a table that was found did not make the store ready"),
    }
}

fn bound(statement: &Statement) -> String {
    format!("{:?}", statement.arguments)
}

#[test]
fn a_new_statement_has_its_text_and_no_bound_value() {
    let s = Statement::new("SELECT 1", Fetch::First);
    assert_eq!(s.sql, "SELECT 1");
    assert_eq!(bound(&s), "SqliteArguments { values: [] }");
    assert_eq!(s.fetch, Fetch::First);
}

#[test]
fn push_appends_text_and_binds_nothing() {
    let mut s = Statement::new("SELECT ", Fetch::All);
    s.push("key");
    s.push(" FROM t");
    assert_eq!(s.sql, "SELECT key FROM t");
    assert_eq!(bound(&s), "SqliteArguments { values: [] }");
    assert_eq!(s.fetch, Fetch::All);
}

#[test]
fn push_bind_appends_a_placeholder_and_binds_the_value() {
    let mut s = Statement::new("a = ", Fetch::Nothing);
    s.push_bind("one");
    s.push(" AND b = ");
    s.push_bind("two");
    assert_eq!(s.sql, "a = ? AND b = ?");
    assert_eq!(bound(&s), "SqliteArguments { values: [Text(\"one\"), Text(\"two\")] }");
    assert_eq!(s.fetch, Fetch::Nothing);
}

#[test]
fn a_bound_value_is_not_spliced_into_the_text() {
    let mut s = Statement::new("a = ", Fetch::First);
    s.push_bind("x' OR '1' = '1");
    assert_eq!(s.sql, "a = ?");
    assert_eq!(bound(&s), "SqliteArguments { values: [Text(\"x' OR '1' = '1\")] }");
}

#[test]
fn get_reads_the_value_of_one_key() {
    let s = store_over("store").get("key42");
    assert_eq!(s.sql, "SELECT value FROM store WHERE key = ?");
    assert_eq!(bound(&s), "SqliteArguments { values: [Text(\"key42\")] }");
    assert_eq!(s.fetch, Fetch::First);
}

#[test]
fn contains_sends_the_statement_of_get() {
    let store = store_over("store");
    let s = store.contains("key42");
    let g = store.get("key42");
    assert_eq!(s.sql, "SELECT value FROM store WHERE key = ?");
    assert_eq!(s.sql, g.sql);
    assert_eq!(bound(&s), bound(&g));
    assert_eq!(s.fetch, Fetch::First);
}

#[test]
fn set_writes_key_then_value() {
    let s = store_over("store").set("key1", "value1");
    assert_eq!(s.sql, "INSERT OR REPLACE INTO store VALUES (?, ?)");
    assert_eq!(bound(&s), "SqliteArguments { values: [Text(\"key1\"), Text(\"value1\")] }");
    assert_eq!(s.fetch, Fetch::Nothing);
}

#[test]
fn del_removes_the_row_of_one_key() {
    let s = store_over("store").del("key1");
    assert_eq!(s.sql, "DELETE FROM store WHERE key = ?");
    assert_eq!(bound(&s), "SqliteArguments { values: [Text(\"key1\")] }");
    assert_eq!(s.fetch, Fetch::Nothing);
}

#[test]
fn keys_values_and_records_read_every_row() {
    let store = store_over("kv_2");
    let keys = store.keys();
    assert_eq!(keys.sql, "SELECT key FROM kv_2");
    assert_eq!(bound(&keys), "SqliteArguments { values: [] }");
    assert_eq!(keys.fetch, Fetch::All);
    let values = store.values();
    assert_eq!(values.sql, "SELECT value FROM kv_2");
    assert_eq!(bound(&values), "SqliteArguments { values: [] }");
    assert_eq!(values.fetch, Fetch::All);
    let records = store.records();
    assert_eq!(records.sql, "SELECT key, value FROM kv_2");
    assert_eq!(bound(&records), "SqliteArguments { values: [] }");
    assert_eq!(records.fetch, Fetch::All);
}

#[test]
fn an_empty_key_is_bound_like_any_other() {
    let s = store_over("store").set("", "");
    assert_eq!(s.sql, "INSERT OR REPLACE INTO store VALUES (?, ?)");
    assert_eq!(bound(&s), "SqliteArguments { values: [Text(\"\"), Text(\"\")] }");
}

#[test]
fn create_store_table_gives_the_schema() {
    let s = KVLite::create_store_table("store").unwrap();
    assert_eq!(s.sql, "CREATE TABLE store (key TEXT PRIMARY KEY, value TEXT)");
    assert_eq!(bound(&s), "SqliteArguments { values: [] }");
    assert_eq!(s.fetch, Fetch::Nothing);
}

#[test]
fn create_store_table_rejects_a_name_off_the_list() {
    match KVLite::create_store_table("store (x); DROP TABLE store; --") {
        Err(e) => assert_eq!(e, StoreError::InvalidTableName),
        Ok(_) => panic!("the name was accepted"),
    }
    assert!(matches!(KVLite::create_store_table(""), Err(StoreError::InvalidTableName)));
}

#[test]
fn kv_name_is_the_name_the_store_was_opened_with() {
    assert_eq!(store_over("store").kv_name(), "store");
    assert_eq!(store_over("Other_1").kv_name(), "Other_1");
}
