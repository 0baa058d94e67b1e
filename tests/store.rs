use rusty_manager::command::{changes_store, execute, select_command, Command, Outcome};
use rusty_manager::load::{load, ReadOutcome, StoreError};
use rusty_manager::record::Record;
use rusty_manager::store::Collection;

fn rec(secret: &str, confirmation: &str) -> Record {
    Record::new(secret.to_string(), confirmation.to_string())
}

fn pairs(records: &[Record]) -> Vec<(String, String)> {
    records
        .iter()
        .map(|r| (r.secret.clone(), r.confirmation.clone()))
        .collect()
}

#[test]
fn insert_then_find_round_trip() {
    let mut c = Collection::new();
    c.insert(rec("k", "v"));
    let found = c.find_by_secret("k").expect("record is present");
    assert_eq!(found.secret, "k");
    assert_eq!(found.confirmation, "v");
}

#[test]
fn inserts_keep_order() {
    let mut c = Collection::new();
    c.insert(rec("a", "1"));
    c.insert(rec("b", "2"));
    c.insert(rec("c", "3"));
    assert_eq!(
        pairs(&c.list_all()),
        vec![
            ("a".to_string(), "1".to_string()),
            ("b".to_string(), "2".to_string()),
            ("c".to_string(), "3".to_string()),
        ]
    );
}

#[test]
fn delete_removes_every_match() {
    let mut c = Collection::new();
    c.insert(rec("dup", "first"));
    c.insert(rec("keep", "x"));
    c.insert(rec("dup", "second"));
    assert_eq!(c.delete_by_secret("dup"), 2);
    assert!(c.find_by_secret("dup").is_none());
    assert_eq!(pairs(&c.list_all()), vec![("keep".to_string(), "x".to_string())]);
}

#[test]
fn delete_absent_key_is_noop() {
    let mut c = Collection::new();
    assert_eq!(c.delete_by_secret("nope"), 0);
    assert_eq!(c.len(), 0);

    let mut d = Collection::new();
    d.insert(rec("a", "1"));
    assert_eq!(d.delete_by_secret("nope"), 0);
    assert_eq!(pairs(&d.list_all()), vec![("a".to_string(), "1".to_string())]);
}

#[test]
fn find_on_missing_file_is_not_found() {
    let c = load(ReadOutcome::Missing).expect("a missing file loads");
    assert_eq!(c.len(), 0);
    assert!(c.find_by_secret("anything").is_none());
    assert!(c.find_by_secret("").is_none());
}

#[test]
fn list_all_twice_is_identical() {
    let mut c = Collection::new();
    c.insert(rec("a", "1"));
    c.insert(rec("b", "2"));
    let first = pairs(&c.list_all());
    let second = pairs(&c.list_all());
    assert_eq!(first, second);
    assert_eq!(c.len(), 2);
}

#[test]
fn malformed_file_loads_empty() {
    let c = load(ReadOutcome::Malformed).expect("a malformed file loads");
    assert_eq!(c.len(), 0);
}

#[test]
fn unreadable_file_is_an_error() {
    assert!(matches!(load(ReadOutcome::Unreadable), Err(StoreError::Unavailable)));
}

#[test]
fn parsed_file_loads_its_records() {
    let c = load(ReadOutcome::Parsed(vec![rec("a", "1"), rec("b", "2")])).expect("loads");
    assert_eq!(
        pairs(&c.list_all()),
        vec![("a".to_string(), "1".to_string()), ("b".to_string(), "2".to_string())]
    );
}

#[test]
fn find_returns_first_of_duplicates() {
    let mut c = Collection::new();
    c.insert(rec("dup", "first"));
    c.insert(rec("dup", "second"));
    let found = c.find_by_secret("dup").expect("present");
    assert_eq!(found.confirmation, "first");
    assert_eq!(c.len(), 2);
}

#[test]
fn insert_allows_duplicates() {
    let mut c = Collection::from_records(vec![rec("k", "v")]);
    c.insert(rec("k", "v"));
    assert_eq!(c.len(), 2);
}

#[test]
fn empty_key_matches_empty_secret() {
    let mut c = Collection::new();
    c.insert(rec("", "blank"));
    c.insert(rec("x", "y"));
    assert_eq!(c.find_by_secret("").expect("present").confirmation, "blank");
    assert_eq!(c.delete_by_secret(""), 1);
    assert_eq!(c.len(), 1);
}

#[test]
fn record_duplicate_copies_fields() {
    let r = rec("s", "c");
    let d = r.duplicate();
    assert_eq!(d.secret, "s");
    assert_eq!(d.confirmation, "c");
}

fn some(s: &str) -> Option<String> {
    Some(s.to_string())
}

#[test]
fn select_prefers_list_over_everything() {
    let c = select_command(true, true, some("p"), some("q"), some("d"), some("f"));
    assert!(matches!(c, Command::ListAll));
}

#[test]
fn select_insert_needs_both_values() {
    match select_command(false, true, some("p"), some("q"), some("d"), None) {
        Command::Insert(r) => {
            assert_eq!(r.secret, "p");
            assert_eq!(r.confirmation, "q");
        }
        _ => panic!("expected an insert"),
    }
    let c = select_command(false, true, some("p"), None, None, None);
    assert!(matches!(c, Command::IncompleteInsert));
    let c = select_command(false, true, None, None, None, None);
    assert!(matches!(c, Command::IncompleteInsert));
}

#[test]
fn select_delete_over_find() {
    match select_command(false, false, None, None, some("d"), some("f")) {
        Command::Delete(k) => assert_eq!(k, "d"),
        _ => panic!("expected a delete"),
    }
    match select_command(false, false, None, None, None, some("f")) {
        Command::Find(k) => assert_eq!(k, "f"),
        _ => panic!("expected a find"),
    }
    assert!(matches!(
        select_command(false, false, some("p"), some("q"), None, None),
        Command::Nothing
    ));
}

#[test]
fn only_insert_and_delete_change_the_store() {
    assert!(changes_store(&Command::Insert(rec("a", "b"))));
    assert!(changes_store(&Command::Delete("a".to_string())));
    assert!(!changes_store(&Command::Find("a".to_string())));
    assert!(!changes_store(&Command::ListAll));
    assert!(!changes_store(&Command::IncompleteInsert));
    assert!(!changes_store(&Command::Nothing));
}

#[test]
fn execute_applies_each_command() {
    let mut c = Collection::new();
    assert!(matches!(execute(&mut c, Command::Insert(rec("a", "1"))), Outcome::Inserted));
    assert!(matches!(execute(&mut c, Command::Insert(rec("a", "2"))), Outcome::Inserted));
    match execute(&mut c, Command::Find("a".to_string())) {
        Outcome::Found(Some(r)) => assert_eq!(r.confirmation, "1"),
        _ => panic!("expected a found record"),
    }
    match execute(&mut c, Command::ListAll) {
        Outcome::Listed(v) => assert_eq!(v.len(), 2),
        _ => panic!("expected a listing"),
    }
    assert!(matches!(execute(&mut c, Command::Delete("a".to_string())), Outcome::Deleted(2)));
    assert!(matches!(execute(&mut c, Command::Find("a".to_string())), Outcome::Found(None)));
    assert!(matches!(execute(&mut c, Command::IncompleteInsert), Outcome::IncompleteInsert));
    assert!(matches!(execute(&mut c, Command::Nothing), Outcome::NoAction));
    assert_eq!(c.len(), 0);
}
