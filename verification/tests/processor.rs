use kvstore::command::{parse_command, Command};
use kvstore::error::MyError;
use kvstore::processor::Reply;
use kvstore::store::Store;

fn get(key: &str) -> Command {
    Command::Get {
        key: key.to_string(),
    }
}

fn set(key: &str, value: &str) -> Command {
    Command::Put {
        key: key.to_string(),
        value: value.to_string(),
    }
}

fn delete(key: &str) -> Command {
    Command::Delete {
        key: key.to_string(),
    }
}

fn not_found(key: &str) -> MyError {
    MyError::NotFound {
        key: key.to_string(),
    }
}

#[test]
fn get_and_delete_on_an_empty_store_report_the_key() {
    let mut store = Store::new();
    assert_eq!(store.apply(get("x")), Err(not_found("x")));
    assert_eq!(store.apply(delete("x")), Err(not_found("x")));
    assert!(store.is_empty());
    assert_eq!(store.len(), 0);
}

#[test]
fn set_then_get_gives_the_value() {
    let mut store = Store::new();
    assert_eq!(
        store.apply(set("x", "y")),
        Ok(Reply::Stored { previous: None })
    );
    assert_eq!(store.apply(get("x")), Ok(Reply::Value("y".to_string())));
    assert_eq!(store.len(), 1);
    assert!(!store.is_empty());
}

#[test]
fn set_twice_keeps_the_later_value_once() {
    let mut store = Store::new();
    assert_eq!(
        store.apply(set("x", "y")),
        Ok(Reply::Stored { previous: None })
    );
    assert_eq!(
        store.apply(set("x", "z")),
        Ok(Reply::Stored {
            previous: Some("y".to_string())
        })
    );
    assert_eq!(store.apply(get("x")), Ok(Reply::Value("z".to_string())));
    assert_eq!(store.len(), 1);
    assert_eq!(
        store.apply(Command::List),
        Ok(Reply::Keys(vec!["x".to_string()]))
    );
}

#[test]
fn set_of_the_same_value_twice_changes_nothing() {
    let mut store = Store::new();
    store.apply(set("a", "1")).unwrap();
    store.apply(set("x", "y")).unwrap();
    let once = store.clone();
    assert_eq!(
        store.apply(set("x", "y")),
        Ok(Reply::Stored {
            previous: Some("y".to_string())
        })
    );
    assert_eq!(store, once);
    assert_eq!(store.len(), 2);
}

#[test]
fn delete_hands_the_value_back() {
    let mut store = Store::new();
    store.apply(set("a", "1")).unwrap();
    store.apply(set("b", "2")).unwrap();
    store.apply(set("c", "3")).unwrap();
    assert_eq!(store.apply(delete("b")), Ok(Reply::Removed("2".to_string())));
    assert_eq!(store.apply(get("b")), Err(not_found("b")));
    assert_eq!(store.apply(delete("b")), Err(not_found("b")));
    assert_eq!(store.apply(get("a")), Ok(Reply::Value("1".to_string())));
    assert_eq!(store.apply(get("c")), Ok(Reply::Value("3".to_string())));
    assert_eq!(store.len(), 2);
}

#[test]
fn a_failed_command_leaves_the_store_as_it_was() {
    let mut store = Store::new();
    store.apply(set("a", "1")).unwrap();
    store.apply(set("b", "2")).unwrap();
    let before = store.clone();
    assert_eq!(store.apply(get("zz")), Err(not_found("zz")));
    assert_eq!(store.apply(delete("zz")), Err(not_found("zz")));
    assert_eq!(store, before);
}

#[test]
fn list_gives_every_key_once() {
    let mut store = Store::new();
    assert_eq!(store.apply(Command::List), Ok(Reply::Keys(vec![])));
    store.apply(set("b", "2")).unwrap();
    store.apply(set("a", "1")).unwrap();
    store.apply(set("b", "3")).unwrap();
    store.apply(set("c", "4")).unwrap();
    store.apply(delete("a")).unwrap();
    match store.apply(Command::List) {
        Ok(Reply::Keys(mut keys)) => {
            keys.sort();
            assert_eq!(keys, vec!["b".to_string(), "c".to_string()]);
        }
        other => panic!("expected the keys, got {:?}", other),
    }
    assert_eq!(store.len(), 2);
}

#[test]
fn exit_changes_nothing() {
    let mut store = Store::new();
    store.apply(set("a", "1")).unwrap();
    let before = store.clone();
    assert_eq!(store.apply(Command::Exit), Ok(Reply::Exit));
    assert_eq!(store, before);
}

#[test]
fn lines_drive_the_store() {
    let mut store = Store::new();
    let lines = ["SET name aaron", "set city  Oslo", "Set name bob", "DELETE city"];
    for line in lines {
        let command = parse_command(line).unwrap();
        store.apply(command).unwrap();
    }
    assert_eq!(
        store.apply(parse_command("get name").unwrap()),
        Ok(Reply::Value("bob".to_string()))
    );
    assert_eq!(
        store.apply(parse_command("get city").unwrap()),
        Err(not_found("city"))
    );
    assert_eq!(store.len(), 1);
}

#[test]
fn stores_are_equal_whatever_the_order() {
    let mut one = Store::new();
    one.insert("a".to_string(), "1".to_string());
    one.insert("b".to_string(), "2".to_string());
    let mut other = Store::new();
    other.insert("b".to_string(), "2".to_string());
    other.insert("a".to_string(), "1".to_string());
    assert_eq!(one, other);
    assert!(one.same_as(&other));

    other.insert("a".to_string(), "9".to_string());
    assert_ne!(one, other);
    other.insert("a".to_string(), "1".to_string());
    assert_eq!(one, other);
    other.insert("c".to_string(), "3".to_string());
    assert_ne!(one, other);
    assert_ne!(other, one);
    one.insert("d".to_string(), "3".to_string());
    assert_ne!(one, other);
}

#[test]
fn insert_and_remove_hand_back_what_was_there() {
    let mut store = Store::new();
    assert_eq!(store.insert("k".to_string(), "1".to_string()), None);
    assert_eq!(
        store.insert("k".to_string(), "2".to_string()),
        Some("1".to_string())
    );
    assert_eq!(store.get("k"), Some(&"2".to_string()));
    assert_eq!(store.get("K"), None);
    assert_eq!(store.remove("K"), None);
    assert_eq!(store.remove("k"), Some("2".to_string()));
    assert_eq!(store.remove("k"), None);
    assert!(store.is_empty());
}

#[test]
fn from_pairs_lets_the_later_pair_count() {
    let store = Store::from_pairs(vec![
        ("a".to_string(), "1".to_string()),
        ("b".to_string(), "2".to_string()),
        ("a".to_string(), "3".to_string()),
    ]);
    assert_eq!(store.len(), 2);
    assert_eq!(store.get("a"), Some(&"3".to_string()));
    assert_eq!(store.get("b"), Some(&"2".to_string()));
    assert_eq!(store.keys(), vec!["a".to_string(), "b".to_string()]);
    assert_eq!(
        store.pairs(),
        &vec![
            ("a".to_string(), "3".to_string()),
            ("b".to_string(), "2".to_string())
        ]
    );
    assert!(Store::from_pairs(vec![]).is_empty());
}
