use kvstore::error::MyError;
use kvstore::store::{get_owned, Store};

#[test]
fn returns_ok_value() {
    let mut map = Store::new();
    map.insert("name".to_string(), "aaron".to_string());

    let result = get_owned(&map, "name");

    assert!(result.is_ok());
    assert_eq!(result.unwrap(), "aaron");
}

#[test]
fn returns_my_error() {
    let map = Store::new();

    let result = get_owned(&map, "nonexistent");

    assert!(result.is_err());

    match result {
        Err(MyError::NotFound { key }) => {
            assert_eq!(key, "nonexistent");
        }
        Err(other) => panic!("Expected NotFound, got {:?}", other),
        Ok(_) => panic!("Expected error, got Ok"),
    }
}

#[test]
fn get_owned_leaves_the_store_alone() {
    let mut map = Store::new();
    map.insert("a".to_string(), "1".to_string());
    map.insert("b".to_string(), "2".to_string());
    let before = map.clone();

    assert_eq!(get_owned(&map, "b"), Ok("2".to_string()));
    assert_eq!(
        get_owned(&map, "c"),
        Err(MyError::NotFound { key: "c".to_string() })
    );
    assert_eq!(map, before);
}

#[test]
fn get_owned_tells_keys_apart_by_case_and_length() {
    let mut map = Store::new();
    map.insert("key".to_string(), "lower".to_string());
    map.insert("KEY".to_string(), "upper".to_string());
    map.insert("".to_string(), "empty".to_string());

    assert_eq!(get_owned(&map, "key"), Ok("lower".to_string()));
    assert_eq!(get_owned(&map, "KEY"), Ok("upper".to_string()));
    assert_eq!(get_owned(&map, ""), Ok("empty".to_string()));
    assert_eq!(
        get_owned(&map, "ke"),
        Err(MyError::NotFound { key: "ke".to_string() })
    );
}
