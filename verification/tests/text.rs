use elevation_manager::text::{
    path_with_id, path_with_ids, prefixed, query_string, same_text, KeyValue,
};

fn param(key: &str, value: &str) -> KeyValue {
    KeyValue { key: key.to_string(), value: value.to_string() }
}

#[test]
fn texts_compare_by_characters() {
    assert!(same_text("", ""));
    assert!(same_text("TeamJoin", "TeamJoin"));
    assert!(!same_text("TeamJoin", "teamjoin"));
    assert!(!same_text("a", "ab"));
}

#[test]
fn prefix_and_paths() {
    assert_eq!(prefixed("Request failed: ", "x"), "Request failed: x");
    assert_eq!(path_with_id("/teams/", 5, "/users"), "/teams/5/users");
    assert_eq!(path_with_id("/users/", -12, ""), "/users/-12");
    assert_eq!(path_with_id("/n/", i64::MAX, "/"), "/n/9223372036854775807/");
    assert_eq!(path_with_id("/n/", i64::MIN, ""), "/n/-9223372036854775808");
    assert_eq!(path_with_id("/n/", 0, ""), "/n/0");
    assert_eq!(path_with_id("/n/", 1000, ""), "/n/1000");
    assert_eq!(path_with_ids("/teams/", 5, "/users/", 9), "/teams/5/users/9");
}

#[test]
fn query_strings() {
    assert_eq!(query_string(&Vec::new()), "");
    assert_eq!(query_string(&vec![param("a", "1")]), "?a=1");
    assert_eq!(query_string(&vec![param("a", "1"), param("b", "")]), "?a=1&b=");
    assert_eq!(
        query_string(&vec![param("a", "1"), param("b", "2"), param("c", "x y")]),
        "?a=1&b=2&c=x y"
    );
}
