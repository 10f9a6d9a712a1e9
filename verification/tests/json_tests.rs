use fabric_atelier::json::{Json, JsonNumber};

fn object(members: Vec<(&str, Json)>) -> Json {
    Json::Object(members.into_iter().map(|(k, v)| (k.to_string(), v)).collect())
}

#[test]
fn get_finds_members_of_objects_only() {
    let v = object(vec![("a", Json::integer(1)), ("b", Json::string("x"))]);
    assert_eq!(v.get("a"), Some(&Json::integer(1)));
    assert_eq!(v.get("b"), Some(&Json::string("x")));
    assert_eq!(v.get("c"), None);
    assert_eq!(Json::Array(vec![Json::Null]).get("a"), None);
    assert_eq!(Json::string("a").get("a"), None);
    assert_eq!(Json::Null.get(""), None);
}

#[test]
fn last_member_of_a_key_counts() {
    let v = object(vec![("a", Json::integer(1)), ("b", Json::Null), ("a", Json::integer(2))]);
    assert_eq!(v.get("a"), Some(&Json::integer(2)));
}

#[test]
fn as_str_is_for_strings_only() {
    assert_eq!(Json::string("some string").as_str(), Some("some string"));
    assert_eq!(Json::Bool(false).as_str(), None);
    assert_eq!(Json::integer(3).as_str(), None);
    assert_eq!(Json::Null.as_str(), None);
}

#[test]
fn as_i32_is_for_integers_in_range() {
    assert_eq!(Json::integer(-32603).as_i32(), Some(-32603));
    assert_eq!(Json::integer(2147483647).as_i32(), Some(2147483647));
    assert_eq!(Json::integer(-2147483648).as_i32(), Some(-2147483648));
    assert_eq!(Json::integer(2147483648).as_i32(), None);
    assert_eq!(Json::integer(-2147483649).as_i32(), None);
    assert_eq!(Json::Number(JsonNumber::Float(1.5f64.to_bits())).as_i32(), None);
    assert_eq!(Json::string("1").as_i32(), None);
}

#[test]
fn integer_picks_the_sign() {
    assert_eq!(Json::integer(5), Json::Number(JsonNumber::PosInt(5)));
    assert_eq!(Json::integer(0), Json::Number(JsonNumber::PosInt(0)));
    assert_eq!(Json::integer(-5), Json::Number(JsonNumber::NegInt(-5)));
}

#[test]
fn builders() {
    assert_eq!(Json::empty_object(), Json::Object(vec![]));
    assert!(Json::empty_object().is_object());
    assert!(!Json::Null.is_object());
    assert_eq!(Json::array(vec![Json::Null]), Json::Array(vec![Json::Null]));
    assert_eq!(
        Json::object(vec![("k".to_string(), Json::Null)]),
        Json::Object(vec![("k".to_string(), Json::Null)])
    );
}

#[test]
fn clone_copies_the_whole_tree() {
    let v = object(vec![
        ("list", Json::Array(vec![Json::integer(1), object(vec![("deep", Json::Bool(true))])])),
        ("text", Json::string("t")),
        ("float", Json::Number(JsonNumber::Float(2.5f64.to_bits()))),
    ]);
    assert_eq!(v.clone(), v);
    assert_eq!(v.deep_clone(), v);
}
