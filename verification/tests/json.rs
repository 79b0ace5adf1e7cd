use text_review::json::Json;

fn sample() -> Json {
    Json::Object(vec![
        ("name".to_string(), Json::String("first".to_string())),
        ("items".to_string(), Json::Array(vec![Json::Null, Json::Bool(true)])),
        ("name".to_string(), Json::String("second".to_string())),
        ("".to_string(), Json::Number("0".to_string())),
    ])
}

#[test]
fn get_finds_the_first_member_under_the_key() {
    let value = sample();
    assert_eq!(value.get("name"), Some(&Json::String("first".to_string())));
    assert_eq!(value.get("items"), Some(&Json::Array(vec![Json::Null, Json::Bool(true)])));
    assert_eq!(value.get(""), Some(&Json::Number("0".to_string())));
}

#[test]
fn get_finds_nothing_under_an_absent_key() {
    let value = sample();
    assert_eq!(value.get("Name"), None);
    assert_eq!(value.get("nam"), None);
    assert_eq!(value.get("names"), None);
    assert_eq!(Json::Object(vec![]).get("name"), None);
}

#[test]
fn get_finds_nothing_in_what_is_no_object() {
    assert_eq!(Json::Null.get("name"), None);
    assert_eq!(Json::Bool(true).get("name"), None);
    assert_eq!(Json::Number("1".to_string()).get("name"), None);
    assert_eq!(Json::String("name".to_string()).get("name"), None);
    assert_eq!(Json::Array(vec![sample()]).get("name"), None);
}

#[test]
fn as_array_gives_the_items_of_an_array_alone() {
    let items = vec![Json::Null, Json::String("a".to_string())];
    assert_eq!(Json::Array(vec![]).as_array(), Some(&vec![]));
    assert_eq!(
        Json::Array(vec![Json::Null, Json::String("a".to_string())]).as_array(),
        Some(&items)
    );
    assert_eq!(sample().as_array(), None);
    assert_eq!(Json::Null.as_array(), None);
    assert_eq!(Json::String("[]".to_string()).as_array(), None);
}

#[test]
fn as_str_gives_the_text_of_a_string_alone() {
    assert_eq!(Json::String(" a b ".to_string()).as_str(), Some(" a b "));
    assert_eq!(Json::String(String::new()).as_str(), Some(""));
    assert_eq!(Json::Number("1".to_string()).as_str(), None);
    assert_eq!(Json::Null.as_str(), None);
    assert_eq!(Json::Array(vec![Json::String("a".to_string())]).as_str(), None);
}
