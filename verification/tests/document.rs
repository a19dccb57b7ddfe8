use recipe_codegen::document::Json;

fn text(s: &str) -> Json {
    Json::Text(s.to_string())
}

fn object(members: Vec<(&str, Json)>) -> Json {
    Json::Object(members.into_iter().map(|(name, value)| (name.to_string(), value)).collect())
}

#[test]
fn finds_a_member_by_name() {
    let doc = object(vec![("a", text("1")), ("b", text("2"))]);
    assert_eq!(doc.get("b"), Some(&text("2")));
    assert_eq!(doc.get("a"), Some(&text("1")));
    assert_eq!(doc.get("c"), None);
    assert_eq!(doc.get(""), None);
}

#[test]
fn the_first_of_two_members_with_one_name_counts() {
    let doc = object(vec![("a", text("1")), ("a", text("2"))]);
    assert_eq!(doc.get("a"), Some(&text("1")));
    assert_eq!(doc.get_symbol('a'), Some(&text("1")));
}

#[test]
fn only_an_object_has_members() {
    assert_eq!(text("a").get("a"), None);
    assert_eq!(Json::Array(vec![text("a")]).get("0"), None);
    assert_eq!(Json::Null.get("a"), None);
    assert_eq!(Json::Null.get_symbol('a'), None);
}

#[test]
fn finds_a_member_by_its_one_character() {
    let key = object(vec![("AB", text("two")), ("#", text("hash")), ("\u{e9}", text("accent"))]);
    assert_eq!(key.get_symbol('#'), Some(&text("hash")));
    assert_eq!(key.get_symbol('\u{e9}'), Some(&text("accent")));
    assert_eq!(key.get_symbol('A'), None);
    assert_eq!(key.get_symbol(' '), None);
}

#[test]
fn reads_a_member_that_is_a_text() {
    let doc = object(vec![("a", text("1")), ("b", Json::Number(Some(2))), ("c", object(vec![]))]);
    assert_eq!(doc.get_text("a"), Some("1"));
    assert_eq!(doc.get_text("b"), None);
    assert_eq!(doc.get_text("c"), None);
    assert_eq!(doc.get_text("d"), None);
    assert_eq!(text("a").get_text("a"), None);
}

#[test]
fn reads_a_value_as_what_it_is() {
    assert_eq!(text("abc").as_text(), Some("abc"));
    assert_eq!(Json::Null.as_text(), None);
    assert_eq!(Json::Number(Some(3)).as_text(), None);
    assert_eq!(Json::Number(Some(3)).as_unsigned(), Some(3));
    assert_eq!(Json::Number(None).as_unsigned(), None);
    assert_eq!(text("3").as_unsigned(), None);
    assert_eq!(Json::Bool(true).as_unsigned(), None);
    assert_eq!(Json::Array(vec![Json::Null]).as_array(), Some(&vec![Json::Null]));
    assert_eq!(object(vec![]).as_array(), None);
    assert!(object(vec![]).is_object());
    assert!(!Json::Array(vec![]).is_object());
    assert!(!Json::Null.is_object());
}
