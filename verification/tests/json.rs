use pillow_installer::json::{
    find_member, make_text_array, read_string_list, remove_member, replace_value_at, set_member, Json,
    Number,
};

fn text(s: &str) -> Json {
    Json::Text(s.to_string())
}

fn members(list: Vec<(&str, Json)>) -> Vec<(String, Json)> {
    list.into_iter().map(|(k, v)| (k.to_string(), v)).collect()
}

#[test]
fn find_gives_the_first_of_a_name() {
    let m = members(vec![("a", Json::Null), ("b", text("1")), ("b", text("2"))]);
    assert_eq!(find_member(&m, "a"), 0);
    assert_eq!(find_member(&m, "b"), 1);
    assert_eq!(find_member(&m, "c"), 3);
    assert_eq!(find_member(&vec![], "a"), 0);
}

#[test]
fn set_replaces_in_place_or_adds_at_the_end() {
    let mut m = members(vec![("a", Json::Null), ("b", text("1")), ("c", Json::Bool(true))]);
    set_member(&mut m, "b", text("2"));
    assert_eq!(m, members(vec![("a", Json::Null), ("b", text("2")), ("c", Json::Bool(true))]));
    set_member(&mut m, "d", Json::Number(Number::NegInt(-1)));
    assert_eq!(
        m,
        members(vec![
            ("a", Json::Null),
            ("b", text("2")),
            ("c", Json::Bool(true)),
            ("d", Json::Number(Number::NegInt(-1)))
        ])
    );
}

#[test]
fn remove_takes_every_member_of_the_name() {
    let mut m = members(vec![("a", Json::Null), ("b", text("1")), ("a", text("2")), ("a", text("3"))]);
    remove_member(&mut m, "a");
    assert_eq!(m, members(vec![("b", text("1"))]));
    remove_member(&mut m, "a");
    assert_eq!(m, members(vec![("b", text("1"))]));
    remove_member(&mut m, "b");
    assert_eq!(m, members(vec![]));
}

#[test]
fn replace_hands_out_the_former_value() {
    let mut m = members(vec![("a", Json::Null), ("b", text("1"))]);
    assert_eq!(replace_value_at(&mut m, 1, Json::Bool(false)), text("1"));
    assert_eq!(m, members(vec![("a", Json::Null), ("b", Json::Bool(false))]));
}

#[test]
fn string_lists() {
    let list = Json::Array(vec![text("a"), text(""), text("b")]);
    assert_eq!(read_string_list(&list), Some(vec!["a".to_string(), "".to_string(), "b".to_string()]));
    assert_eq!(read_string_list(&Json::Array(vec![])), Some(vec![]));
    assert_eq!(read_string_list(&Json::Array(vec![text("a"), Json::Null])), None);
    assert_eq!(read_string_list(&text("a")), None);
    assert_eq!(make_text_array(vec!["a".to_string(), "".to_string(), "b".to_string()]), list);
}
