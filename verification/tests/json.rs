use kugou_tui::json::{data_of, extract_first, extract_list, Json};

fn text(value: &str) -> Json {
    Json::Text(value.to_string())
}

fn object(members: Vec<(&str, Json)>) -> Json {
    Json::Object(members.into_iter().map(|(key, value)| (key.to_string(), value)).collect())
}

#[test]
fn extract_list_prefers_named_key() {
    let root = object(vec![("data", object(vec![("info", Json::Array(vec![object(vec![("name", text("歌单A"))])])), ("noise", Json::Array(vec![object(vec![("name", text("不该被选中"))])]))]))]);
    let names: Vec<String> = extract_list(&root, &["info"], |value| {
        value.get("name")?.as_str().map(str::to_string)
    });
    assert_eq!(names, vec!["歌单A"]);
}

#[test]
fn extract_list_falls_back_to_tree_scan() {
    let root = object(vec![("data", object(vec![("unexpected_container", object(vec![("deeply", object(vec![("nested", Json::Array(vec![object(vec![("name", text("歌单B"))])]))]))]))]))]);
    let names: Vec<String> = extract_list(&root, &["info", "list"], |value| {
        value.get("name")?.as_str().map(str::to_string)
    });
    assert_eq!(names, vec!["歌单B"]);
}

#[test]
fn extract_first_handles_array_payload() {
    let root = object(vec![("data", Json::Array(vec![object(vec![("id", Json::Int(1)), ("name", text("x"))]), object(vec![("id", Json::Int(2)), ("name", text("y"))])]))]);
    let first = extract_first(&root, |value| value.get("id")?.as_i64());
    assert_eq!(first, Some(1));
}

#[test]
fn data_of_falls_back_to_root() {
    let root = object(vec![("lists", Json::Array(vec![]))]);
    assert!(data_of(&root).get("lists").is_some());
}

