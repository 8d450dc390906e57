use json_editor::{Document, EditorError, JsonEditor, StoreRead};
use serde_json::Value;

type Fields = serde_json::Map<String, Value>;

fn object(pairs: &[(&str, Value)]) -> Fields {
    let mut m = Fields::new();
    for (k, v) in pairs {
        m.insert(k.to_string(), v.clone());
    }
    m
}

fn fields(d: &Document) -> Fields {
    match d {
        Document::Object(m) => m.clone(),
        Document::Other(v) => panic!("not an object: {:?}", v),
    }
}

fn text(s: &str) -> StoreRead {
    StoreRead::Text(s.to_string())
}

fn parsed(s: &str) -> Value {
    serde_json::from_str(s).unwrap()
}

#[test]
fn new_editor_is_empty_object() {
    let ed = JsonEditor::new("doc.json");
    assert_eq!(ed.path(), "doc.json");
    assert_eq!(fields(ed.document()), Fields::new());
    assert_eq!(ed.get_value("x"), None);
}

#[test]
fn add_absent_key_then_get() {
    let mut ed = JsonEditor::new("doc.json");
    assert_eq!(ed.add_key("name", Value::from("alice")), Ok(()));
    assert_eq!(ed.get_value("name"), Some(&Value::from("alice")));
}

#[test]
fn add_present_key_fails_and_keeps_document() {
    let mut ed = JsonEditor::new("doc.json");
    ed.add_key("a", Value::from(1)).unwrap();
    assert_eq!(ed.add_key("a", Value::from(2)), Err(EditorError::KeyAlreadyExists));
    assert_eq!(ed.get_value("a"), Some(&Value::from(1)));
    assert_eq!(fields(ed.document()), object(&[("a", Value::from(1))]));
}

#[test]
fn add_null_value_counts_as_present() {
    let mut ed = JsonEditor::new("doc.json");
    ed.add_key("n", Value::Null).unwrap();
    assert_eq!(ed.get_value("n"), Some(&Value::Null));
    assert_eq!(ed.add_key("n", Value::from(true)), Err(EditorError::KeyAlreadyExists));
}

#[test]
fn update_sets_present_and_absent_keys() {
    let mut ed = JsonEditor::new("doc.json");
    ed.update_key("k", Value::from(1));
    assert_eq!(ed.get_value("k"), Some(&Value::from(1)));
    ed.update_key("k", Value::from("two"));
    assert_eq!(ed.get_value("k"), Some(&Value::from("two")));
}

#[test]
fn update_resets_non_object_root() {
    let mut ed = JsonEditor::open_from_file("doc.json", text("[1, 2, 3]")).unwrap();
    assert!(matches!(ed.document(), Document::Other(_)));
    assert_eq!(ed.get_value("x"), None);
    ed.update_key("x", Value::from(5));
    assert_eq!(fields(ed.document()), object(&[("x", Value::from(5))]));
}

#[test]
fn add_on_non_object_root_resets_it() {
    let mut ed = JsonEditor::open_from_file("doc.json", text("42")).unwrap();
    assert_eq!(ed.add_key("x", Value::from(1)), Ok(()));
    assert_eq!(fields(ed.document()), object(&[("x", Value::from(1))]));
}

#[test]
fn remove_absent_key_fails() {
    let mut ed = JsonEditor::new("doc.json");
    ed.update_key("a", Value::from(1));
    assert_eq!(ed.remove_key("b"), Err(EditorError::KeyNotFound));
    assert_eq!(fields(ed.document()), object(&[("a", Value::from(1))]));
}

#[test]
fn remove_on_non_object_root_fails() {
    let mut ed = JsonEditor::open_from_file("doc.json", text("\"s\"")).unwrap();
    assert_eq!(ed.remove_key("s"), Err(EditorError::KeyNotFound));
}

#[test]
fn remove_present_key_gives_compact_text_of_rest() {
    let mut ed = JsonEditor::new("doc.json");
    ed.update_key("a", Value::from(1));
    ed.update_key("b", Value::from(2));
    let out = ed.remove_key("a").unwrap();
    assert_eq!(ed.get_value("a"), None);
    assert_eq!(out, "{\"b\":2}");
    assert_eq!(parsed(&out), Value::Object(object(&[("b", Value::from(2))])));
}

#[test]
fn open_missing_is_not_found() {
    let r = JsonEditor::open_from_file("doc.json", StoreRead::Missing);
    assert_eq!(r.err(), Some(EditorError::NotFound));
}

#[test]
fn open_unreadable_is_invalid_data() {
    let r = JsonEditor::open_from_file("doc.json", StoreRead::Unreadable);
    assert_eq!(r.err(), Some(EditorError::InvalidData));
}

#[test]
fn open_malformed_is_invalid_data() {
    let r = JsonEditor::open_from_file("doc.json", text("{\"a\": "));
    assert_eq!(r.err(), Some(EditorError::InvalidData));
}

#[test]
fn open_reads_fields() {
    let ed = JsonEditor::open_from_file("doc.json", text("{\"a\": 1, \"b\": [true, null]}")).unwrap();
    assert_eq!(ed.path(), "doc.json");
    assert_eq!(ed.get_value("a"), Some(&Value::from(1)));
    assert_eq!(ed.get_value("b"), Some(&parsed("[true, null]")));
}

#[test]
fn open_file_replaces_document() {
    let mut ed = JsonEditor::new("doc.json");
    ed.update_key("old", Value::from(0));
    assert_eq!(ed.open_file(text("{\"new\": 1}")), Ok(()));
    assert_eq!(fields(ed.document()), object(&[("new", Value::from(1))]));
}

#[test]
fn open_file_failure_keeps_document() {
    let mut ed = JsonEditor::new("doc.json");
    ed.update_key("old", Value::from(0));
    assert_eq!(ed.open_file(text("not json")), Err(EditorError::InvalidData));
    assert_eq!(ed.open_file(StoreRead::Missing), Err(EditorError::NotFound));
    assert_eq!(fields(ed.document()), object(&[("old", Value::from(0))]));
}

#[test]
fn read_file_leaves_memory_alone() {
    let mut ed = JsonEditor::new("doc.json");
    ed.update_key("m", Value::from(1));
    let d = ed.read_file(text("{\"d\": 2}")).unwrap();
    assert_eq!(fields(&d), object(&[("d", Value::from(2))]));
    assert_eq!(fields(ed.document()), object(&[("m", Value::from(1))]));
    assert_eq!(ed.read_file(StoreRead::Missing).err(), Some(EditorError::NotFound));
    assert_eq!(ed.read_file(text("{")).err(), Some(EditorError::InvalidData));
}

#[test]
fn save_new_then_open_round_trips() {
    let mut ed = JsonEditor::new("doc.json");
    ed.update_key("a", Value::from(1));
    ed.update_key("s", Value::from("text"));
    ed.update_key("l", parsed("[1, {\"x\": null}]"));
    let out = ed.save_to_file_new();
    let back = JsonEditor::open_from_file("doc.json", StoreRead::Text(out)).unwrap();
    assert_eq!(fields(back.document()), fields(ed.document()));
}

#[test]
fn save_new_is_pretty() {
    let mut ed = JsonEditor::new("doc.json");
    ed.update_key("a", Value::from(1));
    assert_eq!(ed.save_to_file_new(), "{\n  \"a\": 1\n}");
}

#[test]
fn merge_law_on_example() {
    let mut ed = JsonEditor::new("doc.json");
    ed.update_key("b", Value::from(3));
    ed.update_key("c", Value::from(4));
    let out = ed.save_to_file(text("{\"a\": 1, \"b\": 2}")).unwrap();
    assert_eq!(parsed(&out), parsed("{\"a\": 1, \"b\": 3, \"c\": 4}"));
    assert_eq!(out, "{\n  \"a\": 1,\n  \"b\": 3,\n  \"c\": 4\n}");
}

#[test]
fn merge_into_missing_equals_overwrite() {
    let mut ed = JsonEditor::new("doc.json");
    ed.update_key("b", Value::from(3));
    assert_eq!(ed.save_to_file(StoreRead::Missing), Ok(ed.save_to_file_new()));
}

#[test]
fn merge_into_unparsable_is_invalid_data() {
    let mut ed = JsonEditor::new("doc.json");
    ed.update_key("b", Value::from(3));
    assert_eq!(ed.save_to_file(text("{ broken")), Err(EditorError::InvalidData));
    assert_eq!(ed.save_to_file(StoreRead::Unreadable), Err(EditorError::InvalidData));
}

#[test]
fn merge_into_non_object_is_invalid_data() {
    let mut ed = JsonEditor::new("doc.json");
    ed.update_key("b", Value::from(3));
    assert_eq!(ed.save_to_file(text("[1, 2]")), Err(EditorError::InvalidData));
}

#[test]
fn merge_twice_gives_same_result() {
    let mut ed = JsonEditor::new("doc.json");
    ed.update_key("b", Value::from(3));
    ed.update_key("c", parsed("{\"deep\": [1, 2]}"));
    let first = ed.save_to_file(text("{\"a\": 1, \"b\": 2}")).unwrap();
    let second = ed.save_to_file(StoreRead::Text(first.clone())).unwrap();
    assert_eq!(first, second);
}

#[test]
fn merge_with_non_object_memory_keeps_disk() {
    let ed = JsonEditor::open_from_file("doc.json", text("7")).unwrap();
    let out = ed.save_to_file(text("{\"a\": 1}")).unwrap();
    assert_eq!(parsed(&out), parsed("{\"a\": 1}"));
}

#[test]
fn construct_update_get_scenario() {
    let mut ed = JsonEditor::new("doc.json");
    ed.update_key("x", Value::from(1));
    assert_eq!(ed.get_value("x"), Some(&Value::from(1)));
    assert_eq!(ed.get_value("y"), None);
}
