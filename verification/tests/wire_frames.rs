//! The outbound wire frames on concrete values, including the escaping
//! corner cases, checked byte for byte and against serde_json's own
//! rendering of the same object.

use notedag_server::models::{KernelUpdate, RunCellUpdate};
use notedag_server::wire::{encode_cell_update, encode_kernel_update};

fn update(id: &str, name: &str, value: &str) -> RunCellUpdate {
    RunCellUpdate { id: id.to_string(), name: name.to_string(), value: value.to_string() }
}

fn frame(u: &RunCellUpdate) -> String {
    String::from_utf8(encode_cell_update(u)).unwrap()
}

#[test]
fn plain_update_frame() {
    assert_eq!(frame(&update("1", "queued", ":")), "{\"id\":\"1\",\"name\":\"queued\",\"value\":\":\"}");
}

#[test]
fn output_update_frame_escapes_newline() {
    assert_eq!(
        frame(&update("1", "output", "2\n")),
        "{\"id\":\"1\",\"name\":\"output\",\"value\":\"2\\n\"}"
    );
}

#[test]
fn escaping_corner_cases() {
    assert_eq!(
        frame(&update("a\"b", "x\\y", "tab\there")),
        "{\"id\":\"a\\\"b\",\"name\":\"x\\\\y\",\"value\":\"tab\\there\"}"
    );
    assert_eq!(
        frame(&update("c", "n", "\r\u{8}\u{c}\u{1}\u{1f}")),
        "{\"id\":\"c\",\"name\":\"n\",\"value\":\"\\r\\b\\f\\u0001\\u001f\"}"
    );
}

#[test]
fn multibyte_text_passes_through() {
    assert_eq!(
        frame(&update("1", "output", "héllo ✓")),
        "{\"id\":\"1\",\"name\":\"output\",\"value\":\"héllo ✓\"}"
    );
}

#[test]
fn status_frame() {
    let k = KernelUpdate { status: "ready".to_string() };
    assert_eq!(String::from_utf8(encode_kernel_update(&k)).unwrap(), "{\"status\":\"ready\"}");
}

#[test]
fn frames_agree_with_serde_json() {
    let cases = [
        ("1", "queued", ":"),
        ("c\"1", "out\\put", "line one\nline two\ttab\r"),
        ("", "", ""),
        ("héllo", "✓", "mixed \u{1} and ü"),
    ];
    for (id, name, value) in cases {
        let mut m = serde_json::Map::new();
        m.insert("id".to_string(), serde_json::Value::String(id.to_string()));
        m.insert("name".to_string(), serde_json::Value::String(name.to_string()));
        m.insert("value".to_string(), serde_json::Value::String(value.to_string()));
        let expected = serde_json::to_string(&serde_json::Value::Object(m)).unwrap();
        assert_eq!(frame(&update(id, name, value)), expected);
    }
}
