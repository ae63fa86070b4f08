use hirai::event::{frame_event_object, frame_event_text, Event};

fn ev(path: &str, op: &str) -> Event {
    Event { path: path.to_string(), op: op.to_string() }
}

#[test]
fn json_bytes_of_a_plain_event() {
    let e = ev("/tmp/a.txt", "CREATE");
    assert_eq!(e.to_json_bytes(), br#"{"path":"/tmp/a.txt","op":"CREATE"}"#.to_vec());
}

#[test]
fn json_bytes_escape_quotes_and_backslashes() {
    let e = ev("a\"b\\c\n", "WRITE");
    assert_eq!(
        String::from_utf8(e.to_json_bytes()).unwrap(),
        "{\"path\":\"a\\\"b\\\\c\\n\",\"op\":\"WRITE\"}"
    );
}

#[test]
fn json_text_of_a_unicode_path() {
    let e = ev("/tmp/黑风.txt", "REMOVE");
    let t = e.to_json_text();
    assert_eq!(t, "{\"path\":\"/tmp/黑风.txt\",\"op\":\"REMOVE\"}");
    assert_eq!(t.as_bytes(), e.to_json_bytes().as_slice());
}

#[test]
fn json_escapes_control_characters() {
    let e = ev("\u{1}\u{8}\t\u{b}\u{c}\r\u{1f}\u{7f}/", "CREATE");
    assert_eq!(
        String::from_utf8(e.to_json_bytes()).unwrap(),
        "{\"path\":\"\\u0001\\b\\t\\u000b\\f\\r\\u001f\u{7f}/\",\"op\":\"CREATE\"}"
    );
}

#[test]
fn json_bytes_decode_back_to_the_event() {
    for (path, op) in [("/tmp/a \"b\"", "WRITE"), ("\\x\n\u{2}", "REMOVE"), ("/tmp/黑风.txt", "RENAME")] {
        let bytes = ev(path, op).to_json_bytes();
        let v: serde_json::Value = serde_json::from_slice(&bytes).unwrap();
        let obj = v.as_object().unwrap();
        assert_eq!(obj.len(), 2);
        assert_eq!(obj.get("path").and_then(|p| p.as_str()), Some(path));
        assert_eq!(obj.get("op").and_then(|p| p.as_str()), Some(op));
        let text = ev(path, op).to_json_text();
        assert_eq!(text.as_bytes(), bytes.as_slice());
    }
}

#[test]
fn framing_wraps_encoded_members() {
    let b = frame_event_object(&b"\"x\"".to_vec(), &b"\"y\"".to_vec());
    assert_eq!(b, br#"{"path":"x","op":"y"}"#.to_vec());
    let t = frame_event_text("\"x\"", "\"y\"");
    assert_eq!(t, r#"{"path":"x","op":"y"}"#);
}

#[test]
fn clone_keeps_fields() {
    let e = ev("/p", "RENAME");
    let c = e.clone();
    assert_eq!(c.path, "/p");
    assert_eq!(c.op, "RENAME");
}
