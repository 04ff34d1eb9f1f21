use clip_bridge::content::{is_text_mime, ClipboardContent, ClipboardType, MimeMap};

fn png() -> Vec<u8> {
    vec![0x89, 0x50, 0x4e, 0x47]
}

#[test]
fn new_binary_is_empty_binary() {
    let c = ClipboardContent::new_binary();
    assert!(c.has_binary());
    assert!(c.mime_types().is_empty());
    assert_eq!(c.get_mime("image/png"), None);
    assert_eq!(c.get_text(), None);
}

#[test]
fn add_mime_then_get_mime() {
    let mut c = ClipboardContent::new_binary();
    c.add_mime("image/png".to_string(), png());
    assert_eq!(c.get_mime("image/png"), Some(&png()));
    assert_eq!(c.get_mime("image/bmp"), None);
    assert_eq!(c.mime_types(), vec!["image/png".to_string()]);
}

#[test]
fn add_mime_replaces_equal_key() {
    let mut c = ClipboardContent::new_binary();
    c.add_mime("image/png".to_string(), vec![1]);
    c.add_mime("image/png".to_string(), vec![2, 3]);
    assert_eq!(c.get_mime("image/png"), Some(&vec![2, 3]));
    assert_eq!(c.mime_types().len(), 1);
}

#[test]
fn mime_keys_are_case_sensitive() {
    let mut c = ClipboardContent::new_binary();
    c.add_mime("image/png".to_string(), vec![1]);
    assert_eq!(c.get_mime("IMAGE/PNG"), None);
    c.add_mime("IMAGE/PNG".to_string(), vec![2]);
    assert_eq!(c.mime_types().len(), 2);
}

#[test]
fn add_mime_ignored_on_text_and_empty() {
    let mut t = ClipboardContent::Text("hi".to_string());
    t.add_mime("image/png".to_string(), png());
    assert_eq!(t, ClipboardContent::Text("hi".to_string()));
    let mut e = ClipboardContent::Empty;
    e.add_mime("image/png".to_string(), png());
    assert_eq!(e, ClipboardContent::Empty);
}

#[test]
fn queries_on_text_and_empty() {
    let t = ClipboardContent::Text("hello".to_string());
    assert_eq!(t.get_text(), Some(&"hello".to_string()));
    assert!(!t.has_binary());
    assert!(t.mime_types().is_empty());
    assert_eq!(t.get_mime("text/plain"), None);
    let e = ClipboardContent::Empty;
    assert_eq!(e.get_text(), None);
    assert!(!e.has_binary());
    assert!(e.mime_types().is_empty());
}

#[test]
fn equality_ignores_insertion_order() {
    let mut a = ClipboardContent::new_binary();
    a.add_mime("image/png".to_string(), png());
    a.add_mime("image/bmp".to_string(), vec![0x42, 0x4d]);
    let mut b = ClipboardContent::new_binary();
    b.add_mime("image/bmp".to_string(), vec![0x42, 0x4d]);
    b.add_mime("image/png".to_string(), png());
    assert_eq!(a, b);
    let mut c = ClipboardContent::new_binary();
    c.add_mime("image/bmp".to_string(), vec![0x42, 0x4e]);
    c.add_mime("image/png".to_string(), png());
    assert_ne!(a, c);
    let mut d = ClipboardContent::new_binary();
    d.add_mime("image/png".to_string(), png());
    assert_ne!(a, d);
}

#[test]
fn equality_across_variants() {
    assert_eq!(ClipboardContent::Empty, ClipboardContent::Empty);
    assert_ne!(ClipboardContent::Text(String::new()), ClipboardContent::Empty);
    assert_ne!(ClipboardContent::Text("a".to_string()), ClipboardContent::Text("b".to_string()));
    assert_ne!(ClipboardContent::new_binary(), ClipboardContent::Empty);
}

#[test]
fn clone_keeps_content() {
    let mut a = ClipboardContent::new_binary();
    a.add_mime("image/png".to_string(), png());
    assert_eq!(a.clone(), a);
    let t = ClipboardContent::Text("héllo".to_string());
    assert_eq!(t.clone(), t);
}

#[test]
fn text_mime_detection() {
    assert!(is_text_mime("text/plain"));
    assert!(is_text_mime("text/html"));
    assert!(is_text_mime("text/"));
    assert!(is_text_mime("UTF8_STRING"));
    assert!(is_text_mime("STRING"));
    assert!(is_text_mime("TEXT"));
    assert!(!is_text_mime("image/png"));
    assert!(!is_text_mime("Text/plain"));
    assert!(!is_text_mime("text"));
    assert!(!is_text_mime(""));
    assert!(!is_text_mime("utf8_string"));
}

#[test]
fn as_text_of_each_variant() {
    assert_eq!(ClipboardContent::Text("x".to_string()).as_text(), Some("x".to_string()));
    assert_eq!(ClipboardContent::Empty.as_text(), None);
    let mut b = ClipboardContent::new_binary();
    b.add_mime("image/png".to_string(), png());
    assert_eq!(b.as_text(), None);
    b.add_mime("text/plain".to_string(), b"plain".to_vec());
    assert_eq!(b.as_text(), Some("plain".to_string()));
    b.add_mime("text/plain;charset=utf-8".to_string(), "h\u{e9}".as_bytes().to_vec());
    assert_eq!(b.as_text(), Some("h\u{e9}".to_string()));
}

#[test]
fn as_text_skips_invalid_utf8() {
    let mut b = ClipboardContent::new_binary();
    b.add_mime("text/plain;charset=utf-8".to_string(), vec![0xff, 0xfe]);
    assert_eq!(b.as_text(), None);
    b.add_mime("UTF8_STRING".to_string(), b"ok".to_vec());
    assert_eq!(b.as_text(), Some("ok".to_string()));
}

#[test]
fn mime_map_basics() {
    let mut m = MimeMap::new();
    assert!(m.is_empty());
    m.insert("a/b".to_string(), vec![1]);
    assert_eq!(m.len(), 1);
    assert!(!m.is_empty());
    assert_eq!(m.get("a/b"), Some(&vec![1]));
    let d = m.duplicate();
    assert!(d.equals(&m));
    assert_eq!(d.keys(), vec!["a/b".to_string()]);
}

#[test]
fn text_bytes_are_utf8() {
    let t = ClipboardContent::Text("h\u{e9}llo".to_string());
    assert_eq!(t.text_bytes(), Some(vec![0x68, 0xc3, 0xa9, 0x6c, 0x6c, 0x6f]));
    assert_eq!(ClipboardContent::Empty.text_bytes(), None);
}

#[test]
fn clipboard_types_differ() {
    assert_ne!(ClipboardType::Clipboard, ClipboardType::Primary);
}
