use clip_bridge::content::{ClipboardContent, ClipboardType};
use clip_bridge::wayland::{
    content_after_timeout, content_from_probes, global_binding, probe_mimes, GlobalKind, OfferDecision, SourceAction,
    WaylandState,
};

fn ready_state() -> WaylandState {
    let mut w = WaylandState::new(false);
    assert!(!w.note_bound(GlobalKind::Seat));
    assert!(w.note_bound(GlobalKind::DataControlManager));
    w
}

fn describe(actions: &[SourceAction]) -> Vec<String> {
    actions
        .iter()
        .map(|a| match a {
            SourceAction::Create { source } => format!("create {}", source),
            SourceAction::Offer { source, mime } => format!("offer {} {}", source, mime),
            SourceAction::Select { kind, selected } => format!("select {:?} {:?}", kind, selected),
            SourceAction::Destroy { source } => format!("destroy {}", source),
        })
        .collect()
}

#[test]
fn global_bindings_and_versions() {
    assert_eq!(global_binding("wl_compositor"), Some((GlobalKind::Compositor, 4)));
    assert_eq!(global_binding("wl_seat"), Some((GlobalKind::Seat, 7)));
    assert_eq!(
        global_binding("zwlr_data_control_manager_v1"),
        Some((GlobalKind::DataControlManager, 2))
    );
    assert_eq!(
        global_binding("zwp_primary_selection_device_manager_v1"),
        Some((GlobalKind::PrimarySelectionManager, 1))
    );
    assert_eq!(global_binding("wl_shm"), None);
}

#[test]
fn device_is_created_once() {
    let mut w = WaylandState::new(false);
    assert!(!w.note_bound(GlobalKind::DataControlManager));
    assert!(!w.note_bound(GlobalKind::Compositor));
    assert!(w.note_bound(GlobalKind::Seat));
    assert!(!w.note_bound(GlobalKind::Seat));
}

#[test]
fn assert_before_device_does_nothing() {
    let mut w = WaylandState::new(false);
    let actions = w.set_clipboard_content(ClipboardContent::Text("x".to_string()), ClipboardType::Clipboard);
    assert!(actions.is_empty());
    assert_eq!(w.snapshot(ClipboardType::Clipboard), None);
}

#[test]
fn text_assert_creates_offers_and_selects() {
    let mut w = ready_state();
    let actions = w.set_clipboard_content(ClipboardContent::Text("hello".to_string()), ClipboardType::Clipboard);
    assert_eq!(
        describe(&actions),
        vec![
            "create 0",
            "offer 0 text/plain;charset=utf-8",
            "offer 0 text/plain",
            "offer 0 UTF8_STRING",
            "offer 0 TEXT",
            "offer 0 STRING",
            "select Clipboard Some(0)",
        ]
    );
    assert_eq!(w.source(ClipboardType::Clipboard), Some(0));
    assert_eq!(w.on_send(0, "text/plain;charset=utf-8"), Some(vec![0x68, 0x65, 0x6c, 0x6c, 0x6f]));
    assert_eq!(w.on_send(0, "STRING"), Some(b"hello".to_vec()));
}

#[test]
fn replacement_selects_new_before_destroying_old() {
    let mut w = ready_state();
    w.set_clipboard_content(ClipboardContent::Text("a".to_string()), ClipboardType::Clipboard);
    let actions = w.set_clipboard_content(ClipboardContent::Text("b".to_string()), ClipboardType::Clipboard);
    let d = describe(&actions);
    assert_eq!(d.first().unwrap(), "create 1");
    let select = d.iter().position(|s| s == "select Clipboard Some(1)").unwrap();
    let destroy = d.iter().position(|s| s == "destroy 0").unwrap();
    assert!(select < destroy);
    assert_eq!(destroy, d.len() - 1);
    assert_eq!(w.on_send(0, "text/plain"), None);
    assert_eq!(w.on_send(1, "text/plain"), Some(b"b".to_vec()));
}

#[test]
fn binary_assert_serves_exact_bytes() {
    let mut w = ready_state();
    let png = vec![0x89, 0x50, 0x4e, 0x47, 0x0d, 0x0a];
    let mut b = ClipboardContent::new_binary();
    b.add_mime("image/png".to_string(), png.clone());
    let actions = w.set_clipboard_content(b, ClipboardType::Clipboard);
    assert_eq!(describe(&actions), vec!["create 0", "offer 0 image/png", "select Clipboard Some(0)"]);
    assert_eq!(w.on_send(0, "image/png"), Some(png));
    assert_eq!(w.on_send(0, "image/bmp"), None);
    assert_eq!(w.on_send(5, "image/png"), None);
}

#[test]
fn empty_assert_clears_selection() {
    let mut w = ready_state();
    w.set_clipboard_content(ClipboardContent::Text("a".to_string()), ClipboardType::Primary);
    let actions = w.set_clipboard_content(ClipboardContent::Empty, ClipboardType::Primary);
    assert_eq!(describe(&actions), vec!["select Primary None", "destroy 0"]);
    assert_eq!(w.source(ClipboardType::Primary), None);
    assert_eq!(w.snapshot(ClipboardType::Primary), None);
    assert_eq!(w.on_send(0, "text/plain"), None);
}

#[test]
fn wayland_kinds_are_independent() {
    let mut w = ready_state();
    w.set_clipboard_content(ClipboardContent::Text("c".to_string()), ClipboardType::Clipboard);
    w.set_clipboard_content(ClipboardContent::Text("p".to_string()), ClipboardType::Primary);
    assert_eq!(w.on_send(0, "text/plain"), Some(b"c".to_vec()));
    assert_eq!(w.on_send(1, "text/plain"), Some(b"p".to_vec()));
    w.set_clipboard_content(ClipboardContent::Empty, ClipboardType::Clipboard);
    assert_eq!(w.on_send(1, "text/plain"), Some(b"p".to_vec()));
}

#[test]
fn cancelled_source_is_forgotten() {
    let mut w = ready_state();
    w.set_clipboard_content(ClipboardContent::Text("c".to_string()), ClipboardType::Clipboard);
    w.on_cancelled(42);
    assert_eq!(w.source(ClipboardType::Clipboard), Some(0));
    w.on_cancelled(0);
    assert_eq!(w.source(ClipboardType::Clipboard), None);
    assert_eq!(w.snapshot(ClipboardType::Clipboard), None);
    assert_eq!(w.on_send(0, "text/plain"), None);
}

#[test]
fn selection_decisions() {
    let w = WaylandState::new(false);
    assert_eq!(w.on_selection(ClipboardType::Clipboard, false), OfferDecision::ReportEmpty);
    assert_eq!(w.on_selection(ClipboardType::Clipboard, true), OfferDecision::Probe);
    assert_eq!(w.on_selection(ClipboardType::Primary, true), OfferDecision::Ignore);
    let p = WaylandState::new(true);
    assert!(p.observes_primary());
    assert_eq!(p.on_selection(ClipboardType::Primary, true), OfferDecision::Probe);
    assert_eq!(p.on_selection(ClipboardType::Primary, false), OfferDecision::ReportEmpty);
}

#[test]
fn probe_list_order() {
    assert_eq!(
        probe_mimes(),
        vec![
            "text/plain;charset=utf-8".to_string(),
            "text/plain".to_string(),
            "UTF8_STRING".to_string(),
            "image/png".to_string(),
            "image/bmp".to_string(),
            "image/jpeg".to_string(),
        ]
    );
}

#[test]
fn probes_prefer_charset_text() {
    let results = vec![
        ("text/plain;charset=utf-8".to_string(), "h\u{e9}llo".as_bytes().to_vec()),
        ("text/plain".to_string(), b"other".to_vec()),
        ("image/png".to_string(), vec![0x89]),
    ];
    assert_eq!(
        content_from_probes(&results),
        Some(ClipboardContent::Text("h\u{e9}llo".to_string()))
    );
}

#[test]
fn probes_fall_back_to_plain_text() {
    let results = vec![
        ("text/plain;charset=utf-8".to_string(), vec![]),
        ("text/plain".to_string(), b"plain".to_vec()),
    ];
    assert_eq!(content_from_probes(&results), Some(ClipboardContent::Text("plain".to_string())));
}

#[test]
fn probes_binary_only() {
    let png = vec![0x89, 0x50, 0x4e, 0x47];
    let results = vec![
        ("text/plain;charset=utf-8".to_string(), vec![]),
        ("image/png".to_string(), png.clone()),
        ("image/bmp".to_string(), vec![]),
    ];
    let mut expected = ClipboardContent::new_binary();
    expected.add_mime("image/png".to_string(), png);
    assert_eq!(content_from_probes(&results), Some(expected));
}

#[test]
fn probes_with_invalid_text_keep_bytes() {
    let results = vec![("text/plain".to_string(), vec![0xff, 0xfe])];
    let got = content_from_probes(&results).unwrap();
    assert!(got.has_binary());
    assert_eq!(got.get_mime("text/plain"), Some(&vec![0xff, 0xfe]));
}

#[test]
fn probes_with_nothing_yield_nothing() {
    let results = vec![("text/plain".to_string(), vec![]), ("image/png".to_string(), vec![])];
    assert_eq!(content_from_probes(&results), None);
    assert_eq!(content_from_probes(&vec![]), None);
}

#[test]
fn timeout_keeps_complete_text_only() {
    let with_text = vec![
        ("text/plain;charset=utf-8".to_string(), b"done".to_vec()),
        ("image/png".to_string(), vec![0x89]),
    ];
    assert_eq!(content_after_timeout(&with_text), Some(ClipboardContent::Text("done".to_string())));
    let without_text = vec![("image/png".to_string(), vec![0x89])];
    assert_eq!(content_after_timeout(&without_text), None);
    assert_eq!(content_after_timeout(&vec![]), None);
}
