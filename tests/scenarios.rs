use clip_bridge::content::{ClipboardContent, ClipboardType};
use clip_bridge::reconciler::{AssertCommand, Reconciler, Side, SyncEvent};
use clip_bridge::wayland::{content_from_probes, GlobalKind, SourceAction, WaylandState};
use clip_bridge::x11::{
    PullAction, PullEvent, ReplyData, SelectionRequest, X11State, XAtoms, CLIPBOARD_ATOM, INCR_ATOM,
    MULTIPLE_ATOM, PRIMARY_ATOM, STRING_ATOM, TARGETS_ATOM, TEXT_ATOM, TEXT_PLAIN_ATOM,
    TEXT_PLAIN_UTF8_ATOM, UTF8_STRING_ATOM,
};

const WINDOW: u32 = 0x1200001;

fn atoms() -> XAtoms {
    XAtoms {
        clipboard: 280,
        primary: 1,
        targets: 281,
        multiple: 282,
        incr: 283,
        utf8_string: 284,
        text: 285,
        string: 31,
        text_plain_utf8: 286,
        text_plain: 287,
    }
}

fn wayland() -> WaylandState {
    let mut w = WaylandState::new(false);
    w.note_bound(GlobalKind::Seat);
    w.note_bound(GlobalKind::DataControlManager);
    w
}

/// Pulls `bytes`, offered by an X owner as `UTF8_STRING`, and returns the
/// observation the X side reports.
fn pull_utf8(x: &X11State, kind: ClipboardType, bytes: &[u8]) -> Option<String> {
    let (mut pull, first) = x.request_clipboard_content(kind);
    assert!(matches!(first, PullAction::Convert { .. }));
    assert!(matches!(x.handle_selection_notify(&mut pull, 900), PullAction::Read { .. }));
    match pull.step(PullEvent::PropertyRead { property_type: 284, value: bytes.to_vec() }) {
        PullAction::Finish { text } => text,
        other => panic!("unexpected {:?}", other),
    }
}

fn apply_to_wayland(w: &mut WaylandState, cmd: AssertCommand) -> Vec<SourceAction> {
    assert_eq!(cmd.target, Side::Wayland);
    w.set_clipboard_content(cmd.content, cmd.clipboard_type)
}

fn apply_to_x(x: &mut X11State, cmd: AssertCommand) {
    assert_eq!(cmd.target, Side::X11);
    x.set_clipboard_content(&cmd.content, cmd.clipboard_type);
}

fn request(target: u32) -> SelectionRequest {
    SelectionRequest { requestor: 0x3000001, selection: 280, target, property: 950, time: 0 }
}

#[test]
fn test_x11_state_initialization() {
    let x = X11State::new(WINDOW, atoms());
    assert_eq!(x.window, WINDOW);
    assert_eq!(x.snapshot(ClipboardType::Clipboard), None);
    assert_eq!(x.snapshot(ClipboardType::Primary), None);
}

#[test]
fn test_atom_interning() {
    let x = X11State::new(WINDOW, atoms());
    let required_atoms = vec![
        CLIPBOARD_ATOM,
        PRIMARY_ATOM,
        TARGETS_ATOM,
        MULTIPLE_ATOM,
        INCR_ATOM,
        UTF8_STRING_ATOM,
        TEXT_ATOM,
        STRING_ATOM,
        TEXT_PLAIN_UTF8_ATOM,
        TEXT_PLAIN_ATOM,
    ];
    for atom_name in required_atoms {
        assert!(x.get_atom(atom_name).is_some(), "Atom {} not interned", atom_name);
    }
}

#[test]
fn scenario_x_to_wayland_text() {
    let x = X11State::new(WINDOW, atoms());
    let mut r = Reconciler::new();
    let mut w = wayland();
    let text = pull_utf8(&x, ClipboardType::Clipboard, b"hello").unwrap();
    let cmd = r
        .observe(SyncEvent::X11ToWayland {
            content: ClipboardContent::Text(text),
            clipboard_type: ClipboardType::Clipboard,
        })
        .unwrap();
    let actions = apply_to_wayland(&mut w, cmd);
    let offered: Vec<&str> = actions
        .iter()
        .filter_map(|a| match a {
            SourceAction::Offer { mime, .. } => Some(mime.as_str()),
            _ => None,
        })
        .collect();
    assert!(offered.contains(&"text/plain;charset=utf-8"));
    let source = w.source(ClipboardType::Clipboard).unwrap();
    assert_eq!(
        w.on_send(source, "text/plain;charset=utf-8"),
        Some(vec![0x68, 0x65, 0x6c, 0x6c, 0x6f])
    );
}

#[test]
fn scenario_wayland_to_x_text() {
    let mut x = X11State::new(WINDOW, atoms());
    let mut r = Reconciler::new();
    let bytes = vec![0x68, 0xc3, 0xa9, 0x6c, 0x6c, 0x6f];
    let probes = vec![("text/plain;charset=utf-8".to_string(), bytes.clone())];
    let content = content_from_probes(&probes).unwrap();
    assert_eq!(content, ClipboardContent::Text("h\u{e9}llo".to_string()));
    let cmd = r
        .observe(SyncEvent::WaylandToX11 { content, clipboard_type: ClipboardType::Clipboard })
        .unwrap();
    apply_to_x(&mut x, cmd);
    let reply = x.handle_selection_request(&request(284));
    assert_eq!(reply.property, 950);
    match reply.data {
        ReplyData::Bytes { property_type, data } => {
            assert_eq!(property_type, 284);
            assert_eq!(data, bytes);
        }
        other => panic!("unexpected {:?}", other),
    }
}

#[test]
fn scenario_echo_suppression() {
    let x = X11State::new(WINDOW, atoms());
    let mut r = Reconciler::new();
    let mut w = wayland();
    let text = pull_utf8(&x, ClipboardType::Clipboard, b"hello").unwrap();
    let cmd = r
        .observe(SyncEvent::X11ToWayland {
            content: ClipboardContent::Text(text),
            clipboard_type: ClipboardType::Clipboard,
        })
        .unwrap();
    apply_to_wayland(&mut w, cmd);
    // The Wayland adapter now owns the selection and observes its own value.
    let source = w.source(ClipboardType::Clipboard).unwrap();
    let served = w.on_send(source, "text/plain;charset=utf-8").unwrap();
    let again = content_from_probes(&vec![("text/plain;charset=utf-8".to_string(), served)]).unwrap();
    let echo = r.observe(SyncEvent::WaylandToX11 { content: again, clipboard_type: ClipboardType::Clipboard });
    assert!(echo.is_none());
}

#[test]
fn scenario_clearing_both_ways() {
    let mut x = X11State::new(WINDOW, atoms());
    let mut r = Reconciler::new();
    let mut w = wayland();
    let cmd = r
        .observe(SyncEvent::WaylandToX11 {
            content: ClipboardContent::Text("x".to_string()),
            clipboard_type: ClipboardType::Clipboard,
        })
        .unwrap();
    apply_to_x(&mut x, cmd);
    let cleared = r
        .observe(SyncEvent::WaylandToX11 {
            content: ClipboardContent::Empty,
            clipboard_type: ClipboardType::Clipboard,
        })
        .unwrap();
    assert_eq!(cleared.content, ClipboardContent::Empty);
    apply_to_x(&mut x, cleared);
    let reply = x.handle_selection_request(&request(284));
    assert_eq!(reply.property, 0);
    assert!(matches!(reply.data, ReplyData::Nothing));

    let cmd = r
        .observe(SyncEvent::X11ToWayland {
            content: ClipboardContent::Text("y".to_string()),
            clipboard_type: ClipboardType::Clipboard,
        })
        .unwrap();
    apply_to_wayland(&mut w, cmd);
    let cleared = r
        .observe(SyncEvent::X11ToWayland {
            content: ClipboardContent::Empty,
            clipboard_type: ClipboardType::Clipboard,
        })
        .unwrap();
    let actions = apply_to_wayland(&mut w, cleared);
    assert!(matches!(actions[0], SourceAction::Select { selected: None, .. }));
    assert!(matches!(actions[1], SourceAction::Destroy { source: 0 }));
    assert_eq!(w.source(ClipboardType::Clipboard), None);
}

#[test]
fn scenario_binary_only_transfer() {
    let mut x = X11State::new(WINDOW, atoms());
    let mut r = Reconciler::new();
    let mut w = wayland();
    let png = vec![0x89, 0x50, 0x4e, 0x47, 0x0d, 0x0a, 0x1a, 0x0a];
    let probes = vec![
        ("text/plain;charset=utf-8".to_string(), vec![]),
        ("text/plain".to_string(), vec![]),
        ("UTF8_STRING".to_string(), vec![]),
        ("image/png".to_string(), png.clone()),
    ];
    let content = content_from_probes(&probes).unwrap();
    let cmd = r
        .observe(SyncEvent::WaylandToX11 { content, clipboard_type: ClipboardType::Clipboard })
        .unwrap();
    let mut expected = ClipboardContent::new_binary();
    expected.add_mime("image/png".to_string(), png.clone());
    assert_eq!(r.ledger(ClipboardType::Clipboard), Some(&expected));
    // No X-side transfer for a value without text.
    assert!(x.set_clipboard_content(&cmd.content, cmd.clipboard_type).is_none());
    // Served byte for byte once the Wayland side holds it.
    w.set_clipboard_content(cmd.content, ClipboardType::Clipboard);
    let source = w.source(ClipboardType::Clipboard).unwrap();
    assert_eq!(w.on_send(source, "image/png"), Some(png));
}

#[test]
fn scenario_targets_on_x() {
    let mut x = X11State::new(WINDOW, atoms());
    x.set_clipboard_content(&ClipboardContent::Text("t".to_string()), ClipboardType::Clipboard);
    let reply = x.handle_selection_request(&request(281));
    match reply.data {
        ReplyData::Atoms { property_type, atoms } => {
            assert_eq!(property_type, 4);
            for needed in [284u32, 31, 285, 281] {
                assert!(atoms.contains(&needed));
            }
        }
        other => panic!("unexpected {:?}", other),
    }
}

#[test]
fn text_round_trip_is_byte_exact() {
    let mut x = X11State::new(WINDOW, atoms());
    let mut r = Reconciler::new();
    let mut w = wayland();
    let copied = "caf\u{e9} \u{65e5}\u{672c} \u{1f600}";
    let text = pull_utf8(&x, ClipboardType::Clipboard, copied.as_bytes()).unwrap();
    let cmd = r
        .observe(SyncEvent::X11ToWayland {
            content: ClipboardContent::Text(text),
            clipboard_type: ClipboardType::Clipboard,
        })
        .unwrap();
    apply_to_wayland(&mut w, cmd);
    let source = w.source(ClipboardType::Clipboard).unwrap();
    let served = w.on_send(source, "text/plain;charset=utf-8").unwrap();
    assert_eq!(served, copied.as_bytes().to_vec());
    // A different value copied on the Wayland side travels back to X.
    let next = "na\u{ef}ve";
    let content = content_from_probes(&vec![("text/plain;charset=utf-8".to_string(), next.as_bytes().to_vec())]).unwrap();
    let cmd = r
        .observe(SyncEvent::WaylandToX11 { content, clipboard_type: ClipboardType::Clipboard })
        .unwrap();
    apply_to_x(&mut x, cmd);
    match x.handle_selection_request(&request(284)).data {
        ReplyData::Bytes { data, .. } => assert_eq!(data, next.as_bytes().to_vec()),
        other => panic!("unexpected {:?}", other),
    }
}

#[test]
fn incremental_pull_feeds_reconciler() {
    let x = X11State::new(WINDOW, atoms());
    let (mut pull, _) = x.request_clipboard_content(ClipboardType::Primary);
    x.handle_selection_notify(&mut pull, 900);
    pull.step(PullEvent::PropertyRead { property_type: 283, value: vec![0, 16, 0, 0] });
    x.handle_property_notify(&mut pull, 284, b"big ".to_vec());
    x.handle_property_notify(&mut pull, 284, b"value".to_vec());
    let text = match x.handle_property_notify(&mut pull, 284, vec![]) {
        PullAction::Finish { text } => text.unwrap(),
        other => panic!("unexpected {:?}", other),
    };
    assert_eq!(text, "big value");
}
