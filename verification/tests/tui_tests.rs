use truffle::commands::status::{merge_status, show_status, status_node_name};
use truffle::file_transfer::types::FileOffer;
use truffle::json::Json;
use truffle::network::udp::{frame_datagram, payload_sent, unframe_datagram, UdpAddr};
use truffle::node::Peer;
use truffle::tui::events::AppEvent;
use truffle::tui::keys::{CommandResult, KeyPress, Picked, Seen};
use truffle::tui::line::Line;
use truffle::tui::offers::Key;
use truffle::tui::peers::PeerNews;
use truffle::tui::state::{
    AppState, AutocompleteKind, DisplayItem, Effect, PeerEventKind, TicketedOffer,
    TransferDialogPhase, TransferStatus,
};

const SECOND: u64 = 1_000_000_000;

fn app() -> AppState {
    AppState::new(
        vec!["first".to_string(), "second".to_string()],
        vec![],
        "/downloads".to_string(),
    )
}

fn seen(path_exists: bool) -> Seen {
    Seen { path_exists, picked: Picked::Directory }
}

fn press(app: &mut AppState, key: Key) -> Vec<Effect> {
    app.handle_key_event(KeyPress { key, control: false }, &seen(false), 0)
}

fn write(app: &mut AppState, text: &str) {
    for c in text.chars() {
        press(app, Key::Char(c));
    }
}

fn peer(id: &str, name: &str, online: bool) -> Peer {
    Peer {
        device_id: None,
        device_name: None,
        display_name: name.to_string(),
        hostname: name.to_string(),
        tailscale_id: id.to_string(),
        peer_ref: format!("{id}:1"),
        generation: 1,
        ip: "100.64.0.2".to_string(),
        online,
        ws_connected: false,
        connection_type: "direct".to_string(),
        os: None,
        last_seen: None,
        login_name: None,
    }
}

fn offer(ticket: u64, from: &str, suggested: &str) -> TicketedOffer {
    TicketedOffer {
        offer: FileOffer {
            from_peer: from.to_string(),
            from_name: from.to_string(),
            file_name: format!("f{ticket}.txt"),
            size: 9,
            sha256: "0".repeat(64),
            suggested_path: suggested.to_string(),
            token: format!("t{ticket}"),
        },
        ticket,
    }
}

// ---------------------------------------------------------------------------
// The input line
// ---------------------------------------------------------------------------

#[test]
fn lines_are_edited_by_characters() {
    let mut l = Line::new("h\u{e9}llo");
    l.left();
    l.backspace();
    assert_eq!(l.text(), "h\u{e9}lo");
    l.home();
    l.delete();
    assert_eq!(l.text(), "\u{e9}lo");
    l.end();
    l.type_char('\u{1f600}');
    l.paste("ab");
    assert_eq!(l.text(), "\u{e9}lo\u{1f600}ab");
    l.right();
    l.backspace();
    assert_eq!(l.text(), "\u{e9}lo\u{1f600}a");
    // What was typed is undone by a backspace.
    let mut l = Line::at("abc", 1);
    l.type_char('x');
    l.backspace();
    assert_eq!((l.text().as_str(), l.cursor), ("abc", 1));
}

#[test]
fn the_history_is_walked() {
    let mut a = app();
    press(&mut a, Key::Up);
    assert_eq!(a.input.text(), "second");
    press(&mut a, Key::Up);
    press(&mut a, Key::Up);
    assert_eq!(a.input.text(), "first");
    press(&mut a, Key::Down);
    assert_eq!(a.input.text(), "second");
    press(&mut a, Key::Down);
    assert_eq!((a.input.text().as_str(), a.history_index), ("", None));
}

#[test]
fn lines_are_submitted() {
    let mut a = app();
    write(&mut a, "  /send laptop hi ");
    let effects = press(&mut a, Key::Enter);
    assert!(matches!(
        &effects[..],
        [Effect::SaveHistory { line }, Effect::Run { line: run }]
            if line == "/send laptop hi" && run == "/send laptop hi"
    ));
    assert_eq!(a.history.last().unwrap(), "/send laptop hi");
    assert_eq!(a.input.text(), "");
    write(&mut a, "hello");
    let effects = press(&mut a, Key::Enter);
    assert!(matches!(&effects[..], [Effect::SaveHistory { .. }]));
    match a.items.last().unwrap() {
        DisplayItem::System { text, .. } => {
            assert_eq!(text, "  Type / for commands. Available: /send /broadcast /cp /exit")
        }
        _ => panic!("expected a line of the system"),
    }
    write(&mut a, "   ");
    assert!(press(&mut a, Key::Enter).is_empty());
    a.finish_command(CommandResult::Quit);
    assert!(a.should_quit);
}

#[test]
fn the_copy_command_opens_the_picker() {
    let mut a = app();
    write(&mut a, "/cp");
    assert!(!a.picker_open);
    let effects = press(&mut a, Key::Char(' '));
    assert!(matches!(&effects[..], [Effect::UpdateAutocomplete, Effect::OpenPicker]));
    assert!(a.picker_open);
    let picked = Seen { path_exists: false, picked: Picked::File("/etc/hosts".to_string()) };
    a.handle_key_event(KeyPress { key: Key::Enter, control: false }, &picked, 0);
    assert_eq!(a.input.text(), "/cp /etc/hosts");
    assert!(!a.picker_open);
    a.picker_open = true;
    press(&mut a, Key::Esc);
    assert_eq!((a.input.text().as_str(), a.picker_open), ("/", false));
}

#[test]
fn completions_take_their_keys() {
    let mut a = app();
    write(&mut a, "/s");
    a.completion_updated(Some(AutocompleteKind::Command));
    assert!(matches!(&press(&mut a, Key::Enter)[..], [Effect::AcceptAutocomplete]));
    assert!(matches!(&press(&mut a, Key::Down)[..], [Effect::NextCompletion]));
    assert!(matches!(&press(&mut a, Key::Up)[..], [Effect::PreviousCompletion]));
    assert!(press(&mut a, Key::Esc).is_empty());
    assert!(a.autocomplete.is_none());
    assert!(matches!(&press(&mut a, Key::Tab)[..], [Effect::CompleteNow]));
}

#[test]
fn control_c_quits_and_pages_scroll() {
    let mut a = app();
    a.handle_key_event(KeyPress { key: Key::Char('c'), control: true }, &seen(false), 0);
    assert!(a.should_quit);
    for _ in 0..15 {
        a.handle_peer_event(&PeerNews::WsConnected("n".to_string()), 0);
    }
    press(&mut a, Key::PageUp);
    assert_eq!((a.scroll_offset, a.auto_scroll), (10, false));
    press(&mut a, Key::PageUp);
    assert_eq!(a.scroll_offset, 14);
    press(&mut a, Key::PageDown);
    assert_eq!(a.scroll_offset, 4);
    press(&mut a, Key::PageDown);
    assert_eq!((a.scroll_offset, a.auto_scroll), (0, true));
}

// ---------------------------------------------------------------------------
// Peers
// ---------------------------------------------------------------------------

#[test]
fn each_node_has_one_row() {
    let mut a = app();
    a.populate_peers(&vec![peer("n1", "laptop", true), peer("n1", "Laptop", true)]);
    assert_eq!(a.peers.len(), 1);
    assert_eq!(a.peers[0].device_name, "Laptop");
    assert!(a.items.is_empty());
    // Nothing new is no news.
    a.handle_peer_event(&PeerNews::Seen(peer("n1", "Laptop", true)), 0);
    assert!(a.items.is_empty());
    a.handle_peer_event(&PeerNews::Left("n1".to_string()), 0);
    assert!(!a.peers[0].online);
    a.handle_peer_event(&PeerNews::Seen(peer("n1", "Laptop", true)), 0);
    a.handle_peer_event(&PeerNews::Seen(peer("n2", "phone", true)), 0);
    let kinds: Vec<PeerEventKind> = a
        .items
        .iter()
        .map(|i| match i {
            DisplayItem::PeerEvent { kind, .. } => *kind,
            _ => panic!("expected news of a peer"),
        })
        .collect();
    assert!(matches!(
        kinds[..],
        [PeerEventKind::Left, PeerEventKind::Connected, PeerEventKind::Joined]
    ));
}

#[test]
fn messages_show_names_and_notes_go() {
    let mut a = app();
    a.populate_peers(&vec![peer("n1", "laptop", true)]);
    let message = || AppEvent::IncomingMessage { from_id: "n1".to_string(), text: "hi".to_string() };
    a.handle_event(message(), &seen(false), 0);
    assert!(a.notifications.is_empty());
    a.auto_scroll = false;
    a.handle_event(message(), &seen(false), SECOND);
    assert_eq!(a.notifications[0].text, "laptop: hi");
    a.handle_event(AppEvent::Tick, &seen(false), 4 * SECOND);
    assert_eq!(a.notifications.len(), 1);
    a.handle_event(AppEvent::Tick, &seen(false), 5 * SECOND);
    assert!(a.notifications.is_empty());
    assert!(matches!(&a.items[1], DisplayItem::ChatIncoming { from, .. } if from == "laptop"));
}

// ---------------------------------------------------------------------------
// Offers
// ---------------------------------------------------------------------------

#[test]
fn offers_wait_for_their_turn() {
    let mut a = app();
    for t in 1..4 {
        let e = a.handle_event(AppEvent::FileOfferReceived(offer(t, "n1", "")), &seen(false), 0);
        assert!(e.is_empty());
    }
    assert_eq!(a.transfer_dialog.as_ref().unwrap().ticket, 1);
    assert_eq!(a.pending_offers.len(), 2);
    // The dialog takes all keys.
    assert!(press(&mut a, Key::Char('x')).is_empty());
    assert_eq!(a.input.text(), "");
    let e = press(&mut a, Key::Char('a'));
    assert!(matches!(
        &e[..],
        [Effect::Accept { ticket: 1, path }] if path == "/downloads/f1.txt"
    ));
    let e = press(&mut a, Key::Char('r'));
    assert!(matches!(
        &e[..],
        [Effect::Reject { ticket: 2, reason }] if reason == "rejected by user"
    ));
    let e = press(&mut a, Key::Esc);
    assert!(matches!(&e[..], [Effect::Reject { ticket: 3, reason }] if reason == "dismissed"));
    assert!(a.transfer_dialog.is_none());
}

#[test]
fn the_open_offer_is_accepted() {
    let mut app = app();
    assert!(app.accept_current_offer(0).is_empty());
    app.show_offer_dialog(offer(4, "n1", "a.txt"), 0);
    let effects = app.accept_current_offer(9);
    assert_eq!(effects.len(), 1);
    assert!(matches!(&effects[0], Effect::Accept { ticket: 4, path } if path == "a.txt"));
    assert!(app.transfer_dialog.is_none());
    assert!(matches!(app.items.last(), Some(DisplayItem::FileTransfer { time: 9, .. })));
}

#[test]
fn files_are_not_replaced_unasked() {
    let mut a = app();
    a.handle_file_offer_received(offer(1, "n1", "notes.txt"), 0);
    let k = KeyPress { key: Key::Char('a'), control: false };
    assert!(a.handle_key(k, &seen(true), 0).is_empty());
    let phase = |a: &AppState| a.transfer_dialog.as_ref().unwrap().phase;
    assert!(matches!(phase(&a), TransferDialogPhase::OverwriteConfirm));
    press(&mut a, Key::Char('n'));
    assert!(matches!(phase(&a), TransferDialogPhase::Prompt));
    a.handle_key(KeyPress { key: Key::Char('a'), control: false }, &seen(true), 0);
    let e = press(&mut a, Key::Char('y'));
    assert!(matches!(&e[..], [Effect::Accept { ticket: 1, path }] if path == "notes.txt"));
}

#[test]
fn the_path_of_a_file_is_edited() {
    let mut a = app();
    a.handle_file_offer_received(offer(1, "n1", "ab"), 0);
    assert!(matches!(&press(&mut a, Key::Char('s'))[..], [Effect::OpenPicker]));
    a.picker_closed();
    press(&mut a, Key::Backspace);
    press(&mut a, Key::Char('c'));
    let e = press(&mut a, Key::Enter);
    assert!(matches!(&e[..], [Effect::Accept { path, .. }] if path == "ac"));
}

#[test]
fn trusted_peers_are_not_asked_about() {
    let mut a = app();
    a.handle_file_offer_received(offer(1, "n1", ""), 0);
    let e = press(&mut a, Key::Char('d'));
    assert!(matches!(&e[..], [Effect::Accept { ticket: 1, .. }, Effect::SaveConfig]));
    assert!(a.auto_accepts_offer("n1"));
    let e = a.handle_file_offer_received(offer(2, "n1", "."), 0);
    assert!(matches!(
        &e[..],
        [Effect::Accept { ticket: 2, path }] if path == "/downloads/f2.txt"
    ));
    assert!(a.transfer_dialog.is_none());
    // A device id on the list counts for its node.
    let mut a = AppState::new(vec![], vec!["dev-1".to_string()], "/d".to_string());
    let mut p = peer("n7", "x", true);
    p.device_id = Some("dev-1".to_string());
    assert!(!a.auto_accepts_offer("n7"));
    a.populate_peers(&vec![p]);
    assert!(a.auto_accepts_offer("n7"));
}

#[test]
fn dialogs_time_out() {
    let mut a = app();
    a.handle_file_offer_received(offer(1, "n1", ""), 0);
    a.handle_file_offer_received(offer(2, "n1", ""), 0);
    assert!(a.handle_event(AppEvent::Tick, &seen(false), 60 * SECOND).is_empty());
    let e = a.handle_event(AppEvent::Tick, &seen(false), 60 * SECOND + 1);
    assert!(matches!(
        &e[..],
        [Effect::Reject { ticket: 1, reason }] if reason == "timed out (60s)"
    ));
    // The next offer has its own time.
    assert!(a.expire_dialog(100 * SECOND).is_empty());
    assert!(!a.expire_dialog(121 * SECOND).is_empty());
}

#[test]
fn progress_reaches_the_last_transfer_of_a_file() {
    let mut a = app();
    a.handle_file_offer_received(offer(1, "n1", ""), 0);
    press(&mut a, Key::Char('a'));
    let done = AppEvent::TransferComplete {
        file_name: "f1.txt".to_string(),
        sha256: "d".to_string(),
    };
    a.handle_event(done, &seen(false), 0);
    let other = AppEvent::TransferFailed {
        file_name: "other".to_string(),
        reason: "x".to_string(),
    };
    a.handle_event(other, &seen(false), 0);
    assert_eq!(a.items.len(), 1);
    assert!(matches!(
        &a.items[0],
        DisplayItem::FileTransfer { status: TransferStatus::Complete { sha256 }, .. }
            if sha256 == "d"
    ));
}

// ---------------------------------------------------------------------------
// Datagrams and the status command
// ---------------------------------------------------------------------------

#[test]
fn datagrams_are_framed() {
    let addr = UdpAddr::V4 { octets: [100, 64, 0, 1], port: 0x1234 };
    let packet = frame_datagram(b"hi", addr).unwrap();
    assert_eq!(packet, vec![100, 64, 0, 1, 0x12, 0x34, b'h', b'i']);
    let (data, octets, port) = unframe_datagram(&packet).unwrap();
    assert_eq!((&data[..], octets, port), (&b"hi"[..], [100, 64, 0, 1], 0x1234));
    assert!(frame_datagram(b"hi", UdpAddr::V6).is_err());
    assert!(unframe_datagram(&packet[..5]).is_err());
    assert!(unframe_datagram(&packet[..6]).unwrap().0.is_empty());
    assert_eq!((payload_sent(8), payload_sent(6), payload_sent(3)), (2, 0, 0));
}

#[test]
fn the_status_is_shown() {
    let text = |s: &str| Json::Text(s.to_string());
    let answer = Json::Object(vec![
        ("device_name".to_string(), text("Dev")),
        ("uptime_secs".to_string(), Json::Number(90)),
        (
            "health".to_string(),
            Json::Object(vec![("warnings".to_string(), Json::Array(vec![text("w"), Json::Null]))]),
        ),
    ]);
    let view = show_status(&answer);
    assert_eq!((view.name.as_str(), view.status.as_str()), ("Dev", "offline"));
    assert_eq!((view.uptime_secs, view.peer_count), (90, 0));
    assert_eq!(view.warnings, vec!["w".to_string()]);
    assert_eq!(show_status(&Json::Null).name, "-");
    assert_eq!(status_node_name(&answer, "cfg"), "Dev");
    assert_eq!(status_node_name(&Json::Null, "cfg"), "cfg");
    let Json::Object(entries) = answer else { panic!("an object") };
    let merged = merge_status(entries);
    assert!(merged.iter().all(|(k, _)| k != "device_name"));
}
