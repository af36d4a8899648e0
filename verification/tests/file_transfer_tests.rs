use std::collections::HashMap;

use truffle::file_transfer::header::{check_header, read_header, write_header};
use truffle::file_transfer::intake::{
    answer_byte, check_answer, progress_due, Digesting, Intake, ACK, NACK,
};
use truffle::file_transfer::paths::{
    dedup_candidate, file_name, inside, join_path, resolve_dest_path, safe_base_name,
};
use truffle::file_transfer::place::{PlaceAction, PlaceEvent, Placing};
use truffle::file_transfer::receiver::{
    accepted_destination, authorize_pull_path, check_destination, failure_event, not_connected,
    offer_refused, pull_denied_reason, queue_refused, queue_refusal_reason, receive_offer,
    reject_message, serve_offer, serve_reply, served_name, take_decision, temp_path, unanswered,
    DecisionNews, Dispatch, FileFacts, FoundPath, PendingOffers, QueueRefusal, ReceiveLoad,
};
use truffle::file_transfer::types::{
    node_failure, Errand, FileTransferEvent, FtMessage, OfferDecision, OverwritePolicy,
    TransferDirection, TransferError,
};
use truffle::request_reply::RequestError;

#[test]
fn safe_base_name_strips_directories() {
    assert_eq!(safe_base_name("file.txt").as_deref(), Some("file.txt"));
    assert_eq!(safe_base_name("../../etc/passwd").as_deref(), Some("passwd"));
    assert_eq!(safe_base_name("/abs/path/x").as_deref(), Some("x"));
    assert_eq!(safe_base_name("..\\..\\win.exe").as_deref(), Some("win.exe"));
}

#[test]
fn safe_base_name_rejects_unsafe() {
    assert_eq!(safe_base_name(""), None);
    assert_eq!(safe_base_name("."), None);
    assert_eq!(safe_base_name(".."), None);
    assert_eq!(safe_base_name("../.."), None); // final component is ".."
    assert_eq!(safe_base_name("dir/"), None); // trailing separator => empty base
}

#[test]
fn resolve_dest_contains_traversal_into_directory() {
    let got = resolve_dest_path("/downloads/", "../../../.ssh/authorized_keys", false).unwrap();
    assert_eq!(got, "/downloads/authorized_keys");
    assert!(!got.contains(".."));
}

#[test]
fn resolve_dest_rejects_dotdot_filename() {
    assert!(resolve_dest_path("/downloads/", "..", false).is_err());
}

#[test]
fn resolve_dest_passes_through_explicit_file() {
    assert_eq!(
        resolve_dest_path("/tmp/truffle-explicit-file.bin", "ignored", false).unwrap(),
        "/tmp/truffle-explicit-file.bin"
    );
}

#[test]
fn an_existing_directory_takes_the_base_name() {
    assert_eq!(resolve_dest_path("/downloads", "a/b.txt", true).unwrap(), "/downloads/b.txt");
    assert!(matches!(
        accepted_destination("/downloads", "..", true),
        Err(TransferError::Protocol(_))
    ));
    assert_eq!(accepted_destination("/tmp/x", "y", false).unwrap(), "/tmp/x");
}

fn found(path: &str, is_file: bool, len: u64) -> Option<FoundPath> {
    Some(FoundPath { path: path.to_string(), facts: Some(FileFacts { is_file, len }) })
}

fn reason(r: Result<String, TransferError>) -> String {
    match r {
        Err(TransferError::Rejected(why)) => why,
        _ => panic!("expected a refusal"),
    }
}

#[test]
fn pull_denied_when_no_roots() {
    let r = authorize_pull_path(&vec![], &found("/tmp/d/f.txt", true, 2), u64::MAX, false);
    assert_eq!(reason(r), "pull serving is not enabled on this peer");
}

#[test]
fn pull_allowlisted_file_authorized() {
    let roots = vec!["/tmp/d".to_string()];
    let got = authorize_pull_path(&roots, &found("/tmp/d/f.txt", true, 2), u64::MAX, false).unwrap();
    assert_eq!(got, "/tmp/d/f.txt");
}

#[test]
fn pull_outside_root_rejected() {
    let roots = vec!["/tmp/a".to_string()];
    let elsewhere = authorize_pull_path(&roots, &found("/tmp/b/secret.txt", true, 6), u64::MAX, false);
    let absent = authorize_pull_path(&roots, &None, u64::MAX, false);
    assert_eq!(reason(elsewhere), "requested path is not shared");
    assert_eq!(reason(absent), "requested path is not shared");
}

#[test]
fn pull_prefix_collision_rejected() {
    let roots = vec!["/tmp/base/shared".to_string()];
    let r = authorize_pull_path(&roots, &found("/tmp/base/shared-evil/f.txt", true, 1), u64::MAX, false);
    assert_eq!(reason(r), "requested path is not shared");
}

#[test]
fn pull_symlink_escape_rejected() {
    // A link inside the root resolves to what it points at.
    let roots = vec!["/tmp/root".to_string()];
    let r = authorize_pull_path(&roots, &found("/tmp/outside/secret.txt", true, 6), u64::MAX, false);
    assert_eq!(reason(r), "requested path is not shared");
}

#[test]
fn pull_oversize_file_rejected() {
    let roots = vec!["/tmp/d".to_string()];
    let r = authorize_pull_path(&roots, &found("/tmp/d/big.bin", true, 4), 3, false);
    assert_eq!(reason(r), "file size 4 exceeds max transfer size 3");
}

#[test]
fn directories_and_unreadable_files_are_not_served() {
    let roots = vec!["/x".to_string(), "/tmp/d".to_string()];
    let r = authorize_pull_path(&roots, &found("/tmp/d/sub", false, 4), 30, false);
    assert_eq!(reason(r), "requested path is not shared");
    let unread = Some(FoundPath { path: "/tmp/d/f".to_string(), facts: None });
    assert_eq!(reason(authorize_pull_path(&roots, &unread, 30, false)), "requested path is not shared");
    assert_eq!(pull_denied_reason(), "pull denied by peer");
}

#[test]
fn dedup_candidate_naming() {
    let got = dedup_candidate("/d/report.pdf", 1, false);
    assert!(got.ends_with("report (1).pdf"), "{got}");
    let got = dedup_candidate("/d/Makefile", 2, false);
    assert!(got.ends_with("Makefile (2)"), "{got}");
    assert_eq!(dedup_candidate("/d/.env", 3, false), "/d/.env (3)");
    assert_eq!(dedup_candidate("a.tar.gz", 4, false), "a.tar (4).gz");
    assert_ne!(dedup_candidate("a", 1, false), dedup_candidate("a", 11, false));
}

#[test]
fn paths_are_compared_by_their_parts() {
    assert!(inside("/a/b", "/a/b", false));
    assert!(inside("/a/b", "/a/b/c", false));
    assert!(inside("/a/b/", "/a//b/c", false));
    assert!(!inside("/a/b", "/a/bc", false));
    assert!(!inside("/a/b", "a/b/c", false));
    assert!(inside("/", "/etc", false));
    assert_eq!(file_name("/a/b.txt", false).as_deref(), Some("b.txt"));
    assert_eq!(file_name("/a/b/", false).as_deref(), Some("b"));
    assert_eq!(file_name("/a/..", false), None);
    assert_eq!(file_name("/", false), None);
    assert_eq!(join_path("/a", "b", false), "/a/b");
    assert_eq!(join_path("/a/", "b", false), "/a/b");
    assert_eq!(served_name("/srv/file.bin", false), "file.bin");
    assert_eq!(served_name("/", false), "file");
    assert_eq!(file_name("C:\\d\\f.txt", false).as_deref(), Some("C:\\d\\f.txt"));
}

#[test]
fn windows_paths_are_split_at_both_separators() {
    assert!(inside("C:\\shared", "C:\\shared\\f.txt", true));
    assert!(inside("C:\\shared", "c:/shared/f.txt", true));
    assert!(inside("C:\\shared\\.\\a\\", "C:\\shared\\\\a", true));
    assert!(!inside("C:\\shared", "C:\\shared-evil\\f.txt", true));
    assert!(!inside("C:\\shared", "D:\\shared\\f.txt", true));
    assert!(!inside("C:\\shared", "C:shared\\f.txt", true));
    assert!(!inside("C:\\shared", "C:\\Shared\\f.txt", true));
    assert!(inside("C:.", "C:f.txt", true));
    assert!(!inside(".", "f.txt", true));
    assert!(!inside("C:\\shared", "C:\\shared\\f.txt", false));
    assert_eq!(file_name("C:\\d\\f.txt", true).as_deref(), Some("f.txt"));
    assert_eq!(file_name("C:/d\\e/", true).as_deref(), Some("e"));
    assert_eq!(file_name("C:f.txt", true).as_deref(), Some("f.txt"));
    assert_eq!(file_name("C:\\", true), None);
    assert_eq!(file_name("C:", true), None);
    assert_eq!(file_name("C:\\d\\..", true), None);
    assert_eq!(served_name("C:\\Users\\me\\secret.txt", true), "secret.txt");
    assert_eq!(served_name("\\\\?\\C:\\srv\\a.bin", true), "a.bin");
    assert_eq!(served_name("C:\\", true), "file");
    assert_eq!(join_path("C:\\a", "b", true), "C:\\a\\b");
    assert_eq!(join_path("C:\\a\\", "b", true), "C:\\a\\b");
    assert_eq!(join_path("C:/a/", "b", true), "C:/a/b");
    assert_eq!(join_path("C:", "b", true), "C:b");
    assert_eq!(join_path("C:\\a", "D:b", true), "D:b");
    assert_eq!(join_path("", "b", true), "b");
}

#[test]
fn verbatim_windows_paths_are_taken_as_written() {
    let root = "\\\\?\\C:\\shared";
    assert!(inside(root, root, true));
    assert!(inside(root, "\\\\?\\C:\\shared\\sub\\f.txt", true));
    assert!(inside(root, "\\\\?\\c:\\shared\\f.txt", true));
    assert!(!inside(root, "\\\\?\\C:\\shared-evil\\f.txt", true));
    assert!(!inside(root, "\\\\?\\D:\\shared\\f.txt", true));
    assert!(!inside(root, "\\\\?\\C:\\shared/f.txt", true));
    assert!(!inside(root, "C:\\shared\\f.txt", true));
    assert!(!inside("\\\\?\\C:\\a\\b", "\\\\?\\C:\\a\\.\\b", true));
    assert_eq!(file_name("\\\\?\\C:\\a/b", true).as_deref(), Some("a/b"));
    assert_eq!(file_name("\\\\?\\C:\\a\\.", true), None);
    assert!(inside("\\\\?\\UNC\\s\\d", "\\\\?\\UNC\\s\\d\\f", true));
    assert!(!inside("\\\\?\\UNC\\s\\d", "\\\\?\\UNC\\s\\e\\f", true));
    assert!(inside("\\\\?\\Volume{1}\\", "\\\\?\\Volume{1}\\f", true));
}

#[test]
fn shares_and_devices_are_kept_apart() {
    assert!(inside("\\\\server\\share", "\\\\server\\share\\d\\f", true));
    assert!(inside("\\\\server\\share\\", "//server/share/f", true));
    assert!(!inside("\\\\server\\share", "\\\\server\\other\\f", true));
    assert!(!inside("\\\\server", "\\\\server\\share", true));
    assert_eq!(file_name("\\\\server\\share", true), None);
    assert_eq!(file_name("\\\\server\\share\\f", true).as_deref(), Some("f"));
    assert!(inside("\\\\.\\COM1", "\\\\.\\COM1\\x", true));
    assert!(!inside("\\\\.\\COM1", "\\\\.\\COM2\\x", true));
}

#[test]
fn pulls_are_authorized_below_windows_roots() {
    let roots = vec!["\\\\?\\C:\\shared".to_string()];
    let at = |path: &str| authorize_pull_path(&roots, &found(path, true, 2), 9, true);
    let file = "\\\\?\\C:\\shared\\f.txt";
    assert_eq!(at(file).unwrap(), file);
    assert_eq!(reason(at("\\\\?\\C:\\shared-evil\\f.txt")), "requested path is not shared");
    assert_eq!(reason(at("\\\\?\\C:\\other\\f.txt")), "requested path is not shared");
}

#[test]
fn windows_siblings_stay_in_their_directory() {
    assert_eq!(dedup_candidate("C:\\d\\report.pdf", 1, true), "C:\\d\\report (1).pdf");
    assert_eq!(dedup_candidate("C:\\d/report.pdf", 1, true), "C:\\d\\report (1).pdf");
    assert_eq!(dedup_candidate("C:/d.x/Makefile", 2, true), "C:/d.x\\Makefile (2)");
    assert_eq!(dedup_candidate("C:\\report.pdf", 3, true), "C:\\report (3).pdf");
    assert_eq!(dedup_candidate("C:report.pdf", 4, true), "C:report (4).pdf");
    assert_eq!(
        dedup_candidate("\\\\server\\share\\a.txt", 5, true),
        "\\\\server\\share\\a (5).txt"
    );
    let (mut placing, action) =
        Placing::begin("C:\\d\\f.txt".to_string(), OverwritePolicy::Rename, true);
    assert!(matches!(action, PlaceAction::Link { to } if to == "C:\\d\\f.txt"));
    let action = placing.next(PlaceEvent::Exists("taken".to_string()));
    assert!(matches!(action, PlaceAction::Link { to } if to == "C:\\d\\f (1).txt"));
}

// ---------------------------------------------------------------------------
// Placing
// ---------------------------------------------------------------------------

/// Runs a placing on a directory held in memory. `links` tells whether the
/// directory knows hard links.
fn place(
    files: &mut HashMap<String, &'static str>,
    temp: &str,
    dest: &str,
    policy: OverwritePolicy,
    links: bool,
) -> Result<String, TransferError> {
    let (mut placing, mut action) = Placing::begin(dest.to_string(), policy, false);
    loop {
        let event = match action {
            PlaceAction::Rename { to } => {
                let content = files.remove(temp).unwrap();
                files.insert(to, content);
                PlaceEvent::Worked
            }
            PlaceAction::Copy { to } => {
                let content = files[temp];
                files.insert(to, content);
                PlaceEvent::Worked
            }
            PlaceAction::Link { to } => {
                if !links {
                    PlaceEvent::Failed("links are not supported".to_string())
                } else if files.contains_key(&to) {
                    PlaceEvent::Exists("file exists".to_string())
                } else {
                    let content = files[temp];
                    files.insert(to, content);
                    PlaceEvent::Worked
                }
            }
            PlaceAction::Look { at } => {
                if files.contains_key(&at) {
                    PlaceEvent::Exists(String::new())
                } else {
                    PlaceEvent::Worked
                }
            }
            PlaceAction::Remove => {
                files.remove(temp);
                PlaceEvent::Worked
            }
            PlaceAction::Done(r) => return r,
        };
        action = placing.next(event);
    }
}

#[test]
fn finalize_reject_errors_when_dest_exists() {
    for links in [true, false] {
        let mut files = HashMap::from([("/d/f.txt".to_string(), "old"), ("/d/t".to_string(), "new")]);
        let err = place(&mut files, "/d/t", "/d/f.txt", OverwritePolicy::Reject, links).unwrap_err();
        match err {
            TransferError::Protocol(why) => assert_eq!(
                why,
                "destination already exists: /d/f.txt (OverwritePolicy::Reject)"
            ),
            _ => panic!("expected a protocol error"),
        }
        assert_eq!(files["/d/f.txt"], "old");
        assert!(!files.contains_key("/d/t"));
    }
}

#[test]
fn finalize_reject_places_when_dest_missing() {
    for links in [true, false] {
        let mut files = HashMap::from([("/d/t".to_string(), "data")]);
        let placed = place(&mut files, "/d/t", "/d/g.txt", OverwritePolicy::Reject, links).unwrap();
        assert_eq!(placed, "/d/g.txt");
        assert_eq!(files["/d/g.txt"], "data");
        assert!(!files.contains_key("/d/t"));
    }
}

#[test]
fn finalize_replace_overwrites() {
    let mut files = HashMap::from([("/d/h.txt".to_string(), "old"), ("/d/t".to_string(), "new")]);
    let placed = place(&mut files, "/d/t", "/d/h.txt", OverwritePolicy::Replace, true).unwrap();
    assert_eq!(placed, "/d/h.txt");
    assert_eq!(files["/d/h.txt"], "new");
}

#[test]
fn finalize_rename_dedupes() {
    for links in [true, false] {
        let mut files = HashMap::from([("/d/i.txt".to_string(), "old"), ("/d/t".to_string(), "new")]);
        let placed = place(&mut files, "/d/t", "/d/i.txt", OverwritePolicy::Rename, links).unwrap();
        assert!(placed.ends_with("i (1).txt"), "{placed}");
        assert_eq!(files["/d/i.txt"], "old");
        assert_eq!(files[&placed], "new");
    }
}

#[test]
fn concurrent_finalize_same_dest_reject_single_winner() {
    let mut files = HashMap::from([("/d/t1".to_string(), "one"), ("/d/t2".to_string(), "two")]);
    let a = place(&mut files, "/d/t1", "/d/f", OverwritePolicy::Reject, true);
    let b = place(&mut files, "/d/t2", "/d/f", OverwritePolicy::Reject, true);
    assert!(a.is_ok() && b.is_err());
    assert_eq!(files["/d/f"], "one");
}

#[test]
fn concurrent_finalize_same_dest_rename_both_win() {
    let mut files = HashMap::from([("/d/t1".to_string(), "one"), ("/d/t2".to_string(), "two")]);
    let a = place(&mut files, "/d/t1", "/d/f", OverwritePolicy::Rename, true).unwrap();
    let b = place(&mut files, "/d/t2", "/d/f", OverwritePolicy::Rename, true).unwrap();
    assert_ne!(a, b);
    assert_eq!((files[&a], files[&b]), ("one", "two"));
}

#[test]
fn a_failed_copy_is_cleaned_up() {
    let (mut placing, action) = Placing::begin("/d/f".to_string(), OverwritePolicy::Replace, false);
    assert!(matches!(action, PlaceAction::Rename { .. }));
    let action = placing.next(PlaceEvent::Failed("other device".to_string()));
    assert!(matches!(action, PlaceAction::Copy { .. }));
    let action = placing.next(PlaceEvent::Failed("disk full".to_string()));
    assert!(matches!(action, PlaceAction::Remove));
    match placing.next(PlaceEvent::Worked) {
        PlaceAction::Done(Err(TransferError::Io(why))) => assert_eq!(why, "disk full"),
        _ => panic!("expected the error of the copy"),
    }
}

#[test]
fn names_run_out() {
    let (mut placing, mut action) = Placing::begin("/d/f".to_string(), OverwritePolicy::Rename, false);
    let mut tries = 0;
    while let PlaceAction::Link { .. } = action {
        tries += 1;
        action = placing.next(PlaceEvent::Exists(String::new()));
    }
    assert_eq!(tries, 1000);
    match placing.next(PlaceEvent::Worked) {
        PlaceAction::Done(Err(TransferError::Protocol(why))) => {
            assert_eq!(why, "no free deduplicated name found for /d/f")
        }
        _ => panic!("expected that no name is free"),
    }
}

// ---------------------------------------------------------------------------
// Load
// ---------------------------------------------------------------------------

#[test]
fn peer_pending_guard_caps_and_releases() {
    let mut map = PendingOffers::new();
    assert!(map.try_acquire("p", 2));
    assert!(map.try_acquire("p", 2));
    assert!(!map.try_acquire("p", 2));
    // A different peer is unaffected by p's slots.
    assert!(map.try_acquire("q", 2));
    map.release("p");
    assert!(map.try_acquire("p", 2));
}

fn offer(token: &str) -> FtMessage {
    FtMessage::Offer {
        file_name: "a".to_string(),
        size: 1,
        sha256: "0".repeat(64),
        save_path: String::new(),
        token: token.to_string(),
        tcp_port: 0,
    }
}

fn pull(token: &str) -> FtMessage {
    FtMessage::PullRequest {
        path: "/x".to_string(),
        requester_id: "r".to_string(),
        token: token.to_string(),
    }
}

#[test]
fn work_above_the_limits_is_refused() {
    let mut load = ReceiveLoad::new(3, 1);
    assert!(matches!(load.dispatch("p", &offer("t1")), Dispatch::TakeOffer));
    match load.dispatch("p", &offer("t2")) {
        Dispatch::Refuse { token, reason } => {
            assert_eq!((token.as_str(), reason), ("t2", "receiver busy"))
        }
        _ => panic!("expected a refusal"),
    }
    assert!(matches!(load.dispatch("q", &offer("t3")), Dispatch::TakeOffer));
    assert!(matches!(load.dispatch("p", &pull("t4")), Dispatch::ServePull));
    assert!(matches!(load.dispatch("r", &pull("t5")), Dispatch::Refuse { .. }));
    assert!(matches!(load.dispatch("r", &offer("t6")), Dispatch::Refuse { .. }));
    load.pull_over();
    assert!(matches!(load.dispatch("r", &offer("t7")), Dispatch::TakeOffer));
    load.offer_over("p");
    assert!(matches!(load.dispatch("p", &offer("t8")), Dispatch::TakeOffer));
    let answer = FtMessage::Accept { token: "t".to_string(), tcp_port: 1 };
    assert!(matches!(load.dispatch("p", &answer), Dispatch::Ignore));
    assert!(matches!(load.dispatch("p", &reject_message("t", "no")), Dispatch::Ignore));
}

#[test]
fn offer_rejected_when_queue_full() {
    assert_eq!(queue_refusal_reason(QueueRefusal::Full), "receiver busy: offer queue full");
    assert!(matches!(
        queue_refused(QueueRefusal::Full),
        TransferError::Rejected(why) if why == "receiver busy: offer queue full"
    ));
    assert!(matches!(
        queue_refused(QueueRefusal::Closed),
        TransferError::Rejected(why) if why == "receiver has no offer channel"
    ));
}

#[test]
fn offers_show_base_names_and_keep_the_limit() {
    let o = receive_offer("p", "n.txt", 10, "d", "../../etc/passwd", "t", 10).unwrap();
    assert_eq!(o.suggested_path, "passwd");
    assert_eq!((o.from_peer.as_str(), o.from_name.as_str(), o.size), ("p", "p", 10));
    let o = receive_offer("p", "n.txt", 10, "d", "..", "t", 10).unwrap();
    assert_eq!(o.suggested_path, "");
    match receive_offer("p", "n.txt", 11, "d", "", "t", 10) {
        Err(TransferError::Protocol(why)) => {
            assert_eq!(why, "Offered file size 11 exceeds max transfer size 10")
        }
        _ => panic!("expected a protocol error"),
    }
}

#[test]
fn decisions_and_their_absence() {
    let yes = OfferDecision::Accept { save_path: "/d".to_string() };
    assert!(matches!(
        take_decision(DecisionNews::Decided(yes)),
        Ok(OfferDecision::Accept { save_path }) if save_path == "/d"
    ));
    assert!(matches!(take_decision(DecisionNews::TimedOut), Err(TransferError::Timeout)));
    assert!(matches!(
        take_decision(DecisionNews::Dropped),
        Err(TransferError::Protocol(why)) if why == "Offer responder dropped without decision"
    ));
    assert!(matches!(offer_refused("no", &Ok(())), TransferError::Rejected(why) if why == "no"));
    assert!(matches!(
        offer_refused("no", &Err("gone".to_string())),
        TransferError::Node(why) if why == "Failed to send REJECT: gone"
    ));
}

#[test]
fn refusals_are_no_failures() {
    let refused = TransferError::Rejected("no".to_string());
    match failure_event("t", "f", &refused, "rejected: no") {
        FileTransferEvent::Rejected { token, file_name, reason } => {
            assert_eq!((token.as_str(), file_name.as_str(), reason.as_str()), ("t", "f", "no"))
        }
        _ => panic!("expected a refusal"),
    }
    match failure_event("t", "f", &TransferError::Timeout, "timed out") {
        FileTransferEvent::Failed { direction, reason, .. } => {
            assert_eq!(reason, "timed out");
            assert!(matches!(direction, TransferDirection::Receive));
        }
        _ => panic!("expected a failure"),
    }
}

#[test]
fn destinations_are_looked_at_first() {
    assert!(check_destination(OverwritePolicy::Reject, false, "/f").is_ok());
    assert!(check_destination(OverwritePolicy::Replace, true, "/f").is_ok());
    assert!(check_destination(OverwritePolicy::Rename, true, "/f").is_ok());
    assert!(matches!(
        check_destination(OverwritePolicy::Reject, true, "/f"),
        Err(TransferError::Rejected(why)) if why == "destination already exists: /f"
    ));
    assert_eq!(temp_path("/d/f.txt", "abc"), "/d/f.txt.abc.truffle-tmp");
    assert!(matches!(not_connected(false), TransferError::Timeout));
    assert!(matches!(
        not_connected(true),
        TransferError::Protocol(why) if why == "Listener closed before accepting"
    ));
    let errand = Errand::OpenTcp { peer: "p".to_string(), port: 9 };
    assert!(matches!(node_failure(&errand, "x"), TransferError::Node(why) if why.ends_with("x")));
}

#[test]
fn answers_to_a_served_file() {
    let m = serve_offer("f".to_string(), 3, "d".to_string(), "t".to_string());
    assert!(matches!(m, FtMessage::Offer { size: 3, tcp_port: 0, .. }));
    let yes = FtMessage::Accept { token: "t".to_string(), tcp_port: 77 };
    assert!(matches!(serve_reply("p", "p", &yes, "t"), Some(Ok(77))));
    assert!(serve_reply("p", "q", &yes, "t").is_none());
    assert!(serve_reply("p", "p", &yes, "u").is_none());
    assert!(matches!(
        serve_reply("p", "p", &reject_message("t", "no"), "t"),
        Some(Err(TransferError::Rejected(why))) if why == "Peer rejected: no"
    ));
    assert!(serve_reply("p", "p", &m, "t").is_none());
    assert!(matches!(unanswered(&RequestError::Timeout), TransferError::Timeout));
    assert!(matches!(
        unanswered(&RequestError::Send("x".to_string())),
        TransferError::Node(why) if why == "Failed to send OFFER: x"
    ));
    assert!(matches!(
        unanswered(&RequestError::ChannelClosed),
        TransferError::Protocol(why) if why == "Channel closed"
    ));
}

// ---------------------------------------------------------------------------
// The stream
// ---------------------------------------------------------------------------

const EMPTY: &str = "e3b0c44298fc1c149afbf4c8996fb92427ae41e4649b934ca495991b7852b855";
const ABC: &str = "ba7816bf8f01cfea414140de5dae2223b00361a396177a9cb410ff61f20015ad";

#[test]
fn digests_of_known_texts() {
    assert_eq!(Digesting::new().finish(), EMPTY);
    let mut d = Digesting::new();
    d.add(b"a");
    d.add(b"bc");
    assert_eq!(d.total(), 3);
    assert_eq!(d.finish(), ABC);
}

#[test]
fn the_head_of_a_stream_reads_back() {
    let bytes = write_header(0x0102030405060708, ABC);
    assert_eq!(bytes.len(), 72);
    assert_eq!(&bytes[..8], &[1, 2, 3, 4, 5, 6, 7, 8]);
    let header = read_header(&bytes);
    assert_eq!(header.size, 0x0102030405060708);
    assert_eq!(header.sha256, ABC);
    assert!(check_header(&header, 0x0102030405060708, ABC, u64::MAX).is_ok());
    assert!(matches!(
        check_header(&header, 1, EMPTY, u64::MAX),
        Err(TransferError::IntegrityError { expected, actual }) if expected == EMPTY && actual == ABC
    ));
    assert!(matches!(
        check_header(&read_header(&write_header(5, ABC)), 6, ABC, 1),
        Err(TransferError::Protocol(why))
            if why == "Size mismatch: offer said 6, stream header says 5"
    ));
    assert!(matches!(
        check_header(&read_header(&write_header(6, ABC)), 6, ABC, 5),
        Err(TransferError::Protocol(why)) if why == "File size 6 exceeds max transfer size 5"
    ));
}

#[test]
fn bytes_that_are_no_text_are_replaced() {
    let mut bytes = vec![0u8; 72];
    for b in bytes.iter_mut().skip(8) {
        *b = b'a';
    }
    bytes[8] = 0xff;
    let header = read_header(&bytes);
    assert_eq!(header.sha256, format!("\u{fffd}{}", "a".repeat(63)));
}

#[test]
fn a_file_is_taken_in_pieces() {
    let mut intake = Intake::begin(3);
    assert_eq!(intake.wanted(), 3);
    intake.take(b"ab");
    assert_eq!((intake.wanted(), intake.received()), (1, 2));
    assert!(matches!(
        intake.cut_short(),
        TransferError::Io(why) if why == "Connection closed after 2/3 bytes"
    ));
    intake.take(b"c");
    assert_eq!(intake.wanted(), 0);
    assert_eq!(intake.finish(ABC).unwrap(), ABC);
    assert!(Intake::begin(1 << 40).wanted() > 0);
    let empty = Intake::begin(0);
    assert_eq!(empty.wanted(), 0);
    assert!(matches!(
        empty.finish(ABC),
        Err(TransferError::IntegrityError { expected, actual }) if expected == ABC && actual == EMPTY
    ));
}

#[test]
fn streams_are_answered() {
    assert_eq!((answer_byte(true), answer_byte(false)), (ACK, NACK));
    assert_ne!(ACK, NACK);
    assert!(check_answer(ACK, ABC).is_ok());
    assert!(matches!(
        check_answer(NACK, ABC),
        Err(TransferError::IntegrityError { expected, actual })
            if expected == ABC && actual == "peer reported integrity failure"
    ));
    assert!(check_answer(0x7f, ABC).is_err());
    assert!(progress_due(250_000_000));
    assert!(!progress_due(249_999_999));
}
