use truffle::file_transfer::header::write_header;
use truffle::file_transfer::place::{PlaceAction, PlaceEvent};
use truffle::file_transfer::receiver::{DecisionNews, FileFacts, FoundPath, QueueRefusal};
use truffle::file_transfer::reception::{
    ConnectionNews, HeadRead, ReceiveAction, ReceiveEvent, Reception, Terms,
};
use truffle::file_transfer::serving::{Pull, ServeAction, ServeEvent, Serving};
use truffle::file_transfer::types::{
    FileOffer, FileTransferEvent, FtMessage, OfferDecision, OverwritePolicy, TransferError,
};
use truffle::request_reply::RequestError;

const ABC: &str = "ba7816bf8f01cfea414140de5dae2223b00361a396177a9cb410ff61f20015ad";
const EMPTY: &str = "e3b0c44298fc1c149afbf4c8996fb92427ae41e4649b934ca495991b7852b855";

fn terms(size: u64, sha256: &str) -> Terms {
    Terms {
        file_name: "abc.txt".to_string(),
        size,
        sha256: sha256.to_string(),
        token: "t".to_string(),
        unique: "u".to_string(),
        windows: false,
    }
}

fn accept(save_path: &str) -> ReceiveEvent {
    ReceiveEvent::Decision(DecisionNews::Decided(OfferDecision::Accept {
        save_path: save_path.to_string(),
    }))
}

/// Brings a transfer to the head of its stream.
fn connected(terms: Terms, policy: OverwritePolicy) -> Reception {
    let (mut r, action) = Reception::begin(terms);
    assert!(matches!(action, ReceiveAction::Announce));
    assert!(matches!(r.next(ReceiveEvent::Queued(None)), ReceiveAction::AwaitDecision));
    assert!(matches!(r.next(accept("/d/")), ReceiveAction::ProbeDir { path } if path == "/d/"));
    let mut action = r.next(ReceiveEvent::Directory { is_dir: true, policy });
    if policy == OverwritePolicy::Reject {
        assert!(matches!(action, ReceiveAction::ProbeDest { path } if path == "/d/abc.txt"));
        action = r.next(ReceiveEvent::Occupied(false));
    }
    assert!(matches!(action, ReceiveAction::MakeParent { path } if path == "/d/abc.txt"));
    assert!(matches!(r.next(ReceiveEvent::Io(None)), ReceiveAction::Listen));
    assert!(matches!(
        r.next(ReceiveEvent::Listening(Ok(77))),
        ReceiveAction::Tell(FtMessage::Accept { token, tcp_port: 77 }) if token == "t"
    ));
    assert!(matches!(r.next(ReceiveEvent::Told(None)), ReceiveAction::AwaitConnection));
    assert!(matches!(
        r.next(ReceiveEvent::Connection(ConnectionNews::Connected)),
        ReceiveAction::ReadHeader
    ));
    r
}

fn head(size: u64, sha256: &str) -> ReceiveEvent {
    ReceiveEvent::Header(Ok(HeadRead { bytes: write_header(size, sha256), max_size: 100 }))
}

fn chunk(data: &[u8]) -> ReceiveEvent {
    ReceiveEvent::Chunk(Ok(data.to_vec()))
}

fn error(action: ReceiveAction) -> TransferError {
    match action {
        ReceiveAction::Done(Err(e)) => e,
        _ => panic!("expected the end of the transfer"),
    }
}

#[test]
fn a_file_is_received() {
    let mut r = connected(terms(3, ABC), OverwritePolicy::Reject);
    assert!(matches!(
        r.next(head(3, ABC)),
        ReceiveAction::CreateTemp { path } if path == "/d/abc.txt.u.truffle-tmp"
    ));
    assert!(matches!(r.next(ReceiveEvent::Io(None)), ReceiveAction::ReadChunk { at_most: 3 }));
    assert!(r.progress(u64::MAX, 0).is_none());
    assert!(matches!(r.next(chunk(b"ab")), ReceiveAction::WriteChunk { data } if data == b"ab"));
    assert!(matches!(r.next(ReceiveEvent::Io(None)), ReceiveAction::ReadChunk { at_most: 1 }));
    assert!(r.progress(249_999_999, 0).is_none());
    let p = r.progress(250_000_000, 7).unwrap();
    assert_eq!((p.bytes_transferred, p.total_bytes, p.speed_bps_bits), (2, 3, 7));
    assert!(matches!(r.next(chunk(b"c")), ReceiveAction::WriteChunk { .. }));
    assert!(matches!(r.next(ReceiveEvent::Io(None)), ReceiveAction::Flush));
    assert!(matches!(
        r.next(ReceiveEvent::Io(None)),
        ReceiveAction::Place(PlaceAction::Link { to }) if to == "/d/abc.txt"
    ));
    assert!(matches!(
        r.next(ReceiveEvent::Placed(PlaceEvent::Worked)),
        ReceiveAction::Place(PlaceAction::Remove)
    ));
    assert!(matches!(
        r.next(ReceiveEvent::Placed(PlaceEvent::Worked)),
        ReceiveAction::Answer { byte: 1 }
    ));
    assert!(matches!(r.next(ReceiveEvent::Io(None)), ReceiveAction::Settle));
    let ReceiveAction::Done(result) = r.next(ReceiveEvent::Settled) else {
        panic!("expected the end of the transfer");
    };
    assert_eq!(result.as_deref().unwrap(), "/d/abc.txt");
    match r.closing_event(&result, "", 5) {
        FileTransferEvent::Completed { bytes_transferred, sha256, elapsed_secs_bits, .. } => {
            assert_eq!((bytes_transferred, sha256.as_str(), elapsed_secs_bits), (3, ABC, 5))
        }
        _ => panic!("expected a completed transfer"),
    }
}

#[test]
fn an_empty_file_is_received() {
    let mut r = connected(terms(0, EMPTY), OverwritePolicy::Replace);
    assert!(matches!(r.next(head(0, EMPTY)), ReceiveAction::CreateTemp { .. }));
    assert!(matches!(r.next(ReceiveEvent::Io(None)), ReceiveAction::Flush));
    assert!(matches!(
        r.next(ReceiveEvent::Io(None)),
        ReceiveAction::Place(PlaceAction::Rename { .. })
    ));
}

#[test]
fn other_bytes_are_refused() {
    let mut r = connected(terms(3, ABC), OverwritePolicy::Rename);
    r.next(head(3, ABC));
    r.next(ReceiveEvent::Io(None));
    r.next(chunk(b"abd"));
    assert!(matches!(r.next(ReceiveEvent::Io(None)), ReceiveAction::Flush));
    assert!(matches!(r.next(ReceiveEvent::Io(None)), ReceiveAction::Answer { byte: 0 }));
    assert!(matches!(r.next(ReceiveEvent::Io(None)), ReceiveAction::RemoveTemp));
    assert!(matches!(
        error(r.next(ReceiveEvent::Removed)),
        TransferError::IntegrityError { expected, .. } if expected == ABC
    ));
}

#[test]
fn a_stream_that_ends_early_is_cleaned_up() {
    let mut r = connected(terms(3, ABC), OverwritePolicy::Rename);
    r.next(head(3, ABC));
    r.next(ReceiveEvent::Io(None));
    r.next(chunk(b"a"));
    r.next(ReceiveEvent::Io(None));
    assert!(matches!(r.next(chunk(b"")), ReceiveAction::RemoveTemp));
    assert!(matches!(
        error(r.next(ReceiveEvent::Removed)),
        TransferError::Io(why) if why == "Connection closed after 1/3 bytes"
    ));
}

#[test]
fn a_head_that_breaks_the_offer_ends_the_transfer() {
    let mut r = connected(terms(3, ABC), OverwritePolicy::Rename);
    assert!(matches!(error(r.next(head(4, ABC))), TransferError::Protocol(_)));
    let mut r = connected(terms(3, ABC), OverwritePolicy::Rename);
    assert!(matches!(error(r.next(head(3, EMPTY))), TransferError::IntegrityError { .. }));
    let mut r = connected(terms(101, ABC), OverwritePolicy::Rename);
    assert!(matches!(error(r.next(head(101, ABC))), TransferError::Protocol(_)));
    let mut r = connected(terms(3, ABC), OverwritePolicy::Rename);
    let cut = ReceiveEvent::Header(Err("early eof".to_string()));
    assert!(matches!(error(r.next(cut)), TransferError::Io(why) if why == "early eof"));
}

#[test]
fn an_occupied_place_refuses_before_any_byte() {
    let (mut r, _) = Reception::begin(terms(3, ABC));
    r.next(ReceiveEvent::Queued(None));
    r.next(accept("/d/f"));
    r.next(ReceiveEvent::Directory { is_dir: false, policy: OverwritePolicy::Reject });
    assert!(matches!(
        r.next(ReceiveEvent::Occupied(true)),
        ReceiveAction::Tell(FtMessage::Reject { reason, .. }) if reason == "destination already exists"
    ));
    let e = error(r.next(ReceiveEvent::Told(Some("gone".to_string()))));
    assert!(matches!(e, TransferError::Rejected(why) if why == "destination already exists: /d/f"));
}

#[test]
fn offers_are_refused() {
    let (mut r, _) = Reception::begin(terms(3, ABC));
    assert!(matches!(
        r.next(ReceiveEvent::Queued(Some(QueueRefusal::Full))),
        ReceiveAction::Tell(FtMessage::Reject { token, reason })
            if token == "t" && reason == "receiver busy: offer queue full"
    ));
    assert!(matches!(error(r.next(ReceiveEvent::Told(None))), TransferError::Rejected(_)));

    let no = || {
        ReceiveEvent::Decision(DecisionNews::Decided(OfferDecision::Reject {
            reason: "no".to_string(),
        }))
    };
    let (mut r, _) = Reception::begin(terms(3, ABC));
    r.next(ReceiveEvent::Queued(None));
    assert!(matches!(r.next(no()), ReceiveAction::Tell(FtMessage::Reject { .. })));
    let result = Err(error(r.next(ReceiveEvent::Told(None))));
    assert!(matches!(
        r.closing_event(&result, "", 0),
        FileTransferEvent::Rejected { reason, .. } if reason == "no"
    ));

    let (mut r, _) = Reception::begin(terms(3, ABC));
    r.next(ReceiveEvent::Queued(None));
    r.next(no());
    let e = error(r.next(ReceiveEvent::Told(Some("x".to_string()))));
    assert!(matches!(&e, TransferError::Node(why) if why == "Failed to send REJECT: x"));
    assert!(matches!(
        r.closing_event(&Err(e), "shown", 0),
        FileTransferEvent::Failed { reason, .. } if reason == "shown"
    ));

    let (mut r, _) = Reception::begin(terms(3, ABC));
    r.next(ReceiveEvent::Queued(None));
    let e = error(r.next(ReceiveEvent::Decision(DecisionNews::TimedOut)));
    assert!(matches!(e, TransferError::Timeout));
}

#[test]
fn unsafe_names_and_failures_end_the_transfer() {
    let mut t = terms(3, ABC);
    t.file_name = "..".to_string();
    let (mut r, _) = Reception::begin(t);
    r.next(ReceiveEvent::Queued(None));
    r.next(accept("/d/"));
    let e = error(r.next(ReceiveEvent::Directory { is_dir: true, policy: OverwritePolicy::Rename }));
    assert!(matches!(
        e,
        TransferError::Protocol(why) if why == "Rejected unsafe file name from peer: \"..\""
    ));
    let (mut r, _) = Reception::begin(terms(3, ABC));
    assert!(matches!(
        error(r.next(ReceiveEvent::Settled)),
        TransferError::Protocol(why) if why == "unexpected event"
    ));
    let mut r = connected(terms(3, ABC), OverwritePolicy::Rename);
    r.next(head(3, ABC));
    let e = error(r.next(ReceiveEvent::Io(Some("disk full".to_string()))));
    assert!(matches!(e, TransferError::Io(why) if why == "disk full"));
    // More bytes than were asked for are no chunk.
    let mut r = connected(terms(3, ABC), OverwritePolicy::Rename);
    r.next(head(3, ABC));
    r.next(ReceiveEvent::Io(None));
    assert!(matches!(error(r.next(chunk(b"abcd"))), TransferError::Protocol(_)));
}

// ---------------------------------------------------------------------------
// Serving
// ---------------------------------------------------------------------------

fn pull(roots: &[&str]) -> Pull {
    Pull {
        from: "p".to_string(),
        path: "/srv/./abc.txt".to_string(),
        token: "t".to_string(),
        offer_token: "o".to_string(),
        roots: roots.iter().map(|s| s.to_string()).collect(),
        max_size: 100,
        windows: false,
    }
}

fn found(path: &str) -> ServeEvent {
    ServeEvent::Found(Some(FoundPath {
        path: path.to_string(),
        facts: Some(FileFacts { is_file: true, len: 3 }),
    }))
}

fn failure(action: ServeAction) -> TransferError {
    match action {
        ServeAction::Done(Err(e)) => e,
        _ => panic!("expected the end of the request"),
    }
}

/// Brings a request to the answer of its offer.
fn asked() -> Serving {
    let (mut s, action) = Serving::begin(pull(&["/srv"]));
    assert!(matches!(action, ServeAction::Resolve { path } if path == "/srv/./abc.txt"));
    assert!(matches!(
        s.next(found("/srv/abc.txt")),
        ServeAction::Measure { path } if path == "/srv/abc.txt"
    ));
    assert!(matches!(s.next(ServeEvent::Size(Ok(3))), ServeAction::Open { .. }));
    assert!(matches!(s.next(ServeEvent::Io(None)), ServeAction::ReadChunk));
    assert!(matches!(s.next(ServeEvent::Chunk(Ok(b"ab".to_vec()))), ServeAction::ReadChunk));
    assert!(matches!(s.next(ServeEvent::Chunk(Ok(b"c".to_vec()))), ServeAction::ReadChunk));
    match s.next(ServeEvent::Chunk(Ok(vec![]))) {
        ServeAction::Request(FtMessage::Offer { file_name, size, sha256, token, .. }) => {
            assert_eq!((file_name.as_str(), size), ("abc.txt", 3));
            assert_eq!((sha256.as_str(), token.as_str()), (ABC, "o"));
        }
        _ => panic!("expected the offer"),
    }
    s
}

#[test]
fn handle_pull_request_denied_by_default() {
    let (mut s, action) = Serving::begin(pull(&[]));
    assert!(matches!(
        action,
        ServeAction::Tell(FtMessage::Reject { token, reason })
            if token == "t" && reason == "pull denied by peer"
    ));
    assert!(matches!(failure(s.next(ServeEvent::Told)), TransferError::Rejected(_)));
}

#[test]
fn what_is_not_shared_is_not_served() {
    let (mut s, _) = Serving::begin(pull(&["/srv"]));
    assert!(matches!(s.next(found("/etc/abc.txt")), ServeAction::Tell(FtMessage::Reject { .. })));
    assert!(matches!(
        failure(s.next(ServeEvent::Told)),
        TransferError::Rejected(why) if why == "requested path is not shared"
    ));
}

#[test]
fn a_file_is_served() {
    let mut s = asked();
    assert!(matches!(
        s.next(ServeEvent::Reply(Ok(Ok(9)))),
        ServeAction::OpenTcp { peer, port: 9 } if peer == "p"
    ));
    assert!(matches!(
        s.next(ServeEvent::Io(None)),
        ServeAction::Send { data } if data == write_header(3, ABC)
    ));
    assert!(matches!(s.next(ServeEvent::Io(None)), ServeAction::Open { .. }));
    assert!(matches!(s.next(ServeEvent::Io(None)), ServeAction::ReadChunk));
    assert!(s.progress(u64::MAX, 0).is_none());
    assert!(matches!(
        s.next(ServeEvent::Chunk(Ok(b"abc".to_vec()))),
        ServeAction::Send { data } if data == b"abc"
    ));
    assert!(matches!(s.next(ServeEvent::Io(None)), ServeAction::ReadChunk));
    assert_eq!(s.progress(u64::MAX, 0).unwrap().bytes_transferred, 3);
    assert!(matches!(s.next(ServeEvent::Chunk(Ok(vec![]))), ServeAction::Flush));
    assert!(matches!(s.next(ServeEvent::Io(None)), ServeAction::ReadAnswer));
    assert!(s.completed_event(0).is_none());
    assert!(matches!(s.next(ServeEvent::Answer(Ok(1))), ServeAction::Done(Ok(d)) if d == ABC));
    match s.completed_event(8) {
        Some(FileTransferEvent::Completed { token, bytes_transferred, sha256, .. }) => {
            assert_eq!((token.as_str(), bytes_transferred, sha256.as_str()), ("o", 3, ABC))
        }
        _ => panic!("expected a completed transfer"),
    }
}

#[test]
fn requests_fail() {
    let mut s = asked();
    let no = TransferError::Rejected("Peer rejected: no".to_string());
    assert!(matches!(
        failure(s.next(ServeEvent::Reply(Ok(Err(no))))),
        TransferError::Rejected(why) if why == "Peer rejected: no"
    ));
    let mut s = asked();
    assert!(matches!(
        failure(s.next(ServeEvent::Reply(Err(RequestError::Timeout)))),
        TransferError::Timeout
    ));
    let mut s = asked();
    s.next(ServeEvent::Reply(Ok(Ok(9))));
    assert!(matches!(
        failure(s.next(ServeEvent::Io(Some("refused".to_string())))),
        TransferError::Node(why) if why == "Failed to open TCP to p:9: refused"
    ));
    let mut s = asked();
    s.next(ServeEvent::Reply(Ok(Ok(9))));
    s.next(ServeEvent::Io(None));
    s.next(ServeEvent::Io(None));
    s.next(ServeEvent::Io(None));
    s.next(ServeEvent::Chunk(Ok(vec![])));
    s.next(ServeEvent::Io(None));
    assert!(matches!(
        failure(s.next(ServeEvent::Answer(Ok(0)))),
        TransferError::IntegrityError { actual, .. } if actual == "peer reported integrity failure"
    ));
    let mut s = asked();
    assert!(matches!(failure(s.next(ServeEvent::Told)), TransferError::Protocol(_)));
}

#[test]
fn files_are_served_from_windows_roots() {
    let mut asked = pull(&["\\\\?\\C:\\srv"]);
    asked.path = "C:\\srv\\abc.txt".to_string();
    asked.windows = true;
    let (mut s, _) = Serving::begin(asked);
    let file = "\\\\?\\C:\\srv\\abc.txt";
    assert!(matches!(s.next(found(file)), ServeAction::Measure { path } if path == file));
    assert!(matches!(s.next(ServeEvent::Size(Ok(0))), ServeAction::Open { .. }));
    assert!(matches!(s.next(ServeEvent::Io(None)), ServeAction::ReadChunk));
    assert!(matches!(
        s.next(ServeEvent::Chunk(Ok(vec![]))),
        ServeAction::Request(FtMessage::Offer { file_name, .. }) if file_name == "abc.txt"
    ));
}

#[test]
fn courses_get_random_ids() {
    let offer = FileOffer {
        from_peer: "n1".to_string(),
        from_name: "One".to_string(),
        file_name: "a.txt".to_string(),
        size: 3,
        sha256: "0".repeat(64),
        suggested_path: String::new(),
        token: "t".to_string(),
    };
    let (one, first) = Reception::of_offer(&offer, false);
    let (two, _) = Reception::of_offer(&offer, false);
    assert!(matches!(first, ReceiveAction::Announce));
    assert_eq!(one.terms.file_name, "a.txt");
    assert_eq!(one.terms.size, 3);
    assert_eq!(one.terms.token, "t");
    assert_eq!(one.terms.unique.len(), 36);
    assert_ne!(one.terms.unique, two.terms.unique);

    let (serving, action) = Serving::of_request(
        "n1".to_string(),
        "/shared/a.txt".to_string(),
        "t".to_string(),
        vec!["/shared".to_string()],
        9,
        false,
    );
    assert!(matches!(action, ServeAction::Resolve { path } if path == "/shared/a.txt"));
    assert_eq!(serving.pull.token, "t");
    assert_eq!(serving.pull.offer_token.len(), 36);
    assert_ne!(serving.pull.offer_token, "t");
}
