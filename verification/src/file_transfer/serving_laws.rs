//! What a peer that pulls a file gets, over the whole course of its request.
//!
//! All of it is said over what the course is told, and what it asks for in
//! return.
use vstd::prelude::*;

use crate::digest::{hex, sha256};
use crate::file_transfer::header::header_bytes;
use crate::file_transfer::paths::{file_name_of, is_inside};
use crate::file_transfer::receiver::FoundPath;
use crate::file_transfer::serving::{after, PullModel, ServeActionModel, ServeEvent, ServeModel};
use crate::file_transfer::types::{MessageModel, TransferError, TransferErrorModel};
use crate::request_reply::{RequestError, RequestErrorModel};
use crate::text::decimal;

verus! {

/// What was asked for last.
pub open spec fn asked(q: PullModel, events: Seq<ServeEvent>) -> ServeActionModel {
    after(q, events).1
}

/// The bytes that were to be sent until then.
pub open spec fn sent(q: PullModel, events: Seq<ServeEvent>) -> Seq<u8>
    decreases events.len(),
{
    if events.len() == 0 {
        Seq::empty()
    } else {
        match asked(q, events) {
            ServeActionModel::Send(data) => sent(q, events.drop_last()) + data,
            _ => sent(q, events.drop_last()),
        }
    }
}

/// The bytes that were read since the file was last opened.
pub open spec fn read(q: PullModel, events: Seq<ServeEvent>) -> Seq<u8>
    decreases events.len(),
{
    if events.len() == 0 {
        Seq::empty()
    } else {
        let before = events.drop_last();
        match (asked(q, before), events.last()) {
            (ServeActionModel::Open(_), _) => Seq::empty(),
            (ServeActionModel::ReadChunk, ServeEvent::Chunk(Ok(chunk))) => read(q, before)
                + chunk@,
            _ => read(q, before),
        }
    }
}

/// The offer that went out, if one did.
pub open spec fn offered(q: PullModel, events: Seq<ServeEvent>) -> Option<MessageModel>
    decreases events.len(),
{
    if events.len() == 0 {
        None
    } else {
        match asked(q, events) {
            ServeActionModel::Request(m) => Some(m),
            _ => offered(q, events.drop_last()),
        }
    }
}

/// The path and the size of the file, once it was measured.
pub open spec fn measured(q: PullModel, events: Seq<ServeEvent>) -> Option<(Seq<char>, u64)>
    decreases events.len(),
{
    if events.len() == 0 {
        None
    } else {
        let before = events.drop_last();
        match (asked(q, before), events.last()) {
            (ServeActionModel::Measure(path), ServeEvent::Size(Ok(size))) => Some((path, size)),
            _ => measured(q, before),
        }
    }
}

/// The path that was found, if the request got that far.
pub open spec fn found_path(q: PullModel, events: Seq<ServeEvent>) -> Option<Seq<char>> {
    if events.len() == 0 {
        None
    } else {
        match events[0] {
            ServeEvent::Found(Some(f)) => Some(f.path@),
            _ => None,
        }
    }
}

/// What the offer of a file says.
pub open spec fn offer_of(q: PullModel, size: u64, digest: Seq<char>) -> MessageModel {
    MessageModel::Offer {
        file_name: match file_name_of(q.windows, q.path) {
            Some(n) => n,
            None => "file"@,
        },
        size,
        sha256: digest,
        save_path: Seq::empty(),
        token: q.offer_token,
        tcp_port: 0,
    }
}

/// What a stage stands for.
spec fn stands_for(q: PullModel, events: Seq<ServeEvent>) -> bool {
    let a = asked(q, events);
    let quiet = sent(q, events) =~= Seq::empty();
    match after(q, events).0 {
        ServeModel::Resolving => events.len() == 0 && a == ServeActionModel::Resolve(q.path) && quiet
            && offered(q, events) is None && q.roots.len() > 0,
        ServeModel::Denying(why) => a is Tell && quiet && why is Rejected && offered(
            q,
            events,
        ) is None,
        ServeModel::Measuring(path) => a == ServeActionModel::Measure(path) && quiet && offered(
            q,
            events,
        ) is None && found_path(q, events) == Some(path),
        ServeModel::Opening(path, size) => a == ServeActionModel::Open(path) && quiet && offered(
            q,
            events,
        ) is None && measured(q, events) == Some((path, size)) && found_path(q, events) == Some(
            path,
        ),
        ServeModel::Hashing(path, size, data) => a == ServeActionModel::ReadChunk && quiet
            && offered(q, events) is None && measured(q, events) == Some((path, size)) && data
            == read(q, events) && data.len() <= u64::MAX && found_path(q, events) == Some(path),
        ServeModel::Asking(f) => a == ServeActionModel::Request(offer_of(q, f.size, f.sha256))
            && offered(q, events) == Some(offer_of(q, f.size, f.sha256)) && quiet && measured(
            q,
            events,
        ) == Some((f.path, f.size)),
        ServeModel::Connecting(f, port) => a == ServeActionModel::OpenTcp(q.from, port) && quiet
            && offered(q, events) == Some(offer_of(q, f.size, f.sha256)) && measured(q, events)
            == Some((f.path, f.size)),
        ServeModel::Heading(f) => a is Send && sent(q, events) == header_bytes(f.size, f.sha256)
            && offered(q, events) == Some(offer_of(q, f.size, f.sha256)) && measured(q, events)
            == Some((f.path, f.size)),
        ServeModel::Reopening(f) => a == ServeActionModel::Open(f.path) && sent(q, events)
            == header_bytes(f.size, f.sha256) && offered(q, events) == Some(
            offer_of(q, f.size, f.sha256),
        ) && measured(q, events) == Some((f.path, f.size)),
        ServeModel::Reading(f, n) => a is ReadChunk && n == read(q, events).len() && sent(
            q,
            events,
        ) == header_bytes(f.size, f.sha256) + read(q, events) && offered(q, events) == Some(
            offer_of(q, f.size, f.sha256),
        ) && measured(q, events) == Some((f.path, f.size)),
        ServeModel::Sending(f, n) => a is Send && n == read(q, events).len() && n > 0 && sent(
            q,
            events,
        ) == header_bytes(f.size, f.sha256) + read(q, events) && offered(q, events) == Some(
            offer_of(q, f.size, f.sha256),
        ) && measured(q, events) == Some((f.path, f.size)),
        ServeModel::Flushing(f) => a is Flush && sent(q, events) == header_bytes(
            f.size,
            f.sha256,
        ) + read(q, events) && offered(q, events) == Some(offer_of(q, f.size, f.sha256))
            && measured(q, events) == Some((f.path, f.size)),
        ServeModel::Awaiting(f) => a is ReadAnswer && sent(q, events) == header_bytes(
            f.size,
            f.sha256,
        ) + read(q, events) && offered(q, events) == Some(offer_of(q, f.size, f.sha256))
            && measured(q, events) == Some((f.path, f.size)),
        ServeModel::Finished(f) => a == ServeActionModel::Done(Ok(f.sha256)) && sent(q, events)
            == header_bytes(f.size, f.sha256) + read(q, events) && offered(q, events) == Some(
            offer_of(q, f.size, f.sha256),
        ),
        ServeModel::Over => a matches ServeActionModel::Done(Err(_)),
    }
}

proof fn lemma_stands_for(q: PullModel, events: Seq<ServeEvent>)
    ensures
        stands_for(q, events),
    decreases events.len(),
{
    if events.len() > 0 {
        let before = events.drop_last();
        lemma_stands_for(q, before);
        if before.len() > 0 {
            assert(before[0] == events[0]);
        }
        let none = Seq::<u8>::empty();
        match after(q, before).0 {
            ServeModel::Connecting(f, _) => {
                let h = header_bytes(f.size, f.sha256);
                assert(none + h =~= h);
            },
            ServeModel::Reopening(f) => {
                let h = header_bytes(f.size, f.sha256);
                assert(h + none =~= h);
            },
            ServeModel::Reading(f, _) => {
                let h = header_bytes(f.size, f.sha256);
                if let ServeEvent::Chunk(Ok(chunk)) = events.last() {
                    assert(h + read(q, before) + chunk@ =~= h + (read(q, before) + chunk@));
                    if chunk@.len() == 0 {
                        assert(read(q, before) + chunk@ =~= read(q, before));
                    }
                }
            },
            ServeModel::Hashing(_, _, _) => {
                if let ServeEvent::Chunk(Ok(chunk)) = events.last() {
                    if chunk@.len() == 0 {
                        assert(read(q, before) + chunk@ =~= read(q, before));
                    }
                }
            },
            _ => {},
        }
    }
}

/// What is asked for once all was sent.
pub open spec fn ends_the_stream(a: ServeActionModel) -> bool {
    match a {
        ServeActionModel::Flush => true,
        ServeActionModel::ReadAnswer => true,
        ServeActionModel::Done(Ok(_)) => true,
        _ => false,
    }
}

/// Nothing is sent before the offer was accepted. From then on what was sent
/// is the head that the offer promised, and behind it every byte that was read
/// of the file since; the stream ends only where the file does.
pub proof fn law_stream_is_the_file(q: PullModel, events: Seq<ServeEvent>)
    ensures
        offered(q, events) is None ==> sent(q, events).len() == 0,
        ends_the_stream(asked(q, events)) || (asked(q, events) is ReadChunk && offered(q, events)
            is Some) ==> offered(q, events) is Some && offered(q, events)->0 is Offer && sent(
            q,
            events,
        ) == header_bytes(offered(q, events)->0->size, offered(q, events)->0->sha256) + read(
            q,
            events,
        ),
        asked(q, events) is Flush ==> events.len() > 0 && (events.last() matches ServeEvent::Chunk(
            Ok(chunk),
        ) && chunk@.len() == 0),
{
    lemma_stands_for(q, events);
    if events.len() > 0 {
        lemma_stands_for(q, events.drop_last());
    }
    lemma_quiet(q, events);
}

proof fn lemma_quiet(q: PullModel, events: Seq<ServeEvent>)
    ensures
        offered(q, events) is None ==> sent(q, events) =~= Seq::empty(),
    decreases events.len(),
{
    if events.len() > 0 {
        lemma_quiet(q, events.drop_last());
        lemma_stands_for(q, events);
        lemma_stands_for(q, events.drop_last());
    }
}

/// Every chunk that is read goes on: before the offer into the digest, and
/// after it to the peer as it was read. At the end of the file the offer goes
/// out, or the stream is brought to its end.
pub proof fn law_every_chunk_goes_on(q: PullModel, events: Seq<ServeEvent>, chunk: Vec<u8>)
    requires
        asked(q, events) is ReadChunk,
        read(q, events).len() + chunk@.len() <= u64::MAX,
    ensures
        ({
            let then = asked(q, events.push(ServeEvent::Chunk(Ok(chunk))));
            match offered(q, events) {
                None => if chunk@.len() == 0 {
                    then is Request
                } else {
                    then is ReadChunk
                },
                Some(_) => if chunk@.len() == 0 {
                    then is Flush
                } else {
                    then == ServeActionModel::Send(chunk@)
                },
            }
        }),
{
    lemma_stands_for(q, events);
    assert(events.push(ServeEvent::Chunk(Ok(chunk))).drop_last() =~= events);
}

/// An offer says what is true of the file: the size that was measured, and the
/// digest of all bytes that were read of it. It carries its own token, and the
/// last name of the requested path.
pub proof fn law_offer_is_true(q: PullModel, events: Seq<ServeEvent>)
    requires
        asked(q, events) is Request,
    ensures
        measured(q, events) matches Some((path, size)) && asked(q, events)
            == ServeActionModel::Request(
            MessageModel::Offer {
                file_name: match file_name_of(q.windows, q.path) {
                    Some(n) => n,
                    None => "file"@,
                },
                size,
                sha256: hex(sha256(read(q, events))),
                save_path: Seq::empty(),
                token: q.offer_token,
                tcp_port: 0,
            },
        ),
        events.last() matches ServeEvent::Chunk(Ok(chunk)) && chunk@.len() == 0,
{
    lemma_stands_for(q, events);
    let before = events.drop_last();
    lemma_stands_for(q, before);
    if let ServeEvent::Chunk(Ok(chunk)) = events.last() {
        if chunk@.len() == 0 {
            assert(read(q, before) + chunk@ =~= read(q, before));
        }
    }
}

/// A request is judged by what its path turned out to be: a file within the
/// limit, at or below a shared directory, is measured, and every other request
/// refused with words that tell nothing.
pub proof fn law_request_is_judged(q: PullModel, found: Option<FoundPath>)
    requires
        q.roots.len() > 0,
    ensures
        asked(q, seq![]) == ServeActionModel::Resolve(q.path),
        ({
            let then = asked(q, seq![ServeEvent::Found(found)]);
            let served = found is Some && found->0.facts is Some && found->0.facts->0.is_file
                && found->0.facts->0.len <= q.max_size && exists|i: int|
                0 <= i < q.roots.len() && is_inside(
                    q.windows,
                    #[trigger] q.roots[i],
                    found->0.path@,
                );
            if served {
                then == ServeActionModel::Measure(found->0.path@)
            } else {
                then == ServeActionModel::Tell(
                    MessageModel::Reject { token: q.token, reason: "pull denied by peer"@ },
                )
            }
        }),
{
    let events = seq![ServeEvent::Found(found)];
    assert(events.drop_last() =~= seq![]);
}

/// A request without shared directories is refused at once.
pub proof fn law_refused_without_roots(q: PullModel)
    requires
        q.roots.len() == 0,
    ensures
        asked(q, seq![]) == ServeActionModel::Tell(
            MessageModel::Reject { token: q.token, reason: "pull denied by peer"@ },
        ),
{
}

/// What follows where everything works: the file is measured and opened, and
/// read; once the offer is accepted the requester is dialed at the port it
/// named, gets the head, and then the file, which is opened anew.
pub proof fn law_course_goes_on(q: PullModel, events: Seq<ServeEvent>, size: u64, port: u16)
    ensures
        asked(q, events) matches ServeActionModel::Measure(path) ==> asked(
            q,
            events.push(ServeEvent::Size(Ok(size))),
        ) == ServeActionModel::Open(path),
        asked(q, events) is Open ==> asked(q, events.push(ServeEvent::Io(None)))
            == ServeActionModel::ReadChunk,
        asked(q, events) is Request ==> asked(q, events.push(ServeEvent::Reply(Ok(Ok(port)))))
            == ServeActionModel::OpenTcp(q.from, port),
        asked(q, events) is OpenTcp ==> offered(q, events) is Some && asked(
            q,
            events.push(ServeEvent::Io(None)),
        ) == ServeActionModel::Send(
            header_bytes(offered(q, events)->0->size, offered(q, events)->0->sha256),
        ),
        asked(q, events) is Send && asked(q, events.drop_last()) is OpenTcp ==> measured(q, events)
            is Some && asked(q, events.push(ServeEvent::Io(None))) == ServeActionModel::Open(
            (measured(q, events)->0).0,
        ),
        asked(q, events) is Send && !(asked(q, events.drop_last()) is OpenTcp) ==> asked(
            q,
            events.push(ServeEvent::Io(None)),
        ) == ServeActionModel::ReadChunk,
        asked(q, events) is Flush ==> asked(q, events.push(ServeEvent::Io(None)))
            == ServeActionModel::ReadAnswer,
{
    lemma_stands_for(q, events);
    if events.len() > 0 {
        lemma_stands_for(q, events.drop_last());
    }
    assert(events.push(ServeEvent::Size(Ok(size))).drop_last() =~= events);
    assert(events.push(ServeEvent::Io(None)).drop_last() =~= events);
    assert(events.push(ServeEvent::Reply(Ok(Ok(port)))).drop_last() =~= events);
}

/// The peer's answer decides: one is success, and gives the offered digest;
/// any other byte tells that the file did not arrive whole.
pub proof fn law_answer_decides(q: PullModel, events: Seq<ServeEvent>, byte: u8)
    requires
        asked(q, events) is ReadAnswer,
    ensures
        offered(q, events) matches Some(MessageModel::Offer { sha256, .. }) && asked(
            q,
            events.push(ServeEvent::Answer(Ok(byte))),
        ) == ServeActionModel::Done(
            if byte == 1 {
                Ok(sha256)
            } else {
                Err(
                    TransferErrorModel::IntegrityError {
                        expected: sha256,
                        actual: "peer reported integrity failure"@,
                    },
                )
            },
        ),
{
    lemma_stands_for(q, events);
    assert(events.push(ServeEvent::Answer(Ok(byte))).drop_last() =~= events);
}

/// What fails ends the request, with the words of the failure.
pub proof fn law_failures_are_told(
    q: PullModel,
    events: Seq<ServeEvent>,
    why: String,
    refusal: TransferError,
    silence: RequestError,
)
    ensures
        asked(q, events) is Tell ==> asked(
            q,
            events.push(ServeEvent::Told),
        ) matches ServeActionModel::Done(Err(TransferErrorModel::Rejected(_))),
        asked(q, events) is Measure ==> asked(q, events.push(ServeEvent::Size(Err(why))))
            == ServeActionModel::Done(Err(TransferErrorModel::Io(why@))),
        asked(q, events) is Open || asked(q, events) is Send || asked(q, events) is Flush
            ==> asked(q, events.push(ServeEvent::Io(Some(why)))) == ServeActionModel::Done(
            Err(TransferErrorModel::Io(why@)),
        ),
        asked(q, events) is ReadChunk ==> asked(q, events.push(ServeEvent::Chunk(Err(why))))
            == ServeActionModel::Done(Err(TransferErrorModel::Io(why@))),
        asked(q, events) is ReadAnswer ==> asked(q, events.push(ServeEvent::Answer(Err(why))))
            == ServeActionModel::Done(Err(TransferErrorModel::Io(why@))),
        asked(q, events) is Request ==> asked(q, events.push(ServeEvent::Reply(Ok(Err(refusal)))))
            == ServeActionModel::Done(Err(refusal@)),
        asked(q, events) is Request ==> asked(q, events.push(ServeEvent::Reply(Err(silence))))
            == ServeActionModel::Done(
            Err(
                match silence@ {
                    RequestErrorModel::Timeout => TransferErrorModel::Timeout,
                    RequestErrorModel::Send(reason) => TransferErrorModel::Node(
                        "Failed to send OFFER"@ + ": "@ + reason,
                    ),
                    RequestErrorModel::ChannelClosed => TransferErrorModel::Protocol(
                        "Channel closed"@,
                    ),
                },
            ),
        ),
        asked(q, events) matches ServeActionModel::OpenTcp(peer, port) ==> asked(
            q,
            events.push(ServeEvent::Io(Some(why))),
        ) == ServeActionModel::Done(
            Err(
                TransferErrorModel::Node(
                    "Failed to open TCP to "@ + peer + ":"@ + decimal(port as nat) + ": "@ + why@,
                ),
            ),
        ),
{
    lemma_stands_for(q, events);
    assert(events.push(ServeEvent::Told).drop_last() =~= events);
    assert(events.push(ServeEvent::Size(Err(why))).drop_last() =~= events);
    assert(events.push(ServeEvent::Io(Some(why))).drop_last() =~= events);
    assert(events.push(ServeEvent::Chunk(Err(why))).drop_last() =~= events);
    assert(events.push(ServeEvent::Answer(Err(why))).drop_last() =~= events);
    assert(events.push(ServeEvent::Reply(Ok(Err(refusal)))).drop_last() =~= events);
    assert(events.push(ServeEvent::Reply(Err(silence))).drop_last() =~= events);
}

} // verus!
