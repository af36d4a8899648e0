//! What subscribers are told.
use vstd::prelude::*;

use crate::daemon::handler::lowered;
use crate::daemon::protocol::{
    notification_model, DaemonNotification, NotificationModel, NotificationNames,
};
use crate::file_transfer::types::{FileTransferEvent, TransferDirection};
use crate::json::{json_opt, json_text, text_or_null, Fields, Json, JsonModel};
use crate::session::peer::{PeerEvent, PeerModel, PeerState};
use crate::text::{contains_part, has_part, lowercase, opt_text, owned, to_lower};

verus! {

/// `chrono::Utc::now`, as `to_rfc3339` writes it: the time of the call. Which
/// one is not said: that is up to the clock. It panics where the clock stands
/// before 1970.
#[verifier::external_body]
fn time_text() -> (r: String) {
    chrono::Utc::now().to_rfc3339()
}

// ---------------------------------------------------------------------------
// Filters
// ---------------------------------------------------------------------------

/// A name fits a filter, both in lower case: it holds the filter's text.
pub open spec fn fits(lowered: Seq<char>, filter: Option<Seq<char>>) -> bool {
    match filter {
        Some(f) => has_part(lowered, f),
        None => true,
    }
}

/// Whether a name fits a filter, both in lower case.
pub fn fits_filter(lowered: &str, filter: &Option<String>) -> (r: bool)
    ensures
        r == fits(lowered@, opt_text(*filter)),
{
    match filter {
        Some(f) => contains_part(lowered, f.as_str()),
        None => true,
    }
}

/// Whether a name or id fits a filter, whatever the case of either.
pub fn matches_peer_filter(name: &str, filter: &Option<String>) -> (r: bool)
    ensures
        r == fits(lowercase(name@), lowered(opt_text(*filter))),
{
    let low: String = to_lower(name);
    let sought: Option<String> = match filter {
        Some(f) => Some(to_lower(f.as_str())),
        None => None,
    };
    fits_filter(low.as_str(), &sought)
}

// ---------------------------------------------------------------------------
// Peers
// ---------------------------------------------------------------------------

/// The name that an entry is shown under: the one its device gave itself, and
/// before that the host name.
pub open spec fn shown_name(s: PeerModel) -> Seq<char> {
    match s.identity {
        Some(i) => i.device_name,
        None => s.name,
    }
}

pub open spec fn joined_params(s: PeerModel, name: Seq<char>, now: Seq<char>) -> JsonModel {
    JsonModel::Object(
        seq![
            ("type"@, JsonModel::Text(name)),
            ("peer"@, JsonModel::Text(shown_name(s))),
            ("device_id"@, text_or_null(s.published())),
            ("device_name"@, JsonModel::Text(shown_name(s))),
            ("tailscale_id"@, JsonModel::Text(s.id)),
            ("ip"@, JsonModel::Text(s.ip)),
            ("os"@, text_or_null(s.os)),
            ("time"@, JsonModel::Text(now)),
        ],
    )
}

pub open spec fn updated_params(s: PeerModel, name: Seq<char>, now: Seq<char>) -> JsonModel {
    JsonModel::Object(
        seq![
            ("type"@, JsonModel::Text(name)),
            ("peer"@, JsonModel::Text(shown_name(s))),
            ("device_id"@, text_or_null(s.published())),
            ("device_name"@, JsonModel::Text(shown_name(s))),
            ("tailscale_id"@, JsonModel::Text(s.id)),
            ("ip"@, JsonModel::Text(s.ip)),
            ("online"@, JsonModel::Bool(s.online)),
            ("ws_connected"@, JsonModel::Bool(s.ws_connected)),
            ("time"@, JsonModel::Text(now)),
        ],
    )
}

pub open spec fn left_params(id: Seq<char>, name: Seq<char>, now: Seq<char>) -> JsonModel {
    JsonModel::Object(
        seq![
            ("type"@, JsonModel::Text(name)),
            ("peer"@, JsonModel::Text(id)),
            ("tailscale_id"@, JsonModel::Text(id)),
            ("time"@, JsonModel::Text(now)),
        ],
    )
}

pub open spec fn link_params(id: Seq<char>, name: Seq<char>, now: Seq<char>) -> JsonModel {
    JsonModel::Object(
        seq![
            ("type"@, JsonModel::Text(name)),
            ("peer"@, JsonModel::Text(id)),
            ("time"@, JsonModel::Text(now)),
        ],
    )
}

/// The name or id by which a filter knows an event; `None` for events that
/// subscribers are not told.
pub open spec fn filtered_by(e: PeerEvent) -> Option<Seq<char>> {
    match e {
        PeerEvent::Joined(s) => Some(shown_name(s@)),
        PeerEvent::Left(s) => Some(s@.id),
        PeerEvent::Updated(s) => Some(shown_name(s@)),
        PeerEvent::Identity(s) => Some(shown_name(s@)),
        PeerEvent::WsConnected(id) => Some(id@),
        PeerEvent::WsDisconnected(id) => Some(id@),
        PeerEvent::AuthRequired { .. } => None,
    }
}

/// What subscribers are told of an event that fits their filter.
pub open spec fn peer_notice(e: PeerEvent, names: NotificationNames, now: Seq<char>) -> Option<
    NotificationModel,
> {
    match e {
        PeerEvent::Joined(s) => Some(
            NotificationModel {
                method: names.peer_joined@,
                params: joined_params(s@, names.peer_joined@, now),
            },
        ),
        PeerEvent::Left(s) => Some(
            NotificationModel {
                method: names.peer_left@,
                params: left_params(s@.id, names.peer_left@, now),
            },
        ),
        PeerEvent::Updated(s) => Some(
            NotificationModel {
                method: names.peer_updated@,
                params: updated_params(s@, names.peer_updated@, now),
            },
        ),
        PeerEvent::Identity(s) => Some(
            NotificationModel {
                method: names.peer_updated@,
                params: updated_params(s@, names.peer_updated@, now),
            },
        ),
        PeerEvent::WsConnected(id) => Some(
            NotificationModel {
                method: names.peer_ws_connected@,
                params: link_params(id@, names.peer_ws_connected@, now),
            },
        ),
        PeerEvent::WsDisconnected(id) => Some(
            NotificationModel {
                method: names.peer_ws_disconnected@,
                params: link_params(id@, names.peer_ws_disconnected@, now),
            },
        ),
        PeerEvent::AuthRequired { .. } => None,
    }
}

fn show_name(s: &PeerState) -> (r: String)
    ensures
        r@ == shown_name(s@),
{
    match &s.identity {
        Some(i) => i.device_name.clone(),
        None => s.name.clone(),
    }
}

fn json_published(s: &PeerState) -> (r: Json)
    ensures
        r@ == text_or_null(s@.published()),
{
    match s.published_device_id() {
        Some(d) => json_text(d),
        None => Json::Null,
    }
}

fn joined_json(s: &PeerState, name: &str, now: &str) -> (r: Json)
    ensures
        r@ == joined_params(s@, name@, now@),
{
    let shown: String = show_name(s);
    let f: Fields = Fields::new().put("type", json_text(name)).put(
        "peer",
        json_text(shown.as_str()),
    ).put("device_id", json_published(s)).put("device_name", json_text(shown.as_str())).put(
        "tailscale_id",
        json_text(s.id.as_str()),
    ).put("ip", json_text(s.ip.as_str())).put("os", json_opt(&s.os)).put("time", json_text(now));
    assert(f.model() =~= joined_params(s@, name@, now@)->Object_0);
    f.done()
}

fn updated_json(s: &PeerState, name: &str, now: &str) -> (r: Json)
    ensures
        r@ == updated_params(s@, name@, now@),
{
    let shown: String = show_name(s);
    let f: Fields = Fields::new().put("type", json_text(name)).put(
        "peer",
        json_text(shown.as_str()),
    ).put("device_id", json_published(s)).put("device_name", json_text(shown.as_str())).put(
        "tailscale_id",
        json_text(s.id.as_str()),
    ).put("ip", json_text(s.ip.as_str())).put("online", Json::Bool(s.online)).put(
        "ws_connected",
        Json::Bool(s.ws_connected),
    ).put("time", json_text(now));
    assert(f.model() =~= updated_params(s@, name@, now@)->Object_0);
    f.done()
}

fn left_json(id: &str, name: &str, now: &str) -> (r: Json)
    ensures
        r@ == left_params(id@, name@, now@),
{
    let f: Fields = Fields::new().put("type", json_text(name)).put("peer", json_text(id)).put(
        "tailscale_id",
        json_text(id),
    ).put("time", json_text(now));
    assert(f.model() =~= left_params(id@, name@, now@)->Object_0);
    f.done()
}

fn link_json(id: &str, name: &str, now: &str) -> (r: Json)
    ensures
        r@ == link_params(id@, name@, now@),
{
    let f: Fields = Fields::new().put("type", json_text(name)).put("peer", json_text(id)).put(
        "time",
        json_text(now),
    );
    assert(f.model() =~= link_params(id@, name@, now@)->Object_0);
    f.done()
}

/// What subscribers with a filter are told of an event at a time.
pub open spec fn peer_told(
    event: PeerEvent,
    filter: Option<Seq<char>>,
    names: NotificationNames,
    now: Seq<char>,
) -> Option<NotificationModel> {
    match filtered_by(event) {
        Some(name) => if fits(lowercase(name), lowered(filter)) {
            peer_notice(event, names, now)
        } else {
            None
        },
        None => None,
    }
}

/// What subscribers are told of an event, if it fits their filter.
pub fn peer_event_to_notification(
    event: &PeerEvent,
    filter: &Option<String>,
    names: &NotificationNames,
) -> (r: Option<DaemonNotification>)
    ensures
        exists|now: Seq<char>|
            notification_model(r) == #[trigger] peer_told(*event, opt_text(*filter), *names, now),
{
    let now: String = time_text();
    peer_notification_at(event, filter, names, now.as_str())
}

/// What subscribers are told of an event at a time, if it fits their filter.
/// `now` is the time as it is shown.
pub fn peer_notification_at(
    event: &PeerEvent,
    filter: &Option<String>,
    names: &NotificationNames,
    now: &str,
) -> (r: Option<DaemonNotification>)
    ensures
        notification_model(r) == peer_told(*event, opt_text(*filter), *names, now@),
{
    let key: String = match event {
        PeerEvent::Joined(s) => show_name(s),
        PeerEvent::Left(s) => s.id.clone(),
        PeerEvent::Updated(s) => show_name(s),
        PeerEvent::Identity(s) => show_name(s),
        PeerEvent::WsConnected(id) => id.clone(),
        PeerEvent::WsDisconnected(id) => id.clone(),
        PeerEvent::AuthRequired { .. } => return None,
    };
    if !matches_peer_filter(key.as_str(), filter) {
        return None;
    }
    match event {
        PeerEvent::Joined(s) => Some(
            DaemonNotification {
                method: names.peer_joined.clone(),
                params: joined_json(s, names.peer_joined.as_str(), now),
            },
        ),
        PeerEvent::Left(s) => Some(
            DaemonNotification {
                method: names.peer_left.clone(),
                params: left_json(s.id.as_str(), names.peer_left.as_str(), now),
            },
        ),
        PeerEvent::Updated(s) => Some(
            DaemonNotification {
                method: names.peer_updated.clone(),
                params: updated_json(s, names.peer_updated.as_str(), now),
            },
        ),
        PeerEvent::Identity(s) => Some(
            DaemonNotification {
                method: names.peer_updated.clone(),
                params: updated_json(s, names.peer_updated.as_str(), now),
            },
        ),
        PeerEvent::WsConnected(id) => Some(
            DaemonNotification {
                method: names.peer_ws_connected.clone(),
                params: link_json(id.as_str(), names.peer_ws_connected.as_str(), now),
            },
        ),
        PeerEvent::WsDisconnected(id) => Some(
            DaemonNotification {
                method: names.peer_ws_disconnected.clone(),
                params: link_json(id.as_str(), names.peer_ws_disconnected.as_str(), now),
            },
        ),
        PeerEvent::AuthRequired { .. } => None,
    }
}

// ---------------------------------------------------------------------------
// Messages
// ---------------------------------------------------------------------------

/// A message in a namespace.
#[derive(Debug)]
pub struct NamespacedMessage {
    pub from: String,
    pub namespace: String,
    pub msg_type: String,
    pub payload: Json,
}

pub open spec fn message_params(m: NamespacedMessage, name: Seq<char>, now: Seq<char>) -> JsonModel {
    JsonModel::Object(
        seq![
            ("type"@, JsonModel::Text(name)),
            ("from"@, JsonModel::Text(m.from@)),
            ("namespace"@, JsonModel::Text(m.namespace@)),
            ("msg_type"@, JsonModel::Text(m.msg_type@)),
            ("payload"@, m.payload@),
            ("time"@, JsonModel::Text(now)),
        ],
    )
}

/// What subscribers with a filter are told of a message at a time.
pub open spec fn message_told(
    msg: NamespacedMessage,
    filter: Option<Seq<char>>,
    names: NotificationNames,
    now: Seq<char>,
) -> Option<NotificationModel> {
    if fits(lowercase(msg.from@), lowered(filter)) {
        Some(
            NotificationModel {
                method: names.message_received@,
                params: message_params(msg, names.message_received@, now),
            },
        )
    } else {
        None
    }
}

/// What subscribers are told of a message, if its sender fits their filter.
pub fn message_to_notification(
    msg: NamespacedMessage,
    filter: &Option<String>,
    names: &NotificationNames,
) -> (r: Option<DaemonNotification>)
    ensures
        exists|now: Seq<char>|
            notification_model(r) == #[trigger] message_told(msg, opt_text(*filter), *names, now),
{
    let now: String = time_text();
    message_notification_at(msg, filter, names, now.as_str())
}

/// What subscribers are told of a message at a time, if its sender fits their
/// filter.
pub fn message_notification_at(
    msg: NamespacedMessage,
    filter: &Option<String>,
    names: &NotificationNames,
    now: &str,
) -> (r: Option<DaemonNotification>)
    ensures
        notification_model(r) == message_told(msg, opt_text(*filter), *names, now@),
{
    if !matches_peer_filter(msg.from.as_str(), filter) {
        return None;
    }
    let f: Fields = Fields::new().put("type", json_text(names.message_received.as_str())).put(
        "from",
        json_text(msg.from.as_str()),
    ).put("namespace", json_text(msg.namespace.as_str())).put(
        "msg_type",
        json_text(msg.msg_type.as_str()),
    ).put("payload", msg.payload).put("time", json_text(now));
    assert(f.model() =~= message_params(msg, names.message_received@, now@)->Object_0);
    Some(DaemonNotification { method: names.message_received.clone(), params: f.done() })
}

// ---------------------------------------------------------------------------
// Transfers
// ---------------------------------------------------------------------------

pub open spec fn direction_word(d: TransferDirection) -> Seq<char> {
    match d {
        TransferDirection::Send => "Send"@,
        TransferDirection::Receive => "Receive"@,
    }
}

fn json_direction(d: TransferDirection) -> (r: Json)
    ensures
        r@ == JsonModel::Text(direction_word(d)),
{
    match d {
        TransferDirection::Send => json_text("Send"),
        TransferDirection::Receive => json_text("Receive"),
    }
}

/// What the notification of an event of a transfer is called.
pub open spec fn transfer_word(e: FileTransferEvent) -> Seq<char> {
    match e {
        FileTransferEvent::OfferReceived(_) => "transfer.offer_received"@,
        FileTransferEvent::Hashing { .. } => "transfer.hashing"@,
        FileTransferEvent::WaitingForAccept { .. } => "transfer.waiting"@,
        FileTransferEvent::Progress(_) => "transfer.progress"@,
        FileTransferEvent::Completed { .. } => "transfer.completed"@,
        FileTransferEvent::Rejected { .. } => "transfer.rejected"@,
        FileTransferEvent::Failed { .. } => "transfer.failed"@,
    }
}

/// What it says.
pub open spec fn transfer_params(e: FileTransferEvent, now: Seq<char>) -> JsonModel {
    let word = ("type"@, JsonModel::Text(transfer_word(e)));
    let time = ("time"@, JsonModel::Text(now));
    JsonModel::Object(
        match e {
            FileTransferEvent::OfferReceived(o) => seq![
                word,
                ("from"@, JsonModel::Text(o.from_peer@)),
                ("from_name"@, JsonModel::Text(o.from_name@)),
                ("file_name"@, JsonModel::Text(o.file_name@)),
                ("size"@, JsonModel::Number(o.size)),
                ("sha256"@, JsonModel::Text(o.sha256@)),
                ("token"@, JsonModel::Text(o.token@)),
                time,
            ],
            FileTransferEvent::Hashing { token, file_name, bytes_hashed, total_bytes } => seq![
                word,
                ("token"@, JsonModel::Text(token@)),
                ("file_name"@, JsonModel::Text(file_name@)),
                ("bytes_hashed"@, JsonModel::Number(bytes_hashed)),
                ("total_bytes"@, JsonModel::Number(total_bytes)),
                ("percent"@, JsonModel::Percent(bytes_hashed, total_bytes)),
                time,
            ],
            FileTransferEvent::WaitingForAccept { token, file_name } => seq![
                word,
                ("token"@, JsonModel::Text(token@)),
                ("file_name"@, JsonModel::Text(file_name@)),
                time,
            ],
            FileTransferEvent::Progress(p) => seq![
                word,
                ("token"@, JsonModel::Text(p.token@)),
                ("direction"@, JsonModel::Text(direction_word(p.direction))),
                ("file_name"@, JsonModel::Text(p.file_name@)),
                ("bytes_transferred"@, JsonModel::Number(p.bytes_transferred)),
                ("total_bytes"@, JsonModel::Number(p.total_bytes)),
                ("speed_bps"@, JsonModel::Double(p.speed_bps_bits)),
                ("percent"@, JsonModel::Percent(p.bytes_transferred, p.total_bytes)),
                time,
            ],
            FileTransferEvent::Completed {
                token,
                direction,
                file_name,
                bytes_transferred,
                sha256,
                elapsed_secs_bits,
            } => seq![
                word,
                ("token"@, JsonModel::Text(token@)),
                ("direction"@, JsonModel::Text(direction_word(direction))),
                ("file_name"@, JsonModel::Text(file_name@)),
                ("bytes_transferred"@, JsonModel::Number(bytes_transferred)),
                ("sha256"@, JsonModel::Text(sha256@)),
                ("elapsed_secs"@, JsonModel::Double(elapsed_secs_bits)),
                time,
            ],
            FileTransferEvent::Rejected { token, file_name, reason } => seq![
                word,
                ("token"@, JsonModel::Text(token@)),
                ("file_name"@, JsonModel::Text(file_name@)),
                ("reason"@, JsonModel::Text(reason@)),
                time,
            ],
            FileTransferEvent::Failed { token, direction, file_name, reason } => seq![
                word,
                ("token"@, JsonModel::Text(token@)),
                ("direction"@, JsonModel::Text(direction_word(direction))),
                ("file_name"@, JsonModel::Text(file_name@)),
                ("reason"@, JsonModel::Text(reason@)),
                time,
            ],
        },
    )
}

fn word_of(e: &FileTransferEvent) -> (r: &'static str)
    ensures
        r@ == transfer_word(*e),
{
    match e {
        FileTransferEvent::OfferReceived(_) => "transfer.offer_received",
        FileTransferEvent::Hashing { .. } => "transfer.hashing",
        FileTransferEvent::WaitingForAccept { .. } => "transfer.waiting",
        FileTransferEvent::Progress(_) => "transfer.progress",
        FileTransferEvent::Completed { .. } => "transfer.completed",
        FileTransferEvent::Rejected { .. } => "transfer.rejected",
        FileTransferEvent::Failed { .. } => "transfer.failed",
    }
}

/// What subscribers are told of a transfer at a time.
pub open spec fn transfer_told(event: FileTransferEvent, now: Seq<char>) -> NotificationModel {
    NotificationModel { method: transfer_word(event), params: transfer_params(event, now) }
}

/// What subscribers are told of a transfer.
pub fn ft_event_to_notification(event: &FileTransferEvent) -> (r: DaemonNotification)
    ensures
        exists|now: Seq<char>| r@ == #[trigger] transfer_told(*event, now),
{
    let now: String = time_text();
    transfer_notification_at(event, now.as_str())
}

/// What subscribers are told of a transfer at a time.
pub fn transfer_notification_at(event: &FileTransferEvent, now: &str) -> (r: DaemonNotification)
    ensures
        r@ == transfer_told(*event, now@),
{
    let word: &str = word_of(event);
    let head: Fields = Fields::new().put("type", json_text(word));
    let body: Fields = match event {
        FileTransferEvent::OfferReceived(o) => head.put(
            "from",
            json_text(o.from_peer.as_str()),
        ).put("from_name", json_text(o.from_name.as_str())).put(
            "file_name",
            json_text(o.file_name.as_str()),
        ).put("size", Json::Number(o.size)).put("sha256", json_text(o.sha256.as_str())).put(
            "token",
            json_text(o.token.as_str()),
        ),
        FileTransferEvent::Hashing { token, file_name, bytes_hashed, total_bytes } => head.put(
            "token",
            json_text(token.as_str()),
        ).put("file_name", json_text(file_name.as_str())).put(
            "bytes_hashed",
            Json::Number(*bytes_hashed),
        ).put("total_bytes", Json::Number(*total_bytes)).put(
            "percent",
            Json::Percent(*bytes_hashed, *total_bytes),
        ),
        FileTransferEvent::WaitingForAccept { token, file_name } => head.put(
            "token",
            json_text(token.as_str()),
        ).put("file_name", json_text(file_name.as_str())),
        FileTransferEvent::Progress(p) => head.put("token", json_text(p.token.as_str())).put(
            "direction",
            json_direction(p.direction),
        ).put("file_name", json_text(p.file_name.as_str())).put(
            "bytes_transferred",
            Json::Number(p.bytes_transferred),
        ).put("total_bytes", Json::Number(p.total_bytes)).put(
            "speed_bps",
            Json::Double(p.speed_bps_bits),
        ).put("percent", Json::Percent(p.bytes_transferred, p.total_bytes)),
        FileTransferEvent::Completed {
            token,
            direction,
            file_name,
            bytes_transferred,
            sha256,
            elapsed_secs_bits,
        } => head.put("token", json_text(token.as_str())).put(
            "direction",
            json_direction(*direction),
        ).put("file_name", json_text(file_name.as_str())).put(
            "bytes_transferred",
            Json::Number(*bytes_transferred),
        ).put("sha256", json_text(sha256.as_str())).put(
            "elapsed_secs",
            Json::Double(*elapsed_secs_bits),
        ),
        FileTransferEvent::Rejected { token, file_name, reason } => head.put(
            "token",
            json_text(token.as_str()),
        ).put("file_name", json_text(file_name.as_str())).put(
            "reason",
            json_text(reason.as_str()),
        ),
        FileTransferEvent::Failed { token, direction, file_name, reason } => head.put(
            "token",
            json_text(token.as_str()),
        ).put("direction", json_direction(*direction)).put(
            "file_name",
            json_text(file_name.as_str()),
        ).put("reason", json_text(reason.as_str())),
    };
    let f: Fields = body.put("time", json_text(now));
    assert(f.model() =~= transfer_params(*event, now@)->Object_0);
    DaemonNotification { method: owned(word), params: f.done() }
}

/// What a client that sends a file is told of its progress; `None` for what it
/// is not told.
pub open spec fn push_progress_params(e: FileTransferEvent) -> Option<JsonModel> {
    match e {
        FileTransferEvent::Hashing { bytes_hashed, total_bytes, .. } => Some(
            JsonModel::Object(
                seq![
                    ("bytes_sent"@, JsonModel::Number(0)),
                    ("total_bytes"@, JsonModel::Number(total_bytes)),
                    ("bytes_per_second"@, JsonModel::Double(0)),
                    ("percent"@, JsonModel::Double(0)),
                    ("phase"@, JsonModel::Text("hashing"@)),
                    ("hash_percent"@, JsonModel::Percent(bytes_hashed, total_bytes)),
                ],
            ),
        ),
        FileTransferEvent::WaitingForAccept { .. } => Some(
            JsonModel::Object(
                seq![
                    ("bytes_sent"@, JsonModel::Number(0)),
                    ("total_bytes"@, JsonModel::Number(0)),
                    ("bytes_per_second"@, JsonModel::Double(0)),
                    ("percent"@, JsonModel::Double(0)),
                    ("phase"@, JsonModel::Text("waiting"@)),
                ],
            ),
        ),
        FileTransferEvent::Progress(p) => Some(
            JsonModel::Object(
                seq![
                    ("bytes_sent"@, JsonModel::Number(p.bytes_transferred)),
                    ("total_bytes"@, JsonModel::Number(p.total_bytes)),
                    ("bytes_per_second"@, JsonModel::Double(p.speed_bps_bits)),
                    ("percent"@, JsonModel::Percent(p.bytes_transferred, p.total_bytes)),
                ],
            ),
        ),
        _ => None,
    }
}

/// What a client that sends a file is told of its progress.
pub fn push_progress(event: &FileTransferEvent, names: &NotificationNames) -> (r: Option<
    DaemonNotification,
>)
    ensures
        notification_model(r) == (match push_progress_params(*event) {
            Some(params) => Some(NotificationModel { method: names.cp_progress@, params }),
            None => None,
        }),
{
    let f: Fields = match event {
        FileTransferEvent::Hashing { bytes_hashed, total_bytes, .. } => Fields::new().put(
            "bytes_sent",
            Json::Number(0),
        ).put("total_bytes", Json::Number(*total_bytes)).put(
            "bytes_per_second",
            Json::Double(0),
        ).put("percent", Json::Double(0)).put("phase", json_text("hashing")).put(
            "hash_percent",
            Json::Percent(*bytes_hashed, *total_bytes),
        ),
        FileTransferEvent::WaitingForAccept { .. } => Fields::new().put(
            "bytes_sent",
            Json::Number(0),
        ).put("total_bytes", Json::Number(0)).put("bytes_per_second", Json::Double(0)).put(
            "percent",
            Json::Double(0),
        ).put("phase", json_text("waiting")),
        FileTransferEvent::Progress(p) => Fields::new().put(
            "bytes_sent",
            Json::Number(p.bytes_transferred),
        ).put("total_bytes", Json::Number(p.total_bytes)).put(
            "bytes_per_second",
            Json::Double(p.speed_bps_bits),
        ).put("percent", Json::Percent(p.bytes_transferred, p.total_bytes)),
        _ => return None,
    };
    assert(f.model() =~= push_progress_params(*event)->0->Object_0);
    Some(DaemonNotification { method: names.cp_progress.clone(), params: f.done() })
}

/// What a client that fetches a file is told of its progress.
pub open spec fn get_progress_params(e: FileTransferEvent) -> Option<JsonModel> {
    match e {
        FileTransferEvent::Progress(p) => Some(
            JsonModel::Object(
                seq![
                    ("bytes_received"@, JsonModel::Number(p.bytes_transferred)),
                    ("total_bytes"@, JsonModel::Number(p.total_bytes)),
                    ("bytes_per_second"@, JsonModel::Double(p.speed_bps_bits)),
                    ("percent"@, JsonModel::Percent(p.bytes_transferred, p.total_bytes)),
                ],
            ),
        ),
        _ => None,
    }
}

/// What a client that fetches a file is told of its progress.
pub fn get_progress(event: &FileTransferEvent, names: &NotificationNames) -> (r: Option<
    DaemonNotification,
>)
    ensures
        notification_model(r) == (match get_progress_params(*event) {
            Some(params) => Some(NotificationModel { method: names.cp_progress@, params }),
            None => None,
        }),
{
    match event {
        FileTransferEvent::Progress(p) => {
            let f: Fields = Fields::new().put(
                "bytes_received",
                Json::Number(p.bytes_transferred),
            ).put("total_bytes", Json::Number(p.total_bytes)).put(
                "bytes_per_second",
                Json::Double(p.speed_bps_bits),
            ).put("percent", Json::Percent(p.bytes_transferred, p.total_bytes));
            assert(f.model() =~= get_progress_params(*event)->0->Object_0);
            Some(DaemonNotification { method: names.cp_progress.clone(), params: f.done() })
        },
        _ => None,
    }
}

// ---------------------------------------------------------------------------
// Laws
// ---------------------------------------------------------------------------

/// A filter passes every name that equals it but for its case, and which of
/// two filters that differ in case alone is taken makes no difference.
pub proof fn law_filter_passes_its_own_text(name: Seq<char>, filter: Seq<char>)
    requires
        lowercase(name) == lowercase(filter),
    ensures
        fits(lowercase(name), lowered(Some(filter))),
        forall|other: Seq<char>| #[trigger]
            fits(other, lowered(Some(name))) == fits(other, lowered(Some(filter))),
{
    let low = lowercase(name);
    assert(low.subrange(0, low.len() as int) =~= low);
    assert(crate::text::occurs_at(low, low, 0));
}

} // verus!
