//! What names on the wire and the data of reports stand for.
use vstd::prelude::*;

use crate::network::tailscale::debug_text::{
    fields_text, items_text, list_text, opt_bool_text, opt_list_text, opt_number_text, opt_texts,
    quoted, secret_text, struct_text, FieldModel,
};
use crate::network::tailscale::protocol::{
    carries_data, command_word, kind_of, start_fields, EventKind, EventPayload, SidecarCommand,
    StartCommandData,
};
use crate::network::tailscale::provider::{config_fields, TailscaleConfig};
use crate::network::tailscale::sidecar::{
    report_means, sidecar_fields, SidecarConfig, SidecarInternalEvent,
};
use crate::text::{decimal, texts};

verus! {

/// Every command goes under its own name.
pub proof fn law_commands_have_their_names(c: SidecarCommand)
    ensures
        c is Start ==> command_word(c) == "tsnet:start"@,
        c is Stop ==> command_word(c) == "tsnet:stop"@,
        c is GetPeers ==> command_word(c) == "tsnet:getPeers"@,
        c is Dial ==> command_word(c) == "bridge:dial"@,
        c is Listen ==> command_word(c) == "tsnet:listen"@,
        c is Unlisten ==> command_word(c) == "tsnet:unlisten"@,
        c is Ping ==> command_word(c) == "tsnet:ping"@,
        c is Whois ==> command_word(c) == "tsnet:whois"@,
        c is WatchPeers ==> command_word(c) == "tsnet:watchPeers"@,
        c is ListenPacket ==> command_word(c) == "tsnet:listenPacket"@,
        c is ProxyAdd ==> command_word(c) == "proxy:add"@,
        c is ProxyRemove ==> command_word(c) == "proxy:remove"@,
        c is ProxyList ==> command_word(c) == "proxy:list"@,
{
}

/// A command carries data unless it has none: stopping and asking for the peers
/// never do, and asking for the proxies does where it has a request id.
pub proof fn law_commands_carry_what_they_have(c: SidecarCommand)
    ensures
        c is Stop || c is GetPeers ==> !carries_data(c),
        c matches SidecarCommand::ProxyList { request_id } ==> carries_data(c) == (
        request_id is Some),
        !(c is Stop) && !(c is GetPeers) && !(c is ProxyList) ==> carries_data(c),
{
}

/// Every name of a report stands for its own kind; a name that is none of these
/// stands for none.
#[verifier::rlimit(40)]
pub proof fn law_reports_have_their_names(name: Seq<char>)
    ensures
        kind_of("tsnet:status"@) == EventKind::Status,
        kind_of("tsnet:started"@) == EventKind::Status,
        kind_of("tsnet:stopped"@) == EventKind::Stopped,
        kind_of("tsnet:authRequired"@) == EventKind::AuthRequired,
        kind_of("tsnet:needsApproval"@) == EventKind::NeedsApproval,
        kind_of("tsnet:stateChange"@) == EventKind::StateChange,
        kind_of("tsnet:keyExpiring"@) == EventKind::KeyExpiring,
        kind_of("tsnet:healthWarning"@) == EventKind::HealthWarning,
        kind_of("tsnet:peers"@) == EventKind::Peers,
        kind_of("tsnet:peerChanged"@) == EventKind::PeerChanged,
        kind_of("bridge:dialResult"@) == EventKind::DialResult,
        kind_of("tsnet:listening"@) == EventKind::Listening,
        kind_of("tsnet:unlistened"@) == EventKind::Unlistened,
        kind_of("tsnet:listeningPacket"@) == EventKind::ListeningPacket,
        kind_of("tsnet:pingResult"@) == EventKind::PingResult,
        kind_of("tsnet:whoisResult"@) == EventKind::WhoisResult,
        kind_of("tsnet:error"@) == EventKind::Error,
        kind_of("proxy:added"@) == EventKind::ProxyAdded,
        kind_of("proxy:removed"@) == EventKind::ProxyRemoved,
        kind_of("proxy:list"@) == EventKind::ProxyList,
        kind_of("proxy:error"@) == EventKind::ProxyError,
        kind_of(name) != EventKind::Unknown ==> (name == "tsnet:status"@ || name == "tsnet:started"@ || name == "tsnet:stopped"@ || name == "tsnet:authRequired"@ || name == "tsnet:needsApproval"@ || name == "tsnet:stateChange"@ || name == "tsnet:keyExpiring"@ || name == "tsnet:healthWarning"@ || name == "tsnet:peers"@ || name == "tsnet:peerChanged"@ || name == "bridge:dialResult"@ || name == "tsnet:listening"@ || name == "tsnet:unlistened"@ || name == "tsnet:listeningPacket"@ || name == "tsnet:pingResult"@ || name == "tsnet:whoisResult"@ || name == "tsnet:error"@ || name == "proxy:added"@ || name == "proxy:removed"@ || name == "proxy:list"@ || name == "proxy:error"@),
{
    reveal_strlit("tsnet:status");
    reveal_strlit("tsnet:started");
    reveal_strlit("tsnet:stopped");
    reveal_strlit("tsnet:authRequired");
    reveal_strlit("tsnet:needsApproval");
    reveal_strlit("tsnet:stateChange");
    reveal_strlit("tsnet:keyExpiring");
    reveal_strlit("tsnet:healthWarning");
    reveal_strlit("tsnet:peers");
    reveal_strlit("tsnet:peerChanged");
    reveal_strlit("bridge:dialResult");
    reveal_strlit("tsnet:listening");
    reveal_strlit("tsnet:unlistened");
    reveal_strlit("tsnet:listeningPacket");
    reveal_strlit("tsnet:pingResult");
    reveal_strlit("tsnet:whoisResult");
    reveal_strlit("tsnet:error");
    reveal_strlit("proxy:added");
    reveal_strlit("proxy:removed");
    reveal_strlit("proxy:list");
    reveal_strlit("proxy:error");
    assert("tsnet:status"@.len() == 12);
    assert("tsnet:started"@.len() == 13);
    assert("tsnet:stopped"@.len() == 13);
    assert("tsnet:authRequired"@.len() == 18);
    assert("tsnet:needsApproval"@.len() == 19);
    assert("tsnet:stateChange"@.len() == 17);
    assert("tsnet:keyExpiring"@.len() == 17);
    assert("tsnet:healthWarning"@.len() == 19);
    assert("tsnet:peers"@.len() == 11);
    assert("tsnet:peerChanged"@.len() == 17);
    assert("bridge:dialResult"@.len() == 17);
    assert("tsnet:listening"@.len() == 15);
    assert("tsnet:unlistened"@.len() == 16);
    assert("tsnet:listeningPacket"@.len() == 21);
    assert("tsnet:pingResult"@.len() == 16);
    assert("tsnet:whoisResult"@.len() == 17);
    assert("tsnet:error"@.len() == 11);
    assert("proxy:added"@.len() == 11);
    assert("proxy:removed"@.len() == 13);
    assert("proxy:list"@.len() == 10);
    assert("proxy:error"@.len() == 11);
    assert("tsnet:started"@[8] == 'a' && "tsnet:stopped"@[8] == 'o');
    assert("tsnet:started"@[0] == 't' && "proxy:removed"@[0] == 'p');
    assert("tsnet:stopped"@[0] == 't' && "proxy:removed"@[0] == 'p');
    assert("tsnet:needsApproval"@[6] == 'n' && "tsnet:healthWarning"@[6] == 'h');
    assert("tsnet:stateChange"@[6] == 's' && "tsnet:keyExpiring"@[6] == 'k');
    assert("tsnet:stateChange"@[6] == 's' && "tsnet:peerChanged"@[6] == 'p');
    assert("tsnet:stateChange"@[0] == 't' && "bridge:dialResult"@[0] == 'b');
    assert("tsnet:stateChange"@[6] == 's' && "tsnet:whoisResult"@[6] == 'w');
    assert("tsnet:keyExpiring"@[6] == 'k' && "tsnet:peerChanged"@[6] == 'p');
    assert("tsnet:keyExpiring"@[0] == 't' && "bridge:dialResult"@[0] == 'b');
    assert("tsnet:keyExpiring"@[6] == 'k' && "tsnet:whoisResult"@[6] == 'w');
    assert("tsnet:peerChanged"@[0] == 't' && "bridge:dialResult"@[0] == 'b');
    assert("tsnet:peerChanged"@[6] == 'p' && "tsnet:whoisResult"@[6] == 'w');
    assert("bridge:dialResult"@[0] == 'b' && "tsnet:whoisResult"@[0] == 't');
    assert("tsnet:peers"@[6] == 'p' && "tsnet:error"@[6] == 'e');
    assert("tsnet:peers"@[0] == 't' && "proxy:added"@[0] == 'p');
    assert("tsnet:peers"@[0] == 't' && "proxy:error"@[0] == 'p');
    assert("tsnet:error"@[0] == 't' && "proxy:added"@[0] == 'p');
    assert("tsnet:error"@[0] == 't' && "proxy:error"@[0] == 'p');
    assert("proxy:added"@[6] == 'a' && "proxy:error"@[6] == 'e');
    assert("tsnet:unlistened"@[6] == 'u' && "tsnet:pingResult"@[6] == 'p');
}

/// A report whose data belong to its kind means just that, with its data as
/// they are.
pub proof fn law_reports_mean_their_data(
    kind: EventKind,
    payload: EventPayload,
    r: Option<SidecarInternalEvent>,
)
    requires
        report_means(kind, payload, r),
    ensures
        kind == EventKind::AuthRequired ==> (payload matches EventPayload::AuthRequired { auth_url } ==> r == Some(
            SidecarInternalEvent::AuthRequired { auth_url },
        )),
        kind == EventKind::AuthRequired && !(payload is AuthRequired) ==> r is None,
        kind == EventKind::StateChange ==> (payload matches EventPayload::StateChange { state } ==> r == Some(
            SidecarInternalEvent::StateChange { state },
        )),
        kind == EventKind::StateChange && !(payload is StateChange) ==> r is None,
        kind == EventKind::KeyExpiring ==> (payload matches EventPayload::KeyExpiring { expires_at } ==> r == Some(
            SidecarInternalEvent::KeyExpiring { expires_at },
        )),
        kind == EventKind::KeyExpiring && !(payload is KeyExpiring) ==> r is None,
        kind == EventKind::HealthWarning ==> (payload matches EventPayload::HealthWarning { warnings } ==> r == Some(
            SidecarInternalEvent::HealthWarning { warnings },
        )),
        kind == EventKind::HealthWarning && !(payload is HealthWarning) ==> r is None,
        kind == EventKind::Peers ==> (payload matches EventPayload::Peers(rows) ==> r == Some(
            SidecarInternalEvent::PeersReceived(rows),
        )),
        kind == EventKind::Peers && !(payload is Peers) ==> r is None,
        kind == EventKind::PeerChanged ==> (payload matches EventPayload::PeerChanged(d) ==> r == Some(
            SidecarInternalEvent::PeerChanged(d),
        )),
        kind == EventKind::PeerChanged && !(payload is PeerChanged) ==> r is None,
        kind == EventKind::Listening ==> (payload matches EventPayload::Listening { port } ==> r == Some(
            SidecarInternalEvent::Listening { port },
        )),
        kind == EventKind::Listening && !(payload is Listening) ==> r is None,
        kind == EventKind::Unlistened ==> (payload matches EventPayload::Unlistened { port } ==> r == Some(
            SidecarInternalEvent::Unlistened { port },
        )),
        kind == EventKind::Unlistened && !(payload is Unlistened) ==> r is None,
        kind == EventKind::ListeningPacket ==> (payload matches EventPayload::ListeningPacket { port, local_port } ==> r == Some(
            SidecarInternalEvent::ListeningPacket { port, local_port },
        )),
        kind == EventKind::ListeningPacket && !(payload is ListeningPacket) ==> r is None,
        kind == EventKind::PingResult ==> (payload matches EventPayload::PingResult(d) ==> r == Some(
            SidecarInternalEvent::PingResult(d),
        )),
        kind == EventKind::PingResult && !(payload is PingResult) ==> r is None,
        kind == EventKind::WhoisResult ==> (payload matches EventPayload::WhoisResult(d) ==> r == Some(
            SidecarInternalEvent::WhoisResult(d),
        )),
        kind == EventKind::WhoisResult && !(payload is WhoisResult) ==> r is None,
        kind == EventKind::Error ==> (payload matches EventPayload::Error { code, message } ==> r == Some(
            SidecarInternalEvent::Error { code, message },
        )),
        kind == EventKind::Error && !(payload is Error) ==> r is None,
        kind == EventKind::ProxyAdded ==> (payload matches EventPayload::ProxyAdded { id, listen_port, url } ==> r == Some(
            SidecarInternalEvent::ProxyAdded { id, listen_port, url },
        )),
        kind == EventKind::ProxyAdded && !(payload is ProxyAdded) ==> r is None,
        kind == EventKind::ProxyRemoved ==> (payload matches EventPayload::ProxyRemoved { id } ==> r == Some(
            SidecarInternalEvent::ProxyRemoved { id },
        )),
        kind == EventKind::ProxyRemoved && !(payload is ProxyRemoved) ==> r is None,
        kind == EventKind::ProxyList ==> (payload matches EventPayload::ProxyList(proxies) ==> r == Some(
            SidecarInternalEvent::ProxyList { proxies },
        )),
        kind == EventKind::ProxyList && !(payload is ProxyList) ==> r is None,
        kind == EventKind::ProxyError ==> (payload matches EventPayload::ProxyError { id, code, message } ==> r == Some(
            SidecarInternalEvent::ProxyError { id, code, message },
        )),
        kind == EventKind::ProxyError && !(payload is ProxyError) ==> r is None,
        kind == EventKind::DialResult ==> (payload matches EventPayload::DialResult {
            success,
            error,
        } ==> (success ==> r == Some(SidecarInternalEvent::DialSucceeded)) && (!success ==> r
            == Some(SidecarInternalEvent::DialFailed { error }))),
        kind == EventKind::DialResult && !(payload is DialResult) ==> r is None,
        kind == EventKind::Stopped ==> r == Some(SidecarInternalEvent::Stopped),
        kind == EventKind::NeedsApproval ==> r == Some(SidecarInternalEvent::NeedsApproval),
        kind == EventKind::Unknown ==> r is None,
{
}

/// A status says that the node runs, with all that it says of the node; that it
/// failed, with the error; or else that it is on the way.
pub proof fn law_status_means_its_state(payload: EventPayload, r: Option<SidecarInternalEvent>)
    requires
        report_means(EventKind::Status, payload, r),
    ensures
        payload matches EventPayload::Status(d) ==> {
            &&& d.state@ == "running"@ ==> r == Some(
                SidecarInternalEvent::Started {
                    hostname: d.hostname,
                    dns_name: d.dns_name,
                    ip: d.ip,
                    node_id: d.node_id,
                    login_name: d.login_name,
                    protocol_version: d.protocol_version,
                },
            )
            &&& d.state@ == "error"@ ==> (r matches Some(SidecarInternalEvent::Error {
                code,
                message,
            }) && code@ == "STATUS_ERROR"@ && message == d.error)
            &&& d.state@ != "running"@ && d.state@ != "error"@ ==> r == Some(
                SidecarInternalEvent::StateChange { state: d.state },
            )
        },
        !(payload is Status) ==> r is None,
{
    reveal_strlit("running");
    reveal_strlit("error");
    assert("running"@.len() == 7 && "error"@.len() == 5);
}

/// A secret shows only whether it is there.
pub proof fn law_secrets_are_covered(present: bool)
    ensures
        secret_text(true) == "Some("@ + "\"[REDACTED]\""@ + ")"@,
        secret_text(false) == "None"@,
{
}

/// What may be absent shows as `Some` of its value or as `None`.
pub proof fn law_options_show_their_value(b: bool, n: u64, v: Seq<Seq<char>>)
    ensures
        opt_bool_text(Some(true)) == "Some("@ + "true"@ + ")"@,
        opt_bool_text(Some(false)) == "Some("@ + "false"@ + ")"@,
        opt_bool_text(None) == "None"@,
        opt_number_text(Some(n)) == "Some("@ + decimal(n as nat) + ")"@,
        opt_number_text(None) == "None"@,
        opt_list_text(Some(v)) == "Some("@ + list_text(v) + ")"@,
        opt_list_text(None) == "None"@,
{
}

/// A struct shows its name and, between braces, its fields in order: each name,
/// a colon and the value, with a comma between two fields.
pub proof fn law_structs_show_their_fields(
    name: Seq<char>,
    fields: Seq<FieldModel>,
    f: FieldModel,
)
    ensures
        struct_text(name, fields) == name + " { "@ + fields_text(fields) + " }"@,
        fields_text(Seq::empty()).len() == 0,
        fields_text(seq![f]) == f.name + ": "@ + f.value,
        fields.len() > 0 ==> fields_text(fields.push(f)) == fields_text(fields) + ", "@ + (f.name
            + ": "@ + f.value),
{
    assert(fields.push(f).drop_last() =~= fields);
}

/// A list shows its texts in order, each in quotes, between brackets.
pub proof fn law_lists_show_their_texts(v: Seq<Seq<char>>, s: Seq<char>)
    ensures
        list_text(v) == "["@ + items_text(v) + "]"@,
        items_text(Seq::empty()).len() == 0,
        items_text(seq![s]) == quoted(s),
        v.len() > 0 ==> items_text(v.push(s)) == items_text(v) + ", "@ + quoted(s),
{
    assert(v.push(s).drop_last() =~= v);
}

/// The log names every field of what it shows once, in order, and no secret.
pub proof fn law_logs_name_their_fields(d: StartCommandData, c: SidecarConfig, t: TailscaleConfig)
    ensures
        start_fields(d).len() == 8,
        start_fields(d)[0].name == "hostname"@ && start_fields(d)[0].value == quoted(d.hostname@),
        start_fields(d)[1].name == "state_dir"@ && start_fields(d)[1].value == quoted(
            d.state_dir@,
        ),
        start_fields(d)[2].name == "auth_key"@ && start_fields(d)[2].value == secret_text(d.auth_key is Some),
        start_fields(d)[3].name == "bridge_port"@ && start_fields(d)[3].value == decimal(
            d.bridge_port as nat,
        ),
        start_fields(d)[4].name == "session_token"@ && start_fields(d)[4].value
            == "\"[REDACTED]\""@,
        start_fields(d)[5].name == "ephemeral"@ && start_fields(d)[5].value == opt_bool_text(d.ephemeral),
        start_fields(d)[6].name == "tags"@ && start_fields(d)[6].value == opt_list_text(opt_texts(d.tags)),
        start_fields(d)[7].name == "idle_timeout_secs"@ && start_fields(d)[7].value == opt_number_text(d.idle_timeout_secs),
        sidecar_fields(c).len() == 9,
        sidecar_fields(c)[0].name == "binary_path"@ && sidecar_fields(c)[0].value == quoted(
            c.binary_path@,
        ),
        sidecar_fields(c)[1].name == "hostname"@ && sidecar_fields(c)[1].value == quoted(
            c.hostname@,
        ),
        sidecar_fields(c)[2].name == "state_dir"@ && sidecar_fields(c)[2].value == quoted(
            c.state_dir@,
        ),
        sidecar_fields(c)[3].name == "auth_key"@ && sidecar_fields(c)[3].value == secret_text(c.auth_key is Some),
        sidecar_fields(c)[4].name == "bridge_port"@ && sidecar_fields(c)[4].value == decimal(
            c.bridge_port as nat,
        ),
        sidecar_fields(c)[5].name == "session_token_hex"@ && sidecar_fields(c)[5].value
            == "\"[REDACTED]\""@,
        sidecar_fields(c)[6].name == "ephemeral"@ && sidecar_fields(c)[6].value == opt_bool_text(c.ephemeral),
        sidecar_fields(c)[7].name == "tags"@ && sidecar_fields(c)[7].value == opt_list_text(opt_texts(c.tags)),
        sidecar_fields(c)[8].name == "idle_timeout_secs"@ && sidecar_fields(c)[8].value == opt_number_text(c.idle_timeout_secs),
        config_fields(t).len() == 11,
        config_fields(t)[0].name == "binary_path"@ && config_fields(t)[0].value == quoted(
            t.binary_path@,
        ),
        config_fields(t)[1].name == "app_id"@ && config_fields(t)[1].value == quoted(t.app_id@),
        config_fields(t)[2].name == "device_id"@ && config_fields(t)[2].value == quoted(
            t.device_id@,
        ),
        config_fields(t)[3].name == "device_name"@ && config_fields(t)[3].value == quoted(
            t.device_name@,
        ),
        config_fields(t)[4].name == "hostname"@ && config_fields(t)[4].value == quoted(t.hostname@),
        config_fields(t)[5].name == "state_dir"@ && config_fields(t)[5].value == quoted(
            t.state_dir@,
        ),
        config_fields(t)[6].name == "auth_key"@ && config_fields(t)[6].value == secret_text(t.auth_key is Some),
        config_fields(t)[7].name == "ephemeral"@ && config_fields(t)[7].value == opt_bool_text(t.ephemeral),
        config_fields(t)[8].name == "tags"@ && config_fields(t)[8].value == opt_list_text(opt_texts(t.tags)),
        config_fields(t)[9].name == "idle_timeout_secs"@ && config_fields(t)[9].value == opt_number_text(t.idle_timeout_secs),
        config_fields(t)[10].name == "login_allow"@ && config_fields(t)[10].value == list_text(texts(t.login_allow@)),
{
}

} // verus!
