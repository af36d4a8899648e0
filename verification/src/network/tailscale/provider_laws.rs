//! What the reports of the sidecar do to the provider.
use vstd::prelude::*;

use crate::network::tailscale::provider::{
    idle_provider, processes, stopped, token_answer, ProviderModel, ProviderState, ReportModel,
    TailscaleConfig,
};
use crate::network::tailscale::rows::{reports_change, row_applied, snapshot_peers};
use crate::network::tailscale::sidecar::SidecarInternalEvent;
use crate::network::types::{NetErrorModel, NetworkError, NetworkEventModel};
use crate::text::{decimal, opt_text, texts};

verus! {

/// Nothing is reported: no event, no end of a start, no failure of a proxy, and
/// more is to come.
pub open spec fn is_silent(r: ReportModel) -> bool {
    r.events.len() == 0 && r.started is None && r.proxy_error is None && !r.ended
}

/// What only a start sets.
pub open spec fn same_node(a: ProviderModel, b: ProviderModel) -> bool {
    &&& a.app_id == b.app_id
    &&& a.login_allow == b.login_allow
    &&& a.identity == b.identity
    &&& a.local_addr == b.local_addr
    &&& a.local_id == b.local_id
    &&& a.version == b.version
}

/// A node that started runs and is healthy; its identity and address are those
/// of the report, and who waited for the start hears that it went well.
pub proof fn law_start_is_taken_over(
    m: ProviderModel,
    e: SidecarInternalEvent,
    after: ProviderModel,
    r: ReportModel,
)
    requires
        processes(m, e, after, r),
    ensures
        e matches SidecarInternalEvent::Started {
            hostname,
            dns_name,
            ip,
            node_id,
            login_name,
            protocol_version,
        } ==> {
            &&& after.state == ProviderState::Running
            &&& after.health.state == "running"@ && after.health.healthy
            &&& after.health.warnings == m.health.warnings && after.health.key_expiry
                == m.health.key_expiry
            &&& (protocol_version matches Some(v) ==> after.version == v)
            &&& protocol_version is None ==> after.version == 0
            &&& after.identity.tailscale_hostname == hostname@
            &&& after.identity.dns_name == Some(dns_name@)
            &&& after.identity.ip == opt_text(ip)
            &&& after.identity.app_id == m.identity.app_id
            &&& after.identity.device_id == m.identity.device_id
            &&& after.identity.device_name == m.identity.device_name
            &&& node_id@.len() > 0 ==> after.identity.tailscale_id == node_id@ && after.local_id
                == Some(node_id@)
            &&& node_id@.len() == 0 ==> after.identity.tailscale_id == m.identity.tailscale_id
                && after.local_id == m.local_id
            &&& (login_name matches Some(l) ==> after.identity.login_name == Some(l@))
            &&& login_name is None ==> after.identity.login_name == m.identity.login_name
            &&& after.local_addr.ip == opt_text(ip)
            &&& after.local_addr.hostname == hostname@
            &&& after.local_addr.dns_name == Some(dns_name@)
            &&& after.peers == m.peers
            &&& after.login_allow == m.login_allow && after.app_id == m.app_id
            &&& !after.waiting
            &&& m.waiting ==> r.started == Some(Ok::<(), NetErrorModel>(()))
            &&& !m.waiting ==> r.started is None
            &&& r.events.len() == 0 && r.proxy_error is None && !r.ended
        },
{
}

/// A failure fails the start that is waited for, with its code in brackets and
/// its message, and changes nothing else.
pub proof fn law_errors_fail_the_start(
    m: ProviderModel,
    e: SidecarInternalEvent,
    after: ProviderModel,
    r: ReportModel,
)
    requires
        processes(m, e, after, r),
    ensures
        e matches SidecarInternalEvent::Error { code, message } ==> {
            &&& same_node(after, m)
            &&& after.peers == m.peers && after.state == m.state && after.health == m.health
            &&& m.waiting ==> r.started == Some(
                Err::<(), _>(NetErrorModel::SidecarError("["@ + code@ + "] "@ + message@)),
            )
            &&& !m.waiting ==> r.started is None
            &&& r.events.len() == 0 && r.proxy_error is None && !r.ended
        },
{
}

/// A process that ended leaves a stopped provider that calls itself crashed;
/// the start that is waited for fails and names the exit code, and no report
/// follows.
pub proof fn law_exit_stops_the_provider(
    m: ProviderModel,
    e: SidecarInternalEvent,
    after: ProviderModel,
    r: ReportModel,
)
    requires
        processes(m, e, after, r),
    ensures
        e matches SidecarInternalEvent::ProcessExited { exit_code } ==> {
            &&& same_node(after, m)
            &&& after.state == ProviderState::Stopped
            &&& after.health.state == "crashed"@ && !after.health.healthy
            &&& after.peers == m.peers
            &&& r.ended
            &&& !m.waiting ==> r.started is None
            &&& m.waiting && exit_code is None ==> r.started == Some(
                Err::<(), _>(NetErrorModel::SidecarError("process exited with code "@ + "None"@)),
            )
            &&& (exit_code matches Some(n) ==> m.waiting ==> (n >= 0 ==> r.started == Some(
                Err::<(), _>(
                    NetErrorModel::SidecarError(
                        "process exited with code "@ + ("Some("@ + decimal(n as nat) + ")"@),
                    ),
                ),
            )) && (n < 0 ==> r.started == Some(
                Err::<(), _>(
                    NetErrorModel::SidecarError(
                        "process exited with code "@ + ("Some("@ + ("-"@ + decimal(-n as nat))
                            + ")"@),
                    ),
                ),
            )))
        },
{
}

/// A sidecar that stopped leaves a stopped provider, and no report follows.
pub proof fn law_stop_is_the_end(
    m: ProviderModel,
    e: SidecarInternalEvent,
    after: ProviderModel,
    r: ReportModel,
)
    requires
        processes(m, e, after, r),
        e is Stopped,
    ensures
        same_node(after, m),
        after.state == ProviderState::Stopped,
        after.health.state == "stopped"@,
        !after.health.healthy,
        after.peers == m.peers,
        r.ended,
        r.events.len() == 0,
        r.started is None,
{
}

/// The health of a provider is what was reported last: its state, when the key
/// expires, and the warnings, without which alone it is healthy.
pub proof fn law_health_is_as_reported(
    m: ProviderModel,
    e: SidecarInternalEvent,
    after: ProviderModel,
    r: ReportModel,
)
    requires
        processes(m, e, after, r),
    ensures
        e matches SidecarInternalEvent::StateChange { state } ==> after.health.state == state@
            && after.health.healthy == m.health.healthy && after.health.warnings
            == m.health.warnings && after.health.key_expiry == m.health.key_expiry && same_node(
            after,
            m,
        ) && after.state == m.state && after.peers == m.peers && is_silent(r),
        e matches SidecarInternalEvent::KeyExpiring { expires_at } ==> after.health.key_expiry
            == Some(expires_at@) && after.health.state == m.health.state && after.health.healthy
            == m.health.healthy && after.health.warnings == m.health.warnings && same_node(after, m)
            && after.state == m.state && after.peers == m.peers && is_silent(r),
        e matches SidecarInternalEvent::HealthWarning { warnings } ==> after.health.warnings
            == texts(warnings@) && (after.health.healthy <==> warnings@.len() == 0)
            && after.health.state == m.health.state && after.health.key_expiry
            == m.health.key_expiry && same_node(after, m) && after.state == m.state && after.peers
            == m.peers && is_silent(r),
{
}

/// Who has to log in is told the address of the page, and who runs a proxy its
/// failure; neither changes the provider. Every other report is for the request
/// that it answers, and changes nothing here.
pub proof fn law_other_reports_change_nothing(
    m: ProviderModel,
    e: SidecarInternalEvent,
    after: ProviderModel,
    r: ReportModel,
)
    requires
        processes(m, e, after, r),
    ensures
        e matches SidecarInternalEvent::AuthRequired { auth_url } ==> after == m && r.events
            == seq![NetworkEventModel::AuthRequired(auth_url@)] && r.started is None
            && r.proxy_error is None && !r.ended,
        e matches SidecarInternalEvent::ProxyError { id, code, message } ==> after == m
            && r.proxy_error == Some((id@, code@, message@)) && r.events.len() == 0
            && r.started is None && !r.ended,
        e is NeedsApproval || e is DialSucceeded || e is DialFailed || e is Listening
            || e is Unlistened || e is ListeningPacket || e is PingResult || e is WhoisResult
            || e is ProxyAdded || e is ProxyRemoved || e is ProxyList ==> after == m && is_silent(
            r,
        ),
{
}

/// A list of peers is taken for the whole truth, seen from this node; a single
/// row changes the one peer that it is about.
pub proof fn law_rows_reach_the_peers(
    m: ProviderModel,
    e: SidecarInternalEvent,
    after: ProviderModel,
    r: ReportModel,
)
    requires
        processes(m, e, after, r),
    ensures
        e matches SidecarInternalEvent::PeersReceived(rows) ==> after.peers == snapshot_peers(
            m.peers,
            rows@,
            m.local_id,
            m.app_id,
            m.login_allow,
        ) && reports_change(m.peers, after.peers, r.events) && same_node(after, m) && after.state
            == m.state && after.health == m.health && r.started is None && !r.ended,
        e is PeerChanged ==> same_node(after, m) && after.state == m.state && after.health
            == m.health && r.started is None && r.proxy_error is None && !r.ended,
{
}

/// A change that calls a row joined or updated applies the row, unless it is
/// about this node itself. One that says left drops the peer and says so; of a
/// node that is no peer it says nothing. Any other word is ignored.
pub proof fn law_changes_name_what_they_do(
    m: ProviderModel,
    e: SidecarInternalEvent,
    after: ProviderModel,
    r: ReportModel,
)
    requires
        processes(m, e, after, r),
    ensures
        e matches SidecarInternalEvent::PeerChanged(c) ==> {
            let word = c.change_type@;
            &&& (c.peer matches Some(row) ==> (word == "joined"@ || word == "updated"@ ==> (
            m.local_id != Some(row.id@) ==> (after.peers, r.events) == row_applied(
                m.peers,
                row,
                m.app_id,
                m.login_allow,
            )) && (m.local_id == Some(row.id@) ==> after.peers == m.peers && is_silent(r))))
            &&& (word == "joined"@ || word == "updated"@) && c.peer is None ==> after.peers
                == m.peers && is_silent(r)
            &&& word == "left"@ && m.peers.dom().contains(c.peer_id@) ==> after.peers
                == m.peers.remove(c.peer_id@) && r.events == seq![
                NetworkEventModel::Left(c.peer_id@),
            ]
            &&& word == "left"@ && !m.peers.dom().contains(c.peer_id@) ==> after.peers == m.peers
                && is_silent(r)
            &&& word != "joined"@ && word != "updated"@ && word != "left"@ ==> after.peers
                == m.peers && is_silent(r)
        },
{
    reveal_strlit("joined");
    reveal_strlit("updated");
    reveal_strlit("left");
    assert("left"@.len() == 4 && "joined"@.len() == 6 && "updated"@.len() == 7);
}

/// A provider that was never started knows what it was set up with, and nobody
/// else.
pub proof fn law_idle_provider_knows_its_setup(c: TailscaleConfig)
    ensures
        ({
            let m = idle_provider(c);
            &&& m.state == ProviderState::Stopped && !m.waiting
            &&& m.app_id == c.app_id@ && m.identity.app_id == c.app_id@
            &&& m.identity.device_id == c.device_id@
            &&& m.identity.device_name == c.device_name@
            &&& m.identity.tailscale_hostname == c.hostname@
            &&& m.identity.tailscale_id.len() == 0 && m.local_id is None
            &&& m.identity.dns_name is None && m.identity.ip is None && m.identity.login_name is None
            &&& m.login_allow == texts(c.login_allow@)
            &&& forall|id: Seq<char>| !(#[trigger] m.peers.dom().contains(id))
            &&& m.health.state == "stopped"@ && !m.health.healthy
            &&& m.health.warnings.len() == 0 && m.health.key_expiry is None
            &&& m.version == 0
        }),
{
}

/// A provider that was stopped has no peers left and is not healthy; who it is
/// it does not forget.
pub proof fn law_stopped_provider_has_no_peers(m: ProviderModel, id: Seq<char>)
    ensures
        !stopped(m).peers.dom().contains(id),
        stopped(m).state == ProviderState::Stopped,
        stopped(m).health.state == "stopped"@,
        !stopped(m).health.healthy,
        stopped(m).health.warnings == m.health.warnings,
        stopped(m).health.key_expiry == m.health.key_expiry,
        stopped(m).waiting == m.waiting,
        same_node(stopped(m), m),
{
}

/// The secret of the bridge is what was drawn, octet by octet; where nothing
/// could be drawn the error tells why.
pub proof fn law_token_is_what_was_drawn(
    drawn: Result<[u8; 32], String>,
    r: Result<[u8; 32], NetworkError>,
)
    requires
        token_answer(drawn, r),
    ensures
        drawn matches Ok(bytes) ==> (r matches Ok(token) && token == bytes),
        drawn matches Err(why) ==> (r matches Err(e) && e@ == NetErrorModel::Internal(
            "failed to generate session token: "@ + why@,
        )),
{
}

} // verus!
