//! What errors of the network say, and what its datagrams and owners hold.
use vstd::prelude::*;

use crate::network::types::{nonempty, NetErrorModel, OwnerModel};
use crate::network::udp::frame;
use crate::session::error::duration_debug;

verus! {

/// Every error names its kind first and then, where it has one, its cause.
pub proof fn law_errors_name_kind_and_cause(s: Seq<char>, n: u64)
    ensures
        NetErrorModel::NotRunning.text() == "network provider not running"@,
        NetErrorModel::AlreadyRunning.text() == "network provider already running"@,
        NetErrorModel::StartFailed(s).text() == "start failed: "@ + s,
        NetErrorModel::StopFailed(s).text() == "stop failed: "@ + s,
        NetErrorModel::AuthRequired(s).text() == "authentication required: "@ + s,
        NetErrorModel::DialFailed(s).text() == "dial failed: "@ + s,
        NetErrorModel::DialTimeout(n).text() == "dial timed out after "@ + duration_debug(n),
        NetErrorModel::ListenFailed(s).text() == "listen failed: "@ + s,
        NetErrorModel::PingFailed(s).text() == "ping failed: "@ + s,
        NetErrorModel::SidecarError(s).text() == "sidecar error: "@ + s,
        NetErrorModel::BridgeError(s).text() == "bridge error: "@ + s,
        NetErrorModel::Io(s).text() == "io error: "@ + s,
        NetErrorModel::Serialize(s).text() == "serialization error: "@ + s,
        NetErrorModel::Internal(s).text() == "internal error: "@ + s,
        NetErrorModel::Unsupported(s).text() == "unsupported: "@ + s,
        NetErrorModel::ProxyError(s).text() == "proxy error: "@ + s,
{
}

/// A field of an owner that is empty is dropped, and every other stays as it
/// is, in its own place.
pub proof fn law_owner_fields_stay(o: OwnerModel)
    ensures
        ({
            let r = o.normal();
            &&& o.dns_name is None || o.dns_name->0.len() == 0 ==> r.dns_name is None
            &&& o.dns_name is Some && o.dns_name->0.len() > 0 ==> r.dns_name == o.dns_name
            &&& o.login_name is None || o.login_name->0.len() == 0 ==> r.login_name is None
            &&& o.login_name is Some && o.login_name->0.len() > 0 ==> r.login_name == o.login_name
            &&& o.display_name is None || o.display_name->0.len() == 0 ==> r.display_name is None
            &&& o.display_name is Some && o.display_name->0.len() > 0 ==> r.display_name
                == o.display_name
            &&& o.profile_pic_url is None || o.profile_pic_url->0.len() == 0
                ==> r.profile_pic_url is None
            &&& o.profile_pic_url is Some && o.profile_pic_url->0.len() > 0 ==> r.profile_pic_url
                == o.profile_pic_url
            &&& o.node_id is None || o.node_id->0.len() == 0 ==> r.node_id is None
            &&& o.node_id is Some && o.node_id->0.len() > 0 ==> r.node_id == o.node_id
            &&& o.blank() <==> o.dns_name is None && o.login_name is None && o.display_name is None
                && o.profile_pic_url is None && o.node_id is None
        }),
{
}

/// A text that is there and not empty is kept; nothing else is.
pub proof fn law_empty_says_nothing(s: Seq<char>)
    ensures
        s.len() > 0 ==> nonempty(Some(s)) == Some(s),
        s.len() == 0 ==> nonempty(Some(s)) is None,
        nonempty(None) is None,
{
}

/// A frame is six octets longer than its payload. It begins with the address,
/// octet by octet; the port follows, its greater octet first; the payload comes
/// last and is not touched.
pub proof fn law_frames_hold_address_port_and_payload(octets: Seq<u8>, port: u16, data: Seq<u8>)
    requires
        octets.len() == 4,
    ensures
        ({
            let f = frame(octets, port, data);
            &&& f.len() == 6 + data.len()
            &&& forall|i: int| 0 <= i < 4 ==> #[trigger] f[i] == octets[i]
            &&& f[4] * 256 + f[5] == port
            &&& forall|i: int| 0 <= i < data.len() ==> #[trigger] data[i] == f[6 + i]
        }),
{
    let f = frame(octets, port, data);
    assert(f[4] == (port / 256) as u8 && f[5] == (port % 256) as u8);
}

} // verus!
