//! Datagrams to and from the local relay: six octets of address, then the
//! payload.
use vstd::prelude::*;

use crate::network::types::{NetErrorModel, NetworkError};
use crate::text::owned;

verus! {

/// Octets of the address header: four of the address, two of the port.
pub const UDP_ADDR_HEADER_SIZE: usize = 6;

/// The address of the other end.
#[derive(Debug, Clone, Copy)]
pub enum UdpAddr {
    V4 { octets: [u8; 4], port: u16 },
    V6,
}

/// The frame of a datagram: address and port, most significant octet first,
/// then the payload.
pub open spec fn frame(octets: Seq<u8>, port: u16, data: Seq<u8>) -> Seq<u8> {
    octets + seq![(port / 256) as u8, (port % 256) as u8] + data
}

fn append_bytes(out: &mut Vec<u8>, data: &[u8])
    ensures
        final(out)@ == old(out)@ + data@,
{
    let ghost start = out@;
    let mut i: usize = 0;
    assert(start + data@.take(0) =~= start);
    while i < data.len()
        invariant
            i <= data@.len(),
            out@ == start + data@.take(i as int),
        decreases data@.len() - i,
    {
        out.push(data[i]);
        proof {
            assert(data@.take(i + 1) =~= data@.take(i as int).push(data@[i as int]));
        }
        i += 1;
    }
    assert(data@.take(data@.len() as int) =~= data@);
}

/// The frame that carries `data` to `addr`. The relay knows no IPv6.
pub fn frame_datagram(data: &[u8], addr: UdpAddr) -> (r: Result<Vec<u8>, NetworkError>)
    ensures
        match addr {
            UdpAddr::V4 { octets, port } => r is Ok && r->Ok_0@ == frame(octets@, port, data@),
            UdpAddr::V6 => r is Err && r->Err_0@ == NetErrorModel::Internal(
                "NetworkUdpSocket: IPv6 not supported in relay framing"@,
            ),
        },
{
    match addr {
        UdpAddr::V4 { octets, port } => {
            let mut framed: Vec<u8> = Vec::new();
            framed.push(octets[0]);
            framed.push(octets[1]);
            framed.push(octets[2]);
            framed.push(octets[3]);
            framed.push((port / 256) as u8);
            framed.push((port % 256) as u8);
            append_bytes(&mut framed, data);
            assert(framed@ =~= frame(octets@, port, data@));
            Ok(framed)
        },
        UdpAddr::V6 => Err(
            NetworkError::Internal(owned("NetworkUdpSocket: IPv6 not supported in relay framing")),
        ),
    }
}

/// How much of the payload was sent when `sent` octets of the frame were.
pub fn payload_sent(sent: usize) -> (r: usize)
    ensures
        r == if sent >= UDP_ADDR_HEADER_SIZE {
            sent - UDP_ADDR_HEADER_SIZE
        } else {
            0
        },
{
    if sent >= UDP_ADDR_HEADER_SIZE {
        sent - UDP_ADDR_HEADER_SIZE
    } else {
        0
    }
}

/// Takes a received frame apart: the payload and where it came from.
pub fn unframe_datagram(packet: &[u8]) -> (r: Result<(Vec<u8>, [u8; 4], u16), NetworkError>)
    ensures
        match r {
            Ok((data, octets, port)) => packet@ == frame(octets@, port, data@),
            Err(e) => packet@.len() < UDP_ADDR_HEADER_SIZE && e@ == NetErrorModel::Internal(
                "NetworkUdpSocket: received packet too short for address header"@,
            ),
        },
{
    if packet.len() < UDP_ADDR_HEADER_SIZE {
        return Err(
            NetworkError::Internal(
                owned("NetworkUdpSocket: received packet too short for address header"),
            ),
        );
    }
    let octets: [u8; 4] = [packet[0], packet[1], packet[2], packet[3]];
    let port: u16 = packet[4] as u16 * 256 + packet[5] as u16;
    let mut data: Vec<u8> = Vec::new();
    let mut i: usize = UDP_ADDR_HEADER_SIZE;
    while i < packet.len()
        invariant
            UDP_ADDR_HEADER_SIZE <= i <= packet@.len(),
            data@ == packet@.subrange(UDP_ADDR_HEADER_SIZE as int, i as int),
        decreases packet@.len() - i,
    {
        data.push(packet[i]);
        proof {
            assert(packet@.subrange(UDP_ADDR_HEADER_SIZE as int, i as int).push(packet@[i as int])
                =~= packet@.subrange(UDP_ADDR_HEADER_SIZE as int, i + 1));
        }
        i += 1;
    }
    proof {
        assert(packet@ =~= frame(octets@, port, data@));
    }
    Ok((data, octets, port))
}

/// A frame tells its address, port and payload apart from every other.
pub proof fn law_frame_is_injective(
    o1: Seq<u8>,
    p1: u16,
    d1: Seq<u8>,
    o2: Seq<u8>,
    p2: u16,
    d2: Seq<u8>,
)
    requires
        o1.len() == 4,
        o2.len() == 4,
        frame(o1, p1, d1) == frame(o2, p2, d2),
    ensures
        o1 == o2,
        p1 == p2,
        d1 == d2,
{
    let f1 = frame(o1, p1, d1);
    let f2 = frame(o2, p2, d2);
    assert(o1 =~= f1.take(4));
    assert(o2 =~= f2.take(4));
    assert(f1[4] == (p1 / 256) as u8 && f1[5] == (p1 % 256) as u8);
    assert(f2[4] == (p2 / 256) as u8 && f2[5] == (p2 % 256) as u8);
    assert(d1 =~= f1.skip(6));
    assert(d2 =~= f2.skip(6));
}

} // verus!
