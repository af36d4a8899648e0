//! The head of a file's stream: eight bytes for the size, the upper first, and
//! 64 bytes for the digest in hexadecimal.
use vstd::prelude::*;
use vstd::string::*;
use vstd::utf8::*;

use crate::digest::{hex, hex_digit};
use crate::file_transfer::types::{TransferError, TransferErrorModel};
use crate::text::{decimal, decimal_text, join4, owned, same_text};

verus! {

/// Bytes of the size.
pub const SIZE_LEN: usize = 8;

/// Bytes of the digest.
pub const DIGEST_LEN: usize = 64;

/// Bytes of the whole head.
pub const HEADER_LEN: usize = 72;

pub open spec fn pow256(k: nat) -> nat
    decreases k,
{
    if k == 0 {
        1
    } else {
        256 * pow256((k - 1) as nat)
    }
}

/// A number in `k` bytes, the upper first.
pub open spec fn be_bytes(n: nat, k: nat) -> Seq<u8>
    decreases k,
{
    if k == 0 {
        Seq::empty()
    } else {
        be_bytes(n / 256, (k - 1) as nat).push((n % 256) as u8)
    }
}

/// The number that some bytes stand for, the upper first.
pub open spec fn be_value(b: Seq<u8>) -> nat
    decreases b.len(),
{
    if b.len() == 0 {
        0
    } else {
        256 * be_value(b.drop_last()) + b.last() as nat
    }
}

proof fn lemma_be_round_trip(n: nat, k: nat)
    requires
        n < pow256(k),
    ensures
        be_bytes(n, k).len() == k,
        be_value(be_bytes(n, k)) == n,
    decreases k,
{
    if k > 0 {
        let front = be_bytes(n / 256, (k - 1) as nat);
        lemma_be_round_trip(n / 256, (k - 1) as nat);
        assert(front.push((n % 256) as u8).drop_last() =~= front);
    }
}

proof fn lemma_be_value_bound(b: Seq<u8>)
    ensures
        be_value(b) < pow256(b.len()),
    decreases b.len(),
{
    if b.len() > 0 {
        lemma_be_value_bound(b.drop_last());
    }
}

proof fn lemma_pow256_of_eight()
    ensures
        pow256(8) == 0x1_0000_0000_0000_0000,
        forall|k: nat| k <= 7 ==> #[trigger] pow256(k) <= pow256(7),
        pow256(7) == 0x100_0000_0000_0000,
{
    reveal_with_fuel(pow256, 9);
}

/// The text that some bytes stand for, with marks in place of bytes that stand
/// for none.
pub uninterp spec fn lossy(data: Seq<u8>) -> Seq<char>;

/// `String::from_utf8_lossy`: the text of the bytes; of valid bytes exactly
/// the text that they encode.
#[verifier::external_body]
fn lossy_text(data: &[u8]) -> (r: String)
    ensures
        r@ == lossy(data@),
        valid_utf8(data@) ==> r@ == decode_utf8(data@),
{
    String::from_utf8_lossy(data).to_string()
}

/// The head of a stream.
pub open spec fn header_bytes(size: u64, sha256: Seq<char>) -> Seq<u8> {
    be_bytes(size as nat, 8) + encode_utf8(sha256)
}

/// Writes the head of a stream.
pub fn write_header(size: u64, sha256: &str) -> (r: Vec<u8>)
    ensures
        r@ == header_bytes(size, sha256@),
{
    let mut out: Vec<u8> = Vec::new();
    push_be(size, 8, &mut out);
    proof {
        lemma_pow256_of_eight();
        lemma_be_round_trip(size as nat, 8);
    }
    assert(out@ =~= be_bytes(size as nat, 8));
    let text: &[u8] = sha256.as_bytes();
    let n: usize = text.len();
    let mut i: usize = 0;
    while i < n
        invariant
            n == text@.len(),
            i <= n,
            out@ == be_bytes(size as nat, 8) + text@.take(i as int),
        decreases n - i,
    {
        let b: u8 = text[i];
        out.push(b);
        i += 1;
        assert(out@ =~= be_bytes(size as nat, 8) + text@.take(i as int));
    }
    assert(text@.take(n as int) =~= text@);
    out
}

fn push_be(n: u64, k: u32, out: &mut Vec<u8>)
    ensures
        final(out)@ == old(out)@ + be_bytes(n as nat, k as nat),
    decreases k,
{
    if k == 0 {
        assert(out@ + Seq::<u8>::empty() =~= out@);
        return ;
    }
    push_be(n / 256, k - 1, out);
    out.push((n % 256) as u8);
    assert(out@ =~= old(out)@ + be_bytes(n as nat, k as nat));
}

/// What the head of a stream says.
pub struct Header {
    pub size: u64,
    pub sha256: String,
}

/// Reads the head of a stream.
pub fn read_header(data: &[u8]) -> (r: Header)
    requires
        data@.len() == HEADER_LEN,
    ensures
        r.size == be_value(data@.take(8)),
        r.sha256@ == lossy(data@.skip(8)),
        valid_utf8(data@.skip(8)) ==> r.sha256@ == decode_utf8(data@.skip(8)),
{
    let mut size: u64 = 0;
    let mut i: usize = 0;
    while i < SIZE_LEN
        invariant
            data@.len() == HEADER_LEN,
            i <= SIZE_LEN,
            size == be_value(data@.take(i as int)),
        decreases SIZE_LEN - i,
    {
        proof {
            lemma_be_value_bound(data@.take(i as int));
            lemma_pow256_of_eight();
            assert(data@.take(i + 1).drop_last() =~= data@.take(i as int));
            assert(size < pow256(7));
        }
        size = size * 256 + data[i] as u64;
        i += 1;
    }
    let rest: &[u8] = vstd::slice::slice_subrange(data, SIZE_LEN, HEADER_LEN);
    assert(rest@ =~= data@.skip(8));
    Header { size, sha256: lossy_text(rest) }
}

/// A reader gets from the head what the writer put there, for a digest that
/// fills its 64 bytes.
pub proof fn law_header_reads_back(size: u64, sha256: Seq<char>)
    requires
        encode_utf8(sha256).len() == 64,
    ensures
        header_bytes(size, sha256).len() == HEADER_LEN,
        be_value(header_bytes(size, sha256).take(8)) == size,
        valid_utf8(header_bytes(size, sha256).skip(8)),
        decode_utf8(header_bytes(size, sha256).skip(8)) == sha256,
{
    lemma_pow256_of_eight();
    lemma_be_round_trip(size as nat, 8);
    let all = header_bytes(size, sha256);
    assert(all.take(8) =~= be_bytes(size as nat, 8));
    assert(all.skip(8) =~= encode_utf8(sha256));
    encode_utf8_valid_utf8(sha256);
    encode_utf8_decode_utf8(sha256);
}

/// The text of a 32-byte digest fills the 64 bytes.
pub proof fn law_digest_text_fits(data: Seq<u8>)
    requires
        data.len() == 32,
    ensures
        encode_utf8(hex(data)).len() == 64,
{
    let t = hex(data);
    assert(t.len() == 64);
    assert forall|i: int| 0 <= i < t.len() implies (#[trigger] t[i]) as u32 <= 127 by {
        let b = data[i / 2];
        let half = if i % 2 == 0 {
            b / 16
        } else {
            b % 16
        };
        assert(half < 16);
        assert(t[i] == hex_digit(half));
    }
    assert(is_ascii_chars(t));
    is_ascii_chars_encode_utf8(t);
}

/// Why a head does not fit the offer, if it does not.
pub open spec fn header_refused(
    size: u64,
    sha256: Seq<char>,
    offered_size: u64,
    offered_sha256: Seq<char>,
    max_size: u64,
) -> Option<TransferErrorModel> {
    if sha256 != offered_sha256 {
        Some(TransferErrorModel::IntegrityError { expected: offered_sha256, actual: sha256 })
    } else if size != offered_size {
        Some(
            TransferErrorModel::Protocol(
                "Size mismatch: offer said "@ + decimal(offered_size as nat)
                    + ", stream header says "@ + decimal(size as nat),
            ),
        )
    } else if size > max_size {
        Some(
            TransferErrorModel::Protocol(
                "File size "@ + decimal(size as nat) + " exceeds max transfer size "@ + decimal(
                    max_size as nat,
                ),
            ),
        )
    } else {
        None
    }
}

/// Checks the head of a stream against the offer.
pub fn check_header(header: &Header, size: u64, sha256: &str, max_size: u64) -> (r: Result<
    (),
    TransferError,
>)
    ensures
        match r {
            Ok(_) => header_refused(header.size, header.sha256@, size, sha256@, max_size) is None,
            Err(e) => header_refused(header.size, header.sha256@, size, sha256@, max_size) == Some(
                e@,
            ),
        },
{
    if !same_text(header.sha256.as_str(), sha256) {
        return Err(
            TransferError::IntegrityError {
                expected: owned(sha256),
                actual: header.sha256.clone(),
            },
        );
    }
    let got: String = decimal_text(header.size);
    if header.size != size {
        let said: String = decimal_text(size);
        return Err(
            TransferError::Protocol(
                join4(
                    "Size mismatch: offer said ",
                    said.as_str(),
                    ", stream header says ",
                    got.as_str(),
                ),
            ),
        );
    }
    if header.size > max_size {
        let most: String = decimal_text(max_size);
        return Err(
            TransferError::Protocol(
                join4(
                    "File size ",
                    got.as_str(),
                    " exceeds max transfer size ",
                    most.as_str(),
                ),
            ),
        );
    }
    Ok(())
}

} // verus!
