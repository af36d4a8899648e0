//! Digests of file contents, hexadecimal texts and random tokens.
use sha2::Digest;

use vstd::prelude::*;

verus! {

/// The digit of a number below sixteen.
pub open spec fn hex_digit(n: u8) -> char {
    if n < 10 {
        (n + '0' as u8) as char
    } else {
        (n - 10 + 'a' as u8) as char
    }
}

/// Two digits for each byte, the upper half first.
pub open spec fn hex(data: Seq<u8>) -> Seq<char> {
    Seq::new(
        2 * data.len(),
        |i: int|
            hex_digit(
                if i % 2 == 0 {
                    data[i / 2] / 16
                } else {
                    data[i / 2] % 16
                },
            ),
    )
}

/// `hex::encode`: two lowercase hexadecimal digits for each byte.
#[verifier::external_body]
pub(crate) fn hex_text(data: &[u8]) -> (r: String)
    ensures
        r@ == hex(data@),
{
    hex::encode(data)
}

/// Different bytes of the same number have different texts.
pub proof fn law_hex_is_injective(a: Seq<u8>, b: Seq<u8>)
    requires
        hex(a) == hex(b),
    ensures
        a == b,
{
    assert(hex(a).len() == 2 * a.len());
    assert(hex(b).len() == 2 * b.len());
    assert forall|i: int| 0 <= i < a.len() implies a[i] == b[i] by {
        assert(hex(a)[2 * i] == hex_digit(a[i] / 16));
        assert(hex(b)[2 * i] == hex_digit(b[i] / 16));
        assert(hex(a)[2 * i + 1] == hex_digit(a[i] % 16));
        assert(hex(b)[2 * i + 1] == hex_digit(b[i] % 16));
    }
    assert(a =~= b);
}

/// A SHA-256 hasher (`sha2::Sha256`): it takes bytes in, and in the end gives
/// their digest out.
#[verifier::external_body]
pub struct Hasher {
    inner: sha2::Sha256,
}

/// The bytes that a hasher has taken in, in order.
pub uninterp spec fn taken_in(h: Hasher) -> Seq<u8>;

/// The SHA-256 digest of some bytes.
pub uninterp spec fn sha256(data: Seq<u8>) -> Seq<u8>;

/// `Sha256::new`: a hasher that has taken in nothing.
#[verifier::external_body]
pub(crate) fn new_hasher() -> (r: Hasher)
    ensures
        taken_in(r) == Seq::<u8>::empty(),
{
    Hasher { inner: sha2::Sha256::new() }
}

/// `Sha256::update`: the hasher takes in `data` behind what it has taken in.
/// Its counter of blocks does not overflow while the bytes are this few.
#[verifier::external_body]
pub(crate) fn take_in(h: &mut Hasher, data: &[u8])
    requires
        taken_in(*old(h)).len() + data@.len() <= u64::MAX,
    ensures
        taken_in(*final(h)) == taken_in(*old(h)) + data@,
{
    h.inner.update(data)
}

/// `Sha256::finalize`: the digest of the bytes taken in, 32 bytes.
#[verifier::external_body]
pub(crate) fn give_digest(h: Hasher) -> (r: Vec<u8>)
    ensures
        r@ == sha256(taken_in(h)),
        r@.len() == 32,
{
    h.inner.finalize().to_vec()
}

/// `getrandom::getrandom` on 32 bytes: random bytes, or the text of the
/// system's error.
#[verifier::external_body]
pub(crate) fn random_bytes() -> (r: Result<[u8; 32], String>) {
    let mut token = [0u8; 32];
    match getrandom::getrandom(&mut token) {
        Ok(()) => Ok(token),
        Err(e) => Err(e.to_string()),
    }
}

/// The places of the hyphens in a random id.
pub open spec fn is_id_hyphen(i: int) -> bool {
    i == 8 || i == 13 || i == 18 || i == 23
}

/// The text of a random id: 32 lowercase hexadecimal digits in groups of 8, 4,
/// 4, 4 and 12, with the marks of its kind at the head of the third and the
/// fourth group.
pub open spec fn is_random_id(s: Seq<char>) -> bool {
    &&& s.len() == 36
    &&& forall|i: int|
        0 <= i < 36 ==> if is_id_hyphen(i) {
            #[trigger] s[i] == '-'
        } else {
            ('0' <= s[i] && s[i] <= '9') || ('a' <= s[i] && s[i] <= 'f')
        }
    &&& s[14] == '4'
    &&& s[19] == '8' || s[19] == '9' || s[19] == 'a' || s[19] == 'b'
}

/// `uuid::Uuid::new_v4`, as text: a random id. Which one is not said, nor that
/// two calls differ: that is chance. It panics where the system has no random
/// bytes to give.
#[verifier::external_body]
pub(crate) fn random_id() -> (r: String)
    ensures
        is_random_id(r@),
{
    uuid::Uuid::new_v4().to_string()
}

} // verus!
