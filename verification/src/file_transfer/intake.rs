//! Taking in the bytes of a file.
use vstd::prelude::*;

use crate::digest::{give_digest, hex, hex_text, new_hasher, sha256, take_in, taken_in, Hasher};
use crate::file_transfer::types::{TransferError, TransferErrorModel};
use crate::text::{decimal, decimal_text, join2, join4, owned, same_text};

verus! {

/// Bytes that are read at once.
pub const CHUNK_LEN: u64 = 65536;

/// What the receiver answers when the file arrived as promised.
pub const ACK: u8 = 1;

/// What it answers when it did not.
pub const NACK: u8 = 0;

/// The digest of bytes that come in pieces.
pub struct Digesting {
    hasher: Hasher,
    total: u64,
}

impl Digesting {
    /// The bytes so far.
    pub closed spec fn data(self) -> Seq<u8> {
        taken_in(self.hasher)
    }

    /// The count is that of the bytes.
    pub closed spec fn wf(self) -> bool {
        taken_in(self.hasher).len() == self.total
    }

    pub fn new() -> (r: Self)
        ensures
            r.wf(),
            r.data() == Seq::<u8>::empty(),
    {
        Digesting { hasher: new_hasher(), total: 0 }
    }

    /// How many bytes came so far.
    pub fn total(&self) -> (r: u64)
        requires
            self.wf(),
        ensures
            r == self.data().len(),
    {
        self.total
    }

    /// Takes a piece. All pieces together hold no more bytes than a count has
    /// room for.
    pub fn add(&mut self, piece: &[u8])
        requires
            old(self).wf(),
            old(self).data().len() + piece@.len() <= u64::MAX,
        ensures
            final(self).wf(),
            final(self).data() == old(self).data() + piece@,
    {
        let n: usize = piece.len();
        take_in(&mut self.hasher, piece);
        self.total = self.total + n as u64;
    }

    /// The digest in hexadecimal.
    pub fn finish(self) -> (r: String)
        ensures
            r@ == hex(sha256(self.data())),
            r@.len() == 64,
    {
        let d: Vec<u8> = give_digest(self.hasher);
        hex_text(d.as_slice())
    }
}

/// A file that is being received.
pub struct Intake {
    size: u64,
    digesting: Digesting,
}

/// The smaller of what is missing and a chunk.
pub open spec fn chunk_wanted(size: u64, got: nat) -> int {
    if size - got < CHUNK_LEN {
        size - got
    } else {
        CHUNK_LEN as int
    }
}

impl Intake {
    pub closed spec fn size(self) -> u64 {
        self.size
    }

    /// The bytes so far.
    pub closed spec fn data(self) -> Seq<u8> {
        self.digesting.data()
    }

    /// Never more bytes than announced.
    pub closed spec fn wf(self) -> bool {
        self.digesting.wf() && self.digesting.data().len() <= self.size
    }

    /// Begins a file of a size.
    pub fn begin(size: u64) -> (r: Self)
        ensures
            r.wf(),
            r.size() == size,
            r.data() == Seq::<u8>::empty(),
    {
        Intake { size, digesting: Digesting::new() }
    }

    /// How many bytes to read next; none when the file is complete.
    pub fn wanted(&self) -> (r: usize)
        requires
            self.wf(),
        ensures
            r == chunk_wanted(self.size(), self.data().len()),
            r == 0 <==> self.data().len() == self.size(),
    {
        let missing: u64 = self.size - self.digesting.total();
        if missing < CHUNK_LEN {
            missing as usize
        } else {
            CHUNK_LEN as usize
        }
    }

    /// How many bytes came so far.
    pub fn received(&self) -> (r: u64)
        requires
            self.wf(),
        ensures
            r == self.data().len(),
    {
        self.digesting.total()
    }

    /// Takes what was read.
    pub fn take(&mut self, chunk: &[u8])
        requires
            old(self).wf(),
            chunk@.len() <= chunk_wanted(old(self).size(), old(self).data().len()),
        ensures
            final(self).wf(),
            final(self).size() == old(self).size(),
            final(self).data() == old(self).data() + chunk@,
    {
        self.digesting.add(chunk);
    }

    /// The error of a stream that ended early.
    pub fn cut_short(&self) -> (r: TransferError)
        requires
            self.wf(),
        ensures
            r@ == TransferErrorModel::Io(
                "Connection closed after "@ + decimal(self.data().len()) + "/"@ + decimal(
                    self.size() as nat,
                ) + " bytes"@,
            ),
    {
        let got: String = decimal_text(self.digesting.total());
        let all: String = decimal_text(self.size);
        let head: String = join4("Connection closed after ", got.as_str(), "/", all.as_str());
        TransferError::Io(join2(head.as_str(), " bytes"))
    }

    /// Compares the digest of the bytes with the promised one, and gives it.
    pub fn finish(self, expected: &str) -> (r: Result<String, TransferError>)
        ensures
            match r {
                Ok(actual) => actual@ == expected@ && arrived_whole(self.data(), expected@),
                Err(e) => !arrived_whole(self.data(), expected@) && e@
                    == TransferErrorModel::IntegrityError {
                    expected: expected@,
                    actual: hex(sha256(self.data())),
                },
            },
    {
        let actual: String = self.digesting.finish();
        if same_text(actual.as_str(), expected) {
            Ok(actual)
        } else {
            Err(TransferError::IntegrityError { expected: owned(expected), actual })
        }
    }
}

/// The bytes are those whose digest was promised.
pub open spec fn arrived_whole(data: Seq<u8>, expected: Seq<char>) -> bool {
    hex(sha256(data)) == expected
}

/// The byte that answers a finished stream.
pub fn answer_byte(whole: bool) -> (r: u8)
    ensures
        r == (if whole {
            ACK
        } else {
            NACK
        }),
{
    if whole {
        ACK
    } else {
        NACK
    }
}

/// Reads the answer of the receiver of a file.
pub fn check_answer(answer: u8, digest: &str) -> (r: Result<(), TransferError>)
    ensures
        match r {
            Ok(_) => answer == ACK,
            Err(e) => answer != ACK && e@ == (TransferErrorModel::IntegrityError {
                expected: digest@,
                actual: "peer reported integrity failure"@,
            }),
        },
{
    if answer == ACK {
        Ok(())
    } else {
        Err(
            TransferError::IntegrityError {
                expected: owned(digest),
                actual: owned("peer reported integrity failure"),
            },
        )
    }
}

/// Nanoseconds that lie between two reports of progress at least.
pub const PROGRESS_PAUSE_NANOS: u64 = 250_000_000;

/// Whether a report of progress is due.
pub fn progress_due(since_last_nanos: u64) -> (r: bool)
    ensures
        r == (since_last_nanos >= PROGRESS_PAUSE_NANOS),
{
    since_last_nanos >= PROGRESS_PAUSE_NANOS
}

/// What the receiver accepts is what the sender digested: two files accepted
/// under one promise have the same digest.
pub proof fn law_accepted_files_share_their_digest(a: Seq<u8>, b: Seq<u8>, expected: Seq<char>)
    requires
        arrived_whole(a, expected),
        arrived_whole(b, expected),
    ensures
        sha256(a) == sha256(b),
{
    crate::digest::law_hex_is_injective(sha256(a), sha256(b));
}

} // verus!
