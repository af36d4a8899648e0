//! Offers, messages, events and errors of file transfers.
use vstd::prelude::*;

use crate::text::{decimal, decimal_text, join2, join4, owned};

verus! {

/// A file that a peer wants to send.
#[derive(Debug)]
pub struct FileOffer {
    pub from_peer: String,
    pub from_name: String,
    pub file_name: String,
    pub size: u64,
    pub sha256: String,
    /// A base name; empty where the peer suggested none that is safe.
    pub suggested_path: String,
    pub token: String,
}

/// The texts of a [`FileOffer`].
pub struct OfferModel {
    pub from_peer: Seq<char>,
    pub from_name: Seq<char>,
    pub file_name: Seq<char>,
    pub size: u64,
    pub sha256: Seq<char>,
    pub suggested_path: Seq<char>,
    pub token: Seq<char>,
}

impl View for FileOffer {
    type V = OfferModel;

    open spec fn view(&self) -> OfferModel {
        OfferModel {
            from_peer: self.from_peer@,
            from_name: self.from_name@,
            file_name: self.file_name@,
            size: self.size,
            sha256: self.sha256@,
            suggested_path: self.suggested_path@,
            token: self.token@,
        }
    }
}

impl Clone for FileOffer {
    fn clone(&self) -> (r: Self)
        ensures
            r == *self,
    {
        FileOffer {
            from_peer: self.from_peer.clone(),
            from_name: self.from_name.clone(),
            file_name: self.file_name.clone(),
            size: self.size,
            sha256: self.sha256.clone(),
            suggested_path: self.suggested_path.clone(),
            token: self.token.clone(),
        }
    }
}

/// What peers say to each other about files.
#[derive(Debug)]
#[allow(inconsistent_fields)]
pub enum FtMessage {
    Offer {
        file_name: String,
        size: u64,
        sha256: String,
        save_path: String,
        token: String,
        tcp_port: u16,
    },
    Accept { token: String, tcp_port: u16 },
    Reject { token: String, reason: String },
    PullRequest { path: String, requester_id: String, token: String },
}

/// The texts of an [`FtMessage`].
#[allow(inconsistent_fields)]
pub enum MessageModel {
    Offer {
        file_name: Seq<char>,
        size: u64,
        sha256: Seq<char>,
        save_path: Seq<char>,
        token: Seq<char>,
        tcp_port: u16,
    },
    Accept { token: Seq<char>, tcp_port: u16 },
    Reject { token: Seq<char>, reason: Seq<char> },
    PullRequest { path: Seq<char>, requester_id: Seq<char>, token: Seq<char> },
}

impl View for FtMessage {
    type V = MessageModel;

    open spec fn view(&self) -> MessageModel {
        match self {
            FtMessage::Offer { file_name, size, sha256, save_path, token, tcp_port } => {
                MessageModel::Offer {
                    file_name: file_name@,
                    size: *size,
                    sha256: sha256@,
                    save_path: save_path@,
                    token: token@,
                    tcp_port: *tcp_port,
                }
            },
            FtMessage::Accept { token, tcp_port } => MessageModel::Accept {
                token: token@,
                tcp_port: *tcp_port,
            },
            FtMessage::Reject { token, reason } => MessageModel::Reject {
                token: token@,
                reason: reason@,
            },
            FtMessage::PullRequest { path, requester_id, token } => MessageModel::PullRequest {
                path: path@,
                requester_id: requester_id@,
                token: token@,
            },
        }
    }
}

/// What the application decided about an offer.
#[derive(Debug)]
pub enum OfferDecision {
    Accept { save_path: String },
    Reject { reason: String },
}

/// What happens to a file that is there already.
#[derive(Debug, Clone, Copy, PartialEq, Eq, Structural)]
pub enum OverwritePolicy {
    /// The received file is not kept.
    Reject,
    /// The received file takes its place.
    Replace,
    /// The received file gets a number.
    Rename,
}

#[derive(Debug, Clone, Copy, PartialEq, Eq, Structural)]
pub enum TransferDirection {
    Send,
    Receive,
}

/// How far a transfer is.
#[derive(Debug, Clone)]
pub struct TransferProgress {
    pub token: String,
    pub direction: TransferDirection,
    pub file_name: String,
    pub bytes_transferred: u64,
    pub total_bytes: u64,
    /// Bytes per second, as the bits of a double.
    pub speed_bps_bits: u64,
}

/// What becomes of transfers.
#[derive(Debug, Clone)]
#[allow(inconsistent_fields)]
pub enum FileTransferEvent {
    OfferReceived(FileOffer),
    Hashing { token: String, file_name: String, bytes_hashed: u64, total_bytes: u64 },
    WaitingForAccept { token: String, file_name: String },
    Progress(TransferProgress),
    Completed {
        token: String,
        direction: TransferDirection,
        file_name: String,
        bytes_transferred: u64,
        sha256: String,
        /// Seconds, as the bits of a double.
        elapsed_secs_bits: u64,
    },
    Rejected { token: String, file_name: String, reason: String },
    Failed { token: String, direction: TransferDirection, file_name: String, reason: String },
}

/// Why a transfer failed.
#[derive(Debug)]
pub enum TransferError {
    Rejected(String),
    Timeout,
    Protocol(String),
    Node(String),
    Io(String),
    IntegrityError { expected: String, actual: String },
}

/// The texts of a [`TransferError`].
pub enum TransferErrorModel {
    Rejected(Seq<char>),
    Timeout,
    Protocol(Seq<char>),
    Node(Seq<char>),
    Io(Seq<char>),
    IntegrityError { expected: Seq<char>, actual: Seq<char> },
}

impl View for TransferError {
    type V = TransferErrorModel;

    open spec fn view(&self) -> TransferErrorModel {
        match self {
            TransferError::Rejected(s) => TransferErrorModel::Rejected(s@),
            TransferError::Timeout => TransferErrorModel::Timeout,
            TransferError::Protocol(s) => TransferErrorModel::Protocol(s@),
            TransferError::Node(s) => TransferErrorModel::Node(s@),
            TransferError::Io(s) => TransferErrorModel::Io(s@),
            TransferError::IntegrityError { expected, actual } => {
                TransferErrorModel::IntegrityError { expected: expected@, actual: actual@ }
            },
        }
    }
}

/// What was asked of the node when it failed.
pub enum Errand {
    Listen,
    SendAccept,
    SendReject,
    SendOffer,
    OpenTcp { peer: String, port: u16 },
}

pub open spec fn errand_text(errand: Errand) -> Seq<char> {
    match errand {
        Errand::Listen => "Failed to listen TCP"@,
        Errand::SendAccept => "Failed to send ACCEPT"@,
        Errand::SendReject => "Failed to send REJECT"@,
        Errand::SendOffer => "Failed to send OFFER"@,
        Errand::OpenTcp { peer, port } => "Failed to open TCP to "@ + peer@ + ":"@ + decimal(
            port as nat,
        ),
    }
}

/// The error of something that the node could not do.
pub fn node_failure(errand: &Errand, why: &str) -> (r: TransferError)
    ensures
        r@ == TransferErrorModel::Node(errand_text(*errand) + ": "@ + why@),
{
    let what: String = match errand {
        Errand::Listen => owned("Failed to listen TCP"),
        Errand::SendAccept => owned("Failed to send ACCEPT"),
        Errand::SendReject => owned("Failed to send REJECT"),
        Errand::SendOffer => owned("Failed to send OFFER"),
        Errand::OpenTcp { peer, port } => {
            let number: String = decimal_text(*port as u64);
            join4("Failed to open TCP to ", peer.as_str(), ":", number.as_str())
        },
    };
    let head: String = join2(what.as_str(), ": ");
    TransferError::Node(join2(head.as_str(), why))
}

} // verus!
