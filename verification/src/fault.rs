//! The conditions that end the bring-up.

use vstd::prelude::*;

verus! {

/// A fatal condition. None of them is retried.
#[derive(Clone, Copy, Debug, PartialEq, Eq, Structural)]
pub enum Fault {
    /// A configured watchtower URI lacks one of its halves.
    MalformedWatchtowerUri,
    /// A reply of the daemon is not text, or not JSON.
    UnreadableReply,
    /// A reply of the daemon is JSON of an unexpected shape.
    InvalidReply,
    /// The error message inside a reply is not a string.
    InvalidErrorReply,
    /// The tower's description could not be read, or names no URI.
    UnreadableTowerInfo,
    /// The daemon failed the request for a seed phrase.
    SeedRefused,
    /// The daemon rejected the wallet initialisation.
    WalletInitRefused,
    /// The daemon rejected the password change.
    RotationRefused,
    /// The daemon rejected the unlock.
    UnlockRefused,
    /// The channel-backup restore was rejected.
    RestoreRefused,
    /// A command could not be run at all.
    GatewayFailed,
    /// The secret could not be written to its file.
    CredentialNotPersisted,
    /// The stale routing-graph cache could not be removed.
    GraphCacheNotDropped,
    /// The restore marker could not be removed.
    RestoreMarkerNotCleared,
    /// The chain backend answered the first sync query with an error.
    BackendUnreadable,
    /// The stored secret is longer than the encoders take.
    SecretTooLong,
    /// The JSON codec refused to write a request.
    RequestNotEncodable,
    /// The random bytes handed in do not have the length that was asked for.
    BadEntropy,
    /// An event arrived that the machine was not waiting for.
    OutOfTurn,
}

/// The two kinds of fatal condition: one that only a changed configuration
/// mends, and one that arose while operating.
#[derive(Clone, Copy, Debug, PartialEq, Eq, Structural)]
pub enum FaultKind {
    Configuration,
    Operational,
}

impl Fault {
    /// The message with which the process ends on this fault.
    pub open spec fn message_spec(self) -> Seq<char> {
        match self {
            Fault::MalformedWatchtowerUri => "Couldn't parse the watchtower URI"@,
            Fault::UnreadableReply => "Unreadable reply from the daemon. Exiting."@,
            Fault::InvalidReply => "Invalid output from the daemon. Exiting."@,
            Fault::InvalidErrorReply => "Invalid error output from the daemon. Exiting."@,
            Fault::UnreadableTowerInfo => "Failed to parse Tower Info JSON response"@,
            Fault::SeedRefused => "Error generating seed. Exiting."@,
            Fault::WalletInitRefused => "Error creating wallet. Exiting."@,
            Fault::RotationRefused => "Error unlocking wallet. Exiting."@,
            Fault::UnlockRefused => "Error unlocking wallet. Exiting."@,
            Fault::RestoreRefused => "Error initiating SCB recovery. Exiting."@,
            Fault::GatewayFailed => "Failed to run a command. Exiting."@,
            Fault::CredentialNotPersisted => "Could not store the wallet password. Exiting."@,
            Fault::GraphCacheNotDropped => "Could not remove the graph cache. Exiting."@,
            Fault::RestoreMarkerNotCleared => "Could not remove the restore marker. Exiting."@,
            Fault::BackendUnreadable => "Bitcoin RPC Error"@,
            Fault::SecretTooLong => "The stored wallet password is too long. Exiting."@,
            Fault::RequestNotEncodable => "Could not encode a request. Exiting."@,
            Fault::BadEntropy => "Could not read random bytes. Exiting."@,
            Fault::OutOfTurn => "Unexpected answer. Exiting."@,
        }
    }

    /// The message with which the process ends on this fault.
    pub fn message(&self) -> (text: String)
        ensures
            text@ == self.message_spec(),
    {
        match self {
            Fault::MalformedWatchtowerUri => "Couldn't parse the watchtower URI".to_owned(),
            Fault::UnreadableReply => "Unreadable reply from the daemon. Exiting.".to_owned(),
            Fault::InvalidReply => "Invalid output from the daemon. Exiting.".to_owned(),
            Fault::InvalidErrorReply => "Invalid error output from the daemon. Exiting.".to_owned(),
            Fault::UnreadableTowerInfo => "Failed to parse Tower Info JSON response".to_owned(),
            Fault::SeedRefused => "Error generating seed. Exiting.".to_owned(),
            Fault::WalletInitRefused => "Error creating wallet. Exiting.".to_owned(),
            Fault::RotationRefused => "Error unlocking wallet. Exiting.".to_owned(),
            Fault::UnlockRefused => "Error unlocking wallet. Exiting.".to_owned(),
            Fault::RestoreRefused => "Error initiating SCB recovery. Exiting.".to_owned(),
            Fault::GatewayFailed => "Failed to run a command. Exiting.".to_owned(),
            Fault::CredentialNotPersisted => "Could not store the wallet password. Exiting.".to_owned(),
            Fault::GraphCacheNotDropped => "Could not remove the graph cache. Exiting.".to_owned(),
            Fault::RestoreMarkerNotCleared => "Could not remove the restore marker. Exiting.".to_owned(),
            Fault::BackendUnreadable => "Bitcoin RPC Error".to_owned(),
            Fault::SecretTooLong => "The stored wallet password is too long. Exiting.".to_owned(),
            Fault::RequestNotEncodable => "Could not encode a request. Exiting.".to_owned(),
            Fault::BadEntropy => "Could not read random bytes. Exiting.".to_owned(),
            Fault::OutOfTurn => "Unexpected answer. Exiting.".to_owned(),
        }
    }

    /// A malformed watchtower URI and a reply of unparseable shape are
    /// configuration faults; every other fault is operational.
    pub open spec fn kind_spec(self) -> FaultKind {
        match self {
            Fault::MalformedWatchtowerUri
            | Fault::UnreadableReply
            | Fault::InvalidReply
            | Fault::InvalidErrorReply
            | Fault::UnreadableTowerInfo => FaultKind::Configuration,
            _ => FaultKind::Operational,
        }
    }

    /// The kind of this fault.
    pub fn kind(&self) -> (k: FaultKind)
        ensures
            k == self.kind_spec(),
    {
        match self {
            Fault::MalformedWatchtowerUri
            | Fault::UnreadableReply
            | Fault::InvalidReply
            | Fault::InvalidErrorReply
            | Fault::UnreadableTowerInfo => FaultKind::Configuration,
            _ => FaultKind::Operational,
        }
    }
}

} // verus!
