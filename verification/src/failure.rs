//! What can go wrong between preparing a call and holding its answer.

use vstd::prelude::*;

verus! {

/// `reqwest::Error`, the failure that the HTTP client reports. Opaque here:
/// the library only takes its message.
#[verifier::external_type_specification]
#[verifier::external_body]
pub struct ExClientError(reqwest::Error);

/// The steps of one exchange, in the order in which they are taken.
#[derive(Clone, Copy, Debug, PartialEq, Eq, Structural)]
pub enum Stage {
    /// The request is encoded as a JSON document.
    Encode,
    /// The document is posted and the head of the answer awaited.
    Send,
    /// The body of the answer is read.
    Receive,
    /// The body is decoded as a JSON-RPC response.
    Decode,
}

/// The layer at which an exchange failed.
#[derive(Clone, Copy, Debug, PartialEq, Eq, Structural)]
pub enum FailureKind {
    /// The HTTP client could not be set up.
    Client,
    /// The request could not be encoded; nothing was sent.
    Serialization,
    /// The request could not be delivered or the answer did not arrive whole:
    /// connection refused, name not resolved, timed out, interrupted.
    Transport,
    /// An answer arrived but its body is not a JSON-RPC response. An error
    /// page sent under a failure status ends here too: the status itself is
    /// never looked at.
    Decode,
}

/// A failed exchange: the layer that failed and a message for people.
#[derive(Clone, Debug, PartialEq, Eq)]
pub struct Failure {
    /// The layer that failed.
    pub kind: FailureKind,
    /// What the failing layer said.
    pub message: String,
}

/// The kind of the failure of an exchange that broke off at `stage`.
pub open spec fn kind_at(stage: Stage) -> FailureKind {
    match stage {
        Stage::Encode => FailureKind::Serialization,
        Stage::Send => FailureKind::Transport,
        Stage::Receive => FailureKind::Transport,
        Stage::Decode => FailureKind::Decode,
    }
}

impl Failure {
    /// The failure of an exchange that broke off at `stage` with `message`.
    /// What failed before or on the network is a transport failure, whatever
    /// the HTTP client calls it; only a body that arrived whole and could not
    /// be understood is a decode failure.
    pub fn at(stage: Stage, message: String) -> (failure: Failure)
        ensures
            failure.kind == kind_at(stage),
            failure.message == message,
    {
        let kind = match stage {
            Stage::Encode => FailureKind::Serialization,
            Stage::Send => FailureKind::Transport,
            Stage::Receive => FailureKind::Transport,
            Stage::Decode => FailureKind::Decode,
        };
        Failure { kind, message }
    }
}

} // verus!
