//! What can go wrong while an account is provisioned.

use vstd::prelude::*;
use crate::api::ApiError;
use crate::db::StoreError;

verus! {

/// How long the backend refuses to send another code.
#[derive(Debug, Clone, Copy, PartialEq, Eq, Structural)]
pub enum BlockDuration {
    /// For this many minutes, a positive number.
    Minutes(u32),
    /// The backend set its blocked flag and named no duration.
    Indefinite,
}

/// The five kinds of failure that an operator can tell apart.
#[derive(Debug, Clone, Copy, PartialEq, Eq, Structural)]
pub enum ErrorKind {
    /// The network, the HTTP status or the decoding of a body.
    Transport,
    /// The backend would not send the code.
    SmsGate,
    /// The backend named a next step that is not known.
    Inconsistency,
    /// The login response lacked a session cookie or the token.
    Authentication,
    /// The account store failed.
    Store,
}

/// What [`ProvisionError`] stands for.
pub enum Failure {
    Transport(Seq<char>),
    Blocked(BlockDuration),
    SendFailed(Seq<char>),
    UnrecognizedStep(Seq<char>),
    MissingCookie(Seq<char>),
    CsrfNotFound,
    Store(Seq<char>),
}

impl Failure {
    /// The kind a failure belongs to.
    pub open spec fn kind(self) -> ErrorKind {
        match self {
            Failure::Transport(_) => ErrorKind::Transport,
            Failure::Blocked(_) => ErrorKind::SmsGate,
            Failure::SendFailed(_) => ErrorKind::SmsGate,
            Failure::UnrecognizedStep(_) => ErrorKind::Inconsistency,
            Failure::MissingCookie(_) => ErrorKind::Authentication,
            Failure::CsrfNotFound => ErrorKind::Authentication,
            Failure::Store(_) => ErrorKind::Store,
        }
    }
}

/// A failure of one step of provisioning. Each ends the attempt it
/// occurred in.
#[derive(Debug, Clone, PartialEq, Eq)]
pub enum ProvisionError {
    /// The transport failed; nothing was retried.
    Transport(ApiError),
    /// The backend refuses to send a code for the time being.
    Blocked(BlockDuration),
    /// The backend did not send the code, for the reason it gave.
    SendFailed(String),
    /// The backend named this next step, which is neither of the two known.
    UnrecognizedStep(String),
    /// The login response did not set the session cookie of this name.
    MissingCookie(String),
    /// The second session cookie holds no token.
    CsrfNotFound,
    /// The account store failed.
    Store(StoreError),
}

impl View for ProvisionError {
    type V = Failure;

    open spec fn view(&self) -> Failure {
        match self {
            ProvisionError::Transport(e) => Failure::Transport(e@),
            ProvisionError::Blocked(d) => Failure::Blocked(*d),
            ProvisionError::SendFailed(reason) => Failure::SendFailed(reason@),
            ProvisionError::UnrecognizedStep(value) => Failure::UnrecognizedStep(value@),
            ProvisionError::MissingCookie(name) => Failure::MissingCookie(name@),
            ProvisionError::CsrfNotFound => Failure::CsrfNotFound,
            ProvisionError::Store(e) => Failure::Store(e@),
        }
    }
}

impl ProvisionError {
    /// The kind this failure belongs to.
    pub fn kind(&self) -> (kind: ErrorKind)
        ensures
            kind == self@.kind(),
    {
        match self {
            ProvisionError::Transport(_) => ErrorKind::Transport,
            ProvisionError::Blocked(_) => ErrorKind::SmsGate,
            ProvisionError::SendFailed(_) => ErrorKind::SmsGate,
            ProvisionError::UnrecognizedStep(_) => ErrorKind::Inconsistency,
            ProvisionError::MissingCookie(_) => ErrorKind::Authentication,
            ProvisionError::CsrfNotFound => ErrorKind::Authentication,
            ProvisionError::Store(_) => ErrorKind::Store,
        }
    }
}

} // verus!
