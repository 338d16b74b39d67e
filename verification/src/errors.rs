//! Error taxonomy of the client core.
//!
//! Every failure a caller can see is one of these variants; the loop treats
//! all of them as retryable except that ban-attempt outcomes are reported.
use vstd::prelude::*;

verus! {

/// Which precondition of the one-shot ban operation failed.
#[derive(Clone, Copy, Debug, PartialEq, Eq, Structural)]
pub enum Precondition {
    NotInBanPhase,
    AlreadyBanned,
    NoBanActionFound,
}

/// Errors of the client core.
#[derive(Clone, Debug)]
pub enum AppError {
    /// Install root or lockfile missing or malformed.
    PathError(String),
    /// Network or TLS failure reaching the local service.
    TransportError(String),
    /// Service reachable but its identity resource lacked the expected field.
    NotReadyError,
    /// Service reachable but no draft session is active or it failed to parse.
    NoSessionError,
    /// The act call returned a non-success status.
    ActionRejectedError(u16),
    /// The one-shot decision found no action should be taken.
    PreconditionError(Precondition),
}

pub type AppResult<T> = Result<T, AppError>;

impl Precondition {
    /// The caller-visible description of the failed precondition.
    pub fn describe(&self) -> (s: String)
        ensures
            *self is NotInBanPhase ==> s@ == "not in ban phase"@,
            *self is AlreadyBanned ==> s@ == "already banned"@,
            *self is NoBanActionFound ==> s@ == "no ban action found"@,
    {
        match self {
            Precondition::NotInBanPhase => "not in ban phase".to_owned(),
            Precondition::AlreadyBanned => "already banned".to_owned(),
            Precondition::NoBanActionFound => "no ban action found".to_owned(),
        }
    }
}

} // verus!
