use vstd::prelude::*;

verus! {

/// Every way a transition can be refused. Any refusal leaves all records as
/// they were.
#[derive(Clone, Copy, Debug, PartialEq, Eq, Structural)]
pub enum CrazySolError {
    AlreadyInitialized,
    NotInitialized,
    InjectionTooSmall,
    CooldownActive,
    CurrentlyPaused,
    InsufficientpCRAZY,
    InvalidFeePercentage,
    InvalidPubkey,
    InvalidRecruiter,
    InvalidScientistAddress,
    InvalidScientist,
    MissingAccount,
    NoYield,
    Overflow,
    InnoculationAlreadyHappened,
    Unauthorized,
    UsernameTooLong,
}

} // verus!
