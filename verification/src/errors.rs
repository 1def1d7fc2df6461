use vstd::prelude::*;

verus! {

/// The error kinds a call can surface. Every error aborts the whole call:
/// a caller that receives one observes no balance mutation at all.
#[derive(Clone, Copy, Debug, PartialEq, Eq, Structural)]
pub enum ErrorCode {
    /// A transfer's source balance is less than the requested amount.
    InsufficientFunds,
    /// A payout's derivation tag does not match the custody account's
    /// recorded tag, or a restricted call was made by the wrong identity.
    AuthorizationMismatch,
    /// A free play was requested with fewer than the required referrals.
    InsufficientReferrals,
    /// An amount computation would wrap; the call aborts instead.
    ArithmeticOverflow,
}

} // verus!
