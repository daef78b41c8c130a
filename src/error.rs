use vstd::prelude::*;

verus! {

/// Every named failure of the decision market.
#[derive(Clone, Copy, Debug, PartialEq, Eq, Structural)]
pub enum ErrorCode {
    /// The proposal has already left the pending state.
    ProposalAlreadyFinalized,
    /// Not enough slots have elapsed since the proposal was enqueued.
    ProposalTooYoung,
    /// Redemption was attempted before the proposal was finalized.
    ProposalStillPending,
    /// A market handed in is not the one bound to the proposal.
    MarketMismatch,
    /// The caller's timestamp lies before the market's last update.
    ClockRegression,
    /// A permissioned market was updated without its authority's signature.
    UnauthorizedOracleUpdate,
    /// A checked computation left the range of its integer type.
    ArithmeticOverflow,
    /// No treasury authority can be derived from the DAO's seeds.
    TreasuryDerivationFailed,
    /// A burn or a vault transfer of a redemption could not be carried out.
    RedemptionFailed,
}

} // verus!
