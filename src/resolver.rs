use vstd::prelude::*;

use crate::error::ErrorCode;
use crate::oracle::Amm;

verus! {

/// Basis points that make up parity.
pub const BPS_SCALE: u64 = 10000;

/// Identity of an account: the 32 bytes of its address.
pub type Key = [u8; 32];

/// Where a proposal stands in its lifecycle.
#[derive(Clone, Copy, Debug, PartialEq, Eq, Structural)]
pub enum ProposalState {
    Pending,
    Passed,
    Failed,
}

/// Global parameters of one DAO instance.
#[derive(Clone, Copy, Debug, PartialEq, Eq, Structural)]
pub struct Dao {
    /// Minimum number of slots between enqueueing and finalizing a proposal.
    pub slots_per_proposal: u64,
    /// How far, in basis points above parity, the pass price must exceed the fail price.
    pub pass_threshold_bps: u64,
}

/// A proposal and the identities of the two markets bound to it.
#[derive(Clone, Copy, Debug)]
pub struct Proposal {
    pub number: u64,
    pub state: ProposalState,
    pub slot_enqueued: u64,
    pub pass_market_id: Key,
    pub fail_market_id: Key,
}

/// Compares two addresses byte by byte.
pub fn same_key(a: &Key, b: &Key) -> (r: bool)
    ensures
        r == (*a == *b),
{
    let mut i: usize = 0;
    while i < 32
        invariant
            0 <= i <= 32,
            forall|j: int| 0 <= j < i ==> a[j] == b[j],
        decreases 32 - i,
    {
        if a[i] != b[i] {
            return false;
        }
        i = i + 1;
    }
    assert(*a =~= *b);
    true
}

/// The price the pass market must beat: `fail_ltwap * (10000 + bps) / 10000`,
/// rounded down.
pub open spec fn threshold_of(fail_ltwap: u64, bps: u64) -> int {
    fail_ltwap * (BPS_SCALE + bps) / (BPS_SCALE as int)
}

/// The threshold rule: the error, or the state the proposal moves to.
pub open spec fn decision(pass_ltwap: u64, fail_ltwap: u64, bps: u64) -> Result<ProposalState, ErrorCode> {
    if BPS_SCALE + bps > u64::MAX {
        Err(ErrorCode::ArithmeticOverflow)
    } else if pass_ltwap > threshold_of(fail_ltwap, bps) {
        Ok(ProposalState::Passed)
    } else {
        Ok(ProposalState::Failed)
    }
}

/// What finalizing yields: the error, or the state the proposal moves to.
pub open spec fn finalize_result(
    proposal: Proposal,
    dao: Dao,
    pass_market_id: Key,
    pass_ltwap: u64,
    fail_market_id: Key,
    fail_ltwap: u64,
    current_slot: u64,
) -> Result<ProposalState, ErrorCode> {
    if proposal.state != ProposalState::Pending {
        Err(ErrorCode::ProposalAlreadyFinalized)
    } else if current_slot < proposal.slot_enqueued + dao.slots_per_proposal {
        Err(ErrorCode::ProposalTooYoung)
    } else if pass_market_id != proposal.pass_market_id || fail_market_id != proposal.fail_market_id {
        Err(ErrorCode::MarketMismatch)
    } else {
        decision(pass_ltwap, fail_ltwap, dao.pass_threshold_bps)
    }
}

/// Computes `fail_ltwap * (10000 + bps) / 10000` without wrapping.
pub fn pass_threshold(fail_ltwap: u64, bps: u64) -> (r: Result<u128, ErrorCode>)
    ensures
        BPS_SCALE + bps > u64::MAX ==> r == Err::<u128, ErrorCode>(ErrorCode::ArithmeticOverflow),
        BPS_SCALE + bps <= u64::MAX ==> (r matches Ok(t) && t == threshold_of(fail_ltwap, bps)),
{
    if bps > u64::MAX - BPS_SCALE {
        return Err(ErrorCode::ArithmeticOverflow);
    }
    let scale: u64 = BPS_SCALE + bps;
    proof {
        lemma_product_fits(fail_ltwap as int, scale as int);
    }
    let product: u128 = (fail_ltwap as u128) * (scale as u128);
    Ok(product / (BPS_SCALE as u128))
}

/// Applies the threshold rule; a tie goes to `Failed`.
pub fn decide(pass_ltwap: u64, fail_ltwap: u64, bps: u64) -> (r: Result<ProposalState, ErrorCode>)
    ensures
        r == decision(pass_ltwap, fail_ltwap, bps),
{
    let threshold = pass_threshold(fail_ltwap, bps)?;
    if (pass_ltwap as u128) > threshold {
        Ok(ProposalState::Passed)
    } else {
        Ok(ProposalState::Failed)
    }
}

impl Proposal {
    /// A pending proposal bound to the given markets.
    pub fn new(number: u64, slot_enqueued: u64, pass_market_id: Key, fail_market_id: Key) -> (r: Proposal)
        ensures
            r == (Proposal {
                number,
                state: ProposalState::Pending,
                slot_enqueued,
                pass_market_id,
                fail_market_id,
            }),
    {
        Proposal { number, state: ProposalState::Pending, slot_enqueued, pass_market_id, fail_market_id }
    }

    /// Resolves a pending proposal once it is old enough, by comparing the
    /// two markets' time-weighted prices. On failure nothing changes.
    pub fn finalize(
        &mut self,
        dao: &Dao,
        pass_market_id: Key,
        pass_market: &Amm,
        fail_market_id: Key,
        fail_market: &Amm,
        current_slot: u64,
    ) -> (r: Result<ProposalState, ErrorCode>)
        ensures
            r == finalize_result(
                *old(self),
                *dao,
                pass_market_id,
                pass_market.ltwap_latest,
                fail_market_id,
                fail_market.ltwap_latest,
                current_slot,
            ),
            r matches Ok(s) ==> *final(self) == (Proposal { state: s, ..*old(self) }),
            r is Err ==> *final(self) == *old(self),
    {
        if self.state != ProposalState::Pending {
            return Err(ErrorCode::ProposalAlreadyFinalized);
        }
        if current_slot < self.slot_enqueued || current_slot - self.slot_enqueued < dao.slots_per_proposal {
            return Err(ErrorCode::ProposalTooYoung);
        }
        if !same_key(&pass_market_id, &self.pass_market_id) || !same_key(&fail_market_id, &self.fail_market_id) {
            return Err(ErrorCode::MarketMismatch);
        }
        let state = decide(pass_market.ltwap_latest, fail_market.ltwap_latest, dao.pass_threshold_bps)?;
        self.state = state;
        Ok(state)
    }
}

proof fn lemma_product_fits(a: int, b: int)
    requires
        0 <= a <= u64::MAX,
        0 <= b <= u64::MAX,
    ensures
        a * b <= u128::MAX,
{
    assert(a * b <= u64::MAX * u64::MAX) by (nonlinear_arith)
        requires 0 <= a <= u64::MAX, 0 <= b <= u64::MAX;
}

/// Finalizing depends on nothing but the proposal, the DAO, the markets'
/// identities and prices, and the slot: the same inputs give the same result.
pub proof fn lemma_finalize_deterministic(
    proposal: Proposal,
    dao: Dao,
    pass_market_id: Key,
    pass_a: Amm,
    pass_b: Amm,
    fail_market_id: Key,
    fail_a: Amm,
    fail_b: Amm,
    current_slot: u64,
)
    requires
        pass_a.ltwap_latest == pass_b.ltwap_latest,
        fail_a.ltwap_latest == fail_b.ltwap_latest,
    ensures
        finalize_result(proposal, dao, pass_market_id, pass_a.ltwap_latest, fail_market_id,
            fail_a.ltwap_latest, current_slot)
            == finalize_result(proposal, dao, pass_market_id, pass_b.ltwap_latest, fail_market_id,
            fail_b.ltwap_latest, current_slot),
{
}

/// Whenever an eligible proposal is decided at all, the outcome depends only
/// on the two prices and the threshold.
pub proof fn lemma_outcome_deterministic(
    proposal: Proposal,
    dao_a: Dao,
    dao_b: Dao,
    pass_id_a: Key,
    pass_id_b: Key,
    fail_id_a: Key,
    fail_id_b: Key,
    pass_ltwap: u64,
    fail_ltwap: u64,
    slot_a: u64,
    slot_b: u64,
)
    requires
        dao_a.pass_threshold_bps == dao_b.pass_threshold_bps,
        finalize_result(proposal, dao_a, pass_id_a, pass_ltwap, fail_id_a, fail_ltwap, slot_a) is Ok,
        finalize_result(proposal, dao_b, pass_id_b, pass_ltwap, fail_id_b, fail_ltwap, slot_b) is Ok,
    ensures
        finalize_result(proposal, dao_a, pass_id_a, pass_ltwap, fail_id_a, fail_ltwap, slot_a)
            == finalize_result(proposal, dao_b, pass_id_b, pass_ltwap, fail_id_b, fail_ltwap, slot_b),
{
}

/// When the pass price sits exactly on the threshold, the proposal fails.
pub proof fn lemma_tie_fails(pass_ltwap: u64, fail_ltwap: u64, bps: u64)
    requires
        BPS_SCALE + bps <= u64::MAX,
        pass_ltwap * BPS_SCALE == fail_ltwap * (BPS_SCALE + bps),
    ensures
        decision(pass_ltwap, fail_ltwap, bps) == Ok::<ProposalState, ErrorCode>(ProposalState::Failed),
{
    let p = pass_ltwap as int;
    let f = fail_ltwap as int * (BPS_SCALE + bps);
    assert(f / 10000 == p) by (nonlinear_arith)
        requires p * 10000 == f;
}

/// A proposal is finalized at most once: once a call has succeeded, every
/// later call fails with `ProposalAlreadyFinalized` and changes nothing.
pub proof fn lemma_single_transition(
    proposal: Proposal,
    dao: Dao,
    pass_market_id: Key,
    pass_ltwap: u64,
    fail_market_id: Key,
    fail_ltwap: u64,
    current_slot: u64,
    later_dao: Dao,
    later_pass_market_id: Key,
    later_pass_ltwap: u64,
    later_fail_market_id: Key,
    later_fail_ltwap: u64,
    later_slot: u64,
)
    requires
        finalize_result(proposal, dao, pass_market_id, pass_ltwap, fail_market_id, fail_ltwap,
            current_slot) is Ok,
    ensures
        ({
            let s = finalize_result(proposal, dao, pass_market_id, pass_ltwap, fail_market_id,
                fail_ltwap, current_slot)->Ok_0;
            &&& s != ProposalState::Pending
            &&& finalize_result(Proposal { state: s, ..proposal }, later_dao, later_pass_market_id,
                later_pass_ltwap, later_fail_market_id, later_fail_ltwap, later_slot)
                == Err::<ProposalState, ErrorCode>(ErrorCode::ProposalAlreadyFinalized)
        }),
{
}

} // verus!
