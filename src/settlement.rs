use vstd::prelude::*;

use crate::error::ErrorCode;
use crate::resolver::ProposalState;

verus! {

/// A user's balances of the four conditional tokens of one proposal.
#[derive(Clone, Copy, Debug, PartialEq, Eq, Structural)]
pub struct ConditionalPosition {
    pub pass_base: u64,
    pub pass_quote: u64,
    pub fail_base: u64,
    pub fail_quote: u64,
}

/// Balances of the underlying base and quote assets.
#[derive(Clone, Copy, Debug, PartialEq, Eq, Structural)]
pub struct Holdings {
    pub base: u64,
    pub quote: u64,
}

/// What one redemption burned and paid out.
#[derive(Clone, Copy, Debug, PartialEq, Eq, Structural)]
pub struct Redemption {
    pub burned: ConditionalPosition,
    pub base_paid: u64,
    pub quote_paid: u64,
}

/// The position with every balance at zero.
pub open spec fn empty_position() -> ConditionalPosition {
    ConditionalPosition { pass_base: 0, pass_quote: 0, fail_base: 0, fail_quote: 0 }
}

/// Base owed to the holder of `p` under a finalized outcome: the pass-base
/// balance when the proposal passed, the fail-base balance when it failed.
pub open spec fn base_owed(state: ProposalState, p: ConditionalPosition) -> u64 {
    if state == ProposalState::Passed {
        p.pass_base
    } else {
        p.fail_base
    }
}

/// Quote owed to the holder of `p`: the pass-quote balance, whatever the outcome.
pub open spec fn quote_owed(state: ProposalState, p: ConditionalPosition) -> u64 {
    p.pass_quote
}

/// What redeeming yields: the error, or the redemption together with the
/// position, vault and user balances afterwards.
pub open spec fn redeem_result(
    state: ProposalState,
    position: ConditionalPosition,
    vault: Holdings,
    user: Holdings,
) -> Result<(Redemption, ConditionalPosition, Holdings, Holdings), ErrorCode> {
    let base = base_owed(state, position);
    let quote = quote_owed(state, position);
    if state == ProposalState::Pending {
        Err(ErrorCode::ProposalStillPending)
    } else if vault.base < base || vault.quote < quote || user.base + base > u64::MAX
        || user.quote + quote > u64::MAX {
        Err(ErrorCode::RedemptionFailed)
    } else {
        Ok((
            Redemption { burned: position, base_paid: base, quote_paid: quote },
            empty_position(),
            Holdings { base: (vault.base - base) as u64, quote: (vault.quote - quote) as u64 },
            Holdings { base: (user.base + base) as u64, quote: (user.quote + quote) as u64 },
        ))
    }
}

/// Burns all four conditional balances of a finalized proposal and moves the
/// owed base and quote from the vault to the user. Either every step happens
/// or, on an error, nothing changes.
pub fn redeem(
    state: ProposalState,
    position: &mut ConditionalPosition,
    vault: &mut Holdings,
    user: &mut Holdings,
) -> (r: Result<Redemption, ErrorCode>)
    ensures
        match redeem_result(state, *old(position), *old(vault), *old(user)) {
            Ok((red, p, v, u)) => r == Ok::<Redemption, ErrorCode>(red) && *final(position) == p
                && *final(vault) == v && *final(user) == u,
            Err(e) => r == Err::<Redemption, ErrorCode>(e) && *final(position) == *old(position)
                && *final(vault) == *old(vault) && *final(user) == *old(user),
        },
{
    if state == ProposalState::Pending {
        return Err(ErrorCode::ProposalStillPending);
    }
    let burned = *position;
    let base: u64 = if state == ProposalState::Passed {
        burned.pass_base
    } else {
        burned.fail_base
    };
    let quote: u64 = burned.pass_quote;
    if vault.base < base || vault.quote < quote || user.base > u64::MAX - base || user.quote
        > u64::MAX - quote {
        return Err(ErrorCode::RedemptionFailed);
    }
    position.pass_base = 0;
    position.pass_quote = 0;
    position.fail_base = 0;
    position.fail_quote = 0;
    vault.base = vault.base - base;
    vault.quote = vault.quote - quote;
    user.base = user.base + base;
    user.quote = user.quote + quote;
    Ok(Redemption { burned, base_paid: base, quote_paid: quote })
}

/// Redemption conserves value: the base paid out equals the burned pass-base
/// plus fail-base balances, and the quote paid out equals the burned
/// pass-quote balance. Base is paid from one branch only, so the base
/// equality holds where the losing branch's base balance is zero.
pub proof fn lemma_redemption_conserves(
    state: ProposalState,
    position: ConditionalPosition,
    vault: Holdings,
    user: Holdings,
)
    requires
        state == ProposalState::Passed ==> position.fail_base == 0,
        state == ProposalState::Failed ==> position.pass_base == 0,
        redeem_result(state, position, vault, user) is Ok,
    ensures
        ({
            let (red, p, v, u) = redeem_result(state, position, vault, user)->Ok_0;
            &&& red.burned == position
            &&& red.base_paid == red.burned.pass_base + red.burned.fail_base
            &&& red.quote_paid == red.burned.pass_quote
            &&& u.base == user.base + red.base_paid
            &&& u.quote == user.quote + red.quote_paid
            &&& v.base + red.base_paid == vault.base
            &&& v.quote + red.quote_paid == vault.quote
        }),
{
}

/// Redeeming a second time right after a successful redemption succeeds,
/// burns and pays nothing, and changes no balance.
pub proof fn lemma_redemption_idempotent(
    state: ProposalState,
    position: ConditionalPosition,
    vault: Holdings,
    user: Holdings,
)
    requires
        redeem_result(state, position, vault, user) is Ok,
    ensures
        ({
            let (_, p, v, u) = redeem_result(state, position, vault, user)->Ok_0;
            redeem_result(state, p, v, u) == Ok::<
                (Redemption, ConditionalPosition, Holdings, Holdings),
                ErrorCode,
            >((Redemption { burned: empty_position(), base_paid: 0, quote_paid: 0 }, p, v, u))
        }),
{
}

} // verus!
