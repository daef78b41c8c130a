use vstd::prelude::*;

use crate::error::ErrorCode;
use crate::resolver::Proposal;
use crate::settlement::{redeem, redeem_result, ConditionalPosition, Holdings, Redemption};

verus! {

/// What a redemption reads and writes: the proposal, the user's four
/// conditional balances, and the base and quote balances of the proposal's
/// vault and of the user.
#[derive(Clone, Copy, Debug)]
pub struct RedeemConditionalTokens {
    pub proposal: Proposal,
    pub position: ConditionalPosition,
    pub vault: Holdings,
    pub user: Holdings,
}

/// Redeems the user's conditional tokens of a finalized proposal.
pub fn handle(ctx: &mut RedeemConditionalTokens) -> (r: Result<Redemption, ErrorCode>)
    ensures
        final(ctx).proposal == old(ctx).proposal,
        match redeem_result(old(ctx).proposal.state, old(ctx).position, old(ctx).vault, old(ctx).user) {
            Ok((red, p, v, u)) => r == Ok::<Redemption, ErrorCode>(red) && final(ctx).position == p
                && final(ctx).vault == v && final(ctx).user == u,
            Err(e) => r == Err::<Redemption, ErrorCode>(e) && final(ctx).position == old(ctx).position
                && final(ctx).vault == old(ctx).vault && final(ctx).user == old(ctx).user,
        },
{
    let state = ctx.proposal.state;
    redeem(state, &mut ctx.position, &mut ctx.vault, &mut ctx.user)
}

} // verus!
