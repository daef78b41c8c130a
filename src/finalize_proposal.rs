use vstd::prelude::*;

use crate::authority::{key_option_view, program_address, treasury_authority, treasury_seed_bytes};
use crate::error::ErrorCode;
use crate::oracle::Amm;
use crate::replay::{authorize_bundle, is_authorized_copy, StoredInstruction};
use crate::resolver::{finalize_result, Dao, Key, Proposal, ProposalState};

verus! {

/// What finalizing a proposal reads and writes.
#[derive(Clone, Debug)]
pub struct FinalizeProposal {
    pub proposal: Proposal,
    /// The proposal's bundle, in stored order.
    pub instructions: Vec<StoredInstruction>,
    pub dao: Dao,
    /// Address of the DAO, the seed of its treasury authority.
    pub dao_key: Key,
    pub treasury_pda_bump: u8,
    /// Address of the program that owns the treasury authority.
    pub program_id: Key,
    pub pass_market_amm_key: Key,
    pub pass_market_amm: Amm,
    pub fail_market_amm_key: Key,
    pub fail_market_amm: Amm,
}

/// The treasury authority of the DAO that `ctx` refers to, as bytes.
pub open spec fn treasury_of(ctx: FinalizeProposal) -> Option<Seq<u8>> {
    program_address(treasury_seed_bytes(ctx.dao_key, ctx.treasury_pda_bump), ctx.program_id@)
}

/// The outcome of the threshold rule for `ctx` at `current_slot`.
pub open spec fn outcome_of(ctx: FinalizeProposal, current_slot: u64) -> Result<ProposalState, ErrorCode> {
    finalize_result(
        ctx.proposal,
        ctx.dao,
        ctx.pass_market_amm_key,
        ctx.pass_market_amm.ltwap_latest,
        ctx.fail_market_amm_key,
        ctx.fail_market_amm.ltwap_latest,
        current_slot,
    )
}

/// Finalizes the proposal. On a pass it returns the bundle, in stored order,
/// with every reference to the treasury authority marked as signed: the
/// caller invokes these one by one and, should any fail, discards the whole
/// finalization, so the proposal stays pending. On a fail it returns no
/// instruction. On an error nothing changes.
pub fn handler(ctx: &mut FinalizeProposal, current_slot: u64) -> (r: Result<Vec<StoredInstruction>, ErrorCode>)
    ensures
        final(ctx).instructions == old(ctx).instructions,
        final(ctx).dao == old(ctx).dao,
        final(ctx).pass_market_amm == old(ctx).pass_market_amm,
        final(ctx).fail_market_amm == old(ctx).fail_market_amm,
        final(ctx).pass_market_amm_key == old(ctx).pass_market_amm_key,
        final(ctx).fail_market_amm_key == old(ctx).fail_market_amm_key,
        final(ctx).dao_key == old(ctx).dao_key,
        final(ctx).treasury_pda_bump == old(ctx).treasury_pda_bump,
        final(ctx).program_id == old(ctx).program_id,
        match outcome_of(*old(ctx), current_slot) {
            Err(e) => r == Err::<Vec<StoredInstruction>, ErrorCode>(e)
                && final(ctx).proposal == old(ctx).proposal,
            Ok(ProposalState::Passed) => if treasury_of(*old(ctx)) is None {
                r == Err::<Vec<StoredInstruction>, ErrorCode>(ErrorCode::TreasuryDerivationFailed)
                    && final(ctx).proposal == old(ctx).proposal
            } else {
                &&& final(ctx).proposal == (Proposal { state: ProposalState::Passed, ..old(ctx).proposal })
                &&& r matches Ok(ixs)
                &&& ixs@.len() == old(ctx).instructions@.len()
                &&& exists|t: Key| key_option_view(Some(t)) == treasury_of(*old(ctx))
                    && forall|i: int| 0 <= i < ixs@.len()
                        ==> is_authorized_copy(#[trigger] ixs@[i], old(ctx).instructions@[i], t)
            },
            Ok(s) => final(ctx).proposal == (Proposal { state: s, ..old(ctx).proposal })
                && (r matches Ok(ixs) && ixs@.len() == 0),
        },
{
    let mut proposal = ctx.proposal;
    let state = proposal.finalize(
        &ctx.dao,
        ctx.pass_market_amm_key,
        &ctx.pass_market_amm,
        ctx.fail_market_amm_key,
        &ctx.fail_market_amm,
        current_slot,
    )?;
    if state == ProposalState::Passed {
        match treasury_authority(&ctx.dao_key, ctx.treasury_pda_bump, &ctx.program_id) {
            None => Err(ErrorCode::TreasuryDerivationFailed),
            Some(treasury) => {
                let ixs = authorize_bundle(&ctx.instructions, &treasury);
                ctx.proposal = proposal;
                Ok(ixs)
            },
        }
    } else {
        ctx.proposal = proposal;
        Ok(Vec::new())
    }
}

} // verus!
