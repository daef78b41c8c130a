use anchor_lang::prelude::Pubkey;
use futarchy::authority::{key_bytes, treasury_authority, vault_authority, vault_seeds};
use futarchy::error::ErrorCode;
use futarchy::finalize_proposal::{handler as finalize_handler, FinalizeProposal};
use futarchy::oracle::Amm;
use futarchy::redeem_conditional_tokens::{handle as redeem_handle, RedeemConditionalTokens};
use futarchy::replay::{
    authorize_bundle, authorize_instruction, next_replay_step, AccountMeta, ReplayStep,
    StoredInstruction,
};
use futarchy::resolver::{decide, pass_threshold, same_key, Dao, Key, Proposal, ProposalState};
use futarchy::settlement::{redeem, ConditionalPosition, Holdings};
use futarchy::update_ltwap::{handler as update_handler, UpdateLtwap};

const PASS_ID: Key = [1u8; 32];
const FAIL_ID: Key = [2u8; 32];
const DAO_ID: Key = [3u8; 32];
const PROGRAM_ID: Key = [4u8; 32];

fn market(ltwap: u64) -> Amm {
    let mut m = Amm::new(ltwap, 0, false);
    m.ltwap_latest = ltwap;
    m
}

fn treasury_bump() -> u8 {
    Pubkey::find_program_address(&[&DAO_ID], &Pubkey::new_from_array(PROGRAM_ID)).1
}

fn finalize_ctx(pass_ltwap: u64, fail_ltwap: u64, bps: u64, bundle: Vec<StoredInstruction>) -> FinalizeProposal {
    FinalizeProposal {
        proposal: Proposal::new(7, 100, PASS_ID, FAIL_ID),
        instructions: bundle,
        dao: Dao { slots_per_proposal: 50, pass_threshold_bps: bps },
        dao_key: DAO_ID,
        treasury_pda_bump: treasury_bump(),
        program_id: PROGRAM_ID,
        pass_market_amm_key: PASS_ID,
        pass_market_amm: market(pass_ltwap),
        fail_market_amm_key: FAIL_ID,
        fail_market_amm: market(fail_ltwap),
    }
}

fn instruction(accounts: Vec<AccountMeta>) -> StoredInstruction {
    StoredInstruction { program_id: [9u8; 32], accounts, data: vec![1, 2, 3] }
}

#[test]
fn scenario_a_too_young_then_passes() {
    let mut ctx = finalize_ctx(120, 100, 0, Vec::new());
    assert_eq!(finalize_handler(&mut ctx, 140).unwrap_err(), ErrorCode::ProposalTooYoung);
    assert_eq!(ctx.proposal.state, ProposalState::Pending);
    assert!(finalize_handler(&mut ctx, 150).is_ok());
    assert_eq!(ctx.proposal.state, ProposalState::Passed);
}

#[test]
fn scenario_b_threshold_fails() {
    assert_eq!(pass_threshold(100, 2500), Ok(125));
    let mut ctx = finalize_ctx(120, 100, 2500, Vec::new());
    let ixs = finalize_handler(&mut ctx, 150).unwrap();
    assert!(ixs.is_empty());
    assert_eq!(ctx.proposal.state, ProposalState::Failed);
}

#[test]
fn scenario_c_redeem_failed_proposal() {
    let mut position = ConditionalPosition { pass_base: 50, pass_quote: 30, fail_base: 10, fail_quote: 5 };
    let mut vault = Holdings { base: 1000, quote: 1000 };
    let mut user = Holdings { base: 0, quote: 0 };
    let r = redeem(ProposalState::Failed, &mut position, &mut vault, &mut user).unwrap();
    assert_eq!(r.base_paid, 10);
    assert_eq!(r.quote_paid, 30);
    assert_eq!(r.burned, ConditionalPosition { pass_base: 50, pass_quote: 30, fail_base: 10, fail_quote: 5 });
    assert_eq!(position, ConditionalPosition { pass_base: 0, pass_quote: 0, fail_base: 0, fail_quote: 0 });
    assert_eq!(user, Holdings { base: 10, quote: 30 });
    assert_eq!(vault, Holdings { base: 990, quote: 970 });
}

#[test]
fn redeem_passed_proposal_pays_pass_branch() {
    let mut position = ConditionalPosition { pass_base: 50, pass_quote: 30, fail_base: 10, fail_quote: 5 };
    let mut vault = Holdings { base: 100, quote: 100 };
    let mut user = Holdings { base: 1, quote: 2 };
    let r = redeem(ProposalState::Passed, &mut position, &mut vault, &mut user).unwrap();
    assert_eq!((r.base_paid, r.quote_paid), (50, 30));
    assert_eq!(user, Holdings { base: 51, quote: 32 });
    assert_eq!(vault, Holdings { base: 50, quote: 70 });
}

#[test]
fn redeem_conserves_base_when_losing_branch_empty() {
    let mut position = ConditionalPosition { pass_base: 40, pass_quote: 7, fail_base: 0, fail_quote: 3 };
    let mut vault = Holdings { base: 40, quote: 7 };
    let mut user = Holdings { base: 0, quote: 0 };
    let r = redeem(ProposalState::Passed, &mut position, &mut vault, &mut user).unwrap();
    assert_eq!(r.base_paid, r.burned.pass_base + r.burned.fail_base);
    assert_eq!(user.base, 40);
    assert_eq!(vault, Holdings { base: 0, quote: 0 });
}

#[test]
fn redeem_twice_is_a_no_op() {
    let mut position = ConditionalPosition { pass_base: 5, pass_quote: 6, fail_base: 7, fail_quote: 8 };
    let mut vault = Holdings { base: 20, quote: 20 };
    let mut user = Holdings { base: 0, quote: 0 };
    redeem(ProposalState::Failed, &mut position, &mut vault, &mut user).unwrap();
    let (v, u) = (vault, user);
    let second = redeem(ProposalState::Failed, &mut position, &mut vault, &mut user).unwrap();
    assert_eq!((second.base_paid, second.quote_paid), (0, 0));
    assert_eq!((vault, user), (v, u));
}

#[test]
fn redeem_pending_fails() {
    let mut position = ConditionalPosition { pass_base: 1, pass_quote: 1, fail_base: 1, fail_quote: 1 };
    let mut vault = Holdings { base: 9, quote: 9 };
    let mut user = Holdings { base: 0, quote: 0 };
    let r = redeem(ProposalState::Pending, &mut position, &mut vault, &mut user);
    assert_eq!(r.unwrap_err(), ErrorCode::ProposalStillPending);
    assert_eq!(position.pass_base, 1);
}

#[test]
fn redeem_short_vault_changes_nothing() {
    let start = ConditionalPosition { pass_base: 50, pass_quote: 30, fail_base: 10, fail_quote: 5 };
    let mut ctx = RedeemConditionalTokens {
        proposal: Proposal { state: ProposalState::Passed, ..Proposal::new(1, 0, PASS_ID, FAIL_ID) },
        position: start,
        vault: Holdings { base: 49, quote: 100 },
        user: Holdings { base: 0, quote: 0 },
    };
    assert_eq!(redeem_handle(&mut ctx).unwrap_err(), ErrorCode::RedemptionFailed);
    assert_eq!(ctx.position, start);
    assert_eq!(ctx.vault, Holdings { base: 49, quote: 100 });
    assert_eq!(ctx.user, Holdings { base: 0, quote: 0 });
}

#[test]
fn redeem_user_overflow_fails() {
    let mut position = ConditionalPosition { pass_base: 0, pass_quote: 2, fail_base: 0, fail_quote: 0 };
    let mut vault = Holdings { base: 0, quote: 5 };
    let mut user = Holdings { base: 0, quote: u64::MAX - 1 };
    let r = redeem(ProposalState::Passed, &mut position, &mut vault, &mut user);
    assert_eq!(r.unwrap_err(), ErrorCode::RedemptionFailed);
}

#[test]
fn redeem_handle_succeeds() {
    let mut ctx = RedeemConditionalTokens {
        proposal: Proposal { state: ProposalState::Failed, ..Proposal::new(1, 0, PASS_ID, FAIL_ID) },
        position: ConditionalPosition { pass_base: 50, pass_quote: 30, fail_base: 10, fail_quote: 5 },
        vault: Holdings { base: 10, quote: 30 },
        user: Holdings { base: 0, quote: 0 },
    };
    let r = redeem_handle(&mut ctx).unwrap();
    assert_eq!((r.base_paid, r.quote_paid), (10, 30));
    assert_eq!(ctx.vault, Holdings { base: 0, quote: 0 });
}

#[test]
fn threshold_tie_fails() {
    // 125 * 10000 == 100 * 12500
    assert_eq!(decide(125, 100, 2500), Ok(ProposalState::Failed));
    assert_eq!(decide(126, 100, 2500), Ok(ProposalState::Passed));
    assert_eq!(decide(100, 100, 0), Ok(ProposalState::Failed));
}

#[test]
fn threshold_rounds_down() {
    assert_eq!(pass_threshold(3, 5000), Ok(4));
    assert_eq!(decide(5, 3, 5000), Ok(ProposalState::Passed));
    assert_eq!(pass_threshold(u64::MAX, 0), Ok(u64::MAX as u128));
}

#[test]
fn threshold_overflow_is_reported() {
    assert_eq!(pass_threshold(1, u64::MAX), Err(ErrorCode::ArithmeticOverflow));
    assert_eq!(decide(1, 1, u64::MAX - 9999), Err(ErrorCode::ArithmeticOverflow));
    assert_eq!(pass_threshold(1, u64::MAX - 10000), Ok(u64::MAX as u128 / 10000));
}

#[test]
fn decision_is_deterministic() {
    let mut a = finalize_ctx(130, 100, 2500, Vec::new());
    let mut b = finalize_ctx(130, 100, 2500, Vec::new());
    finalize_handler(&mut a, 200).unwrap();
    finalize_handler(&mut b, 500).unwrap();
    assert_eq!(a.proposal.state, b.proposal.state);
    assert_eq!(a.proposal.state, ProposalState::Passed);
}

#[test]
fn finalize_twice_fails() {
    let mut ctx = finalize_ctx(90, 100, 0, Vec::new());
    finalize_handler(&mut ctx, 150).unwrap();
    assert_eq!(ctx.proposal.state, ProposalState::Failed);
    assert_eq!(finalize_handler(&mut ctx, 151).unwrap_err(), ErrorCode::ProposalAlreadyFinalized);
    assert_eq!(ctx.proposal.state, ProposalState::Failed);
}

#[test]
fn finalize_market_mismatch() {
    let mut ctx = finalize_ctx(120, 100, 0, Vec::new());
    ctx.fail_market_amm_key = [8u8; 32];
    assert_eq!(finalize_handler(&mut ctx, 150).unwrap_err(), ErrorCode::MarketMismatch);
    assert_eq!(ctx.proposal.state, ProposalState::Pending);
    let mut p = Proposal::new(1, 0, PASS_ID, FAIL_ID);
    let dao = Dao { slots_per_proposal: 0, pass_threshold_bps: 0 };
    let r = p.finalize(&dao, FAIL_ID, &market(2), PASS_ID, &market(1), 0);
    assert_eq!(r, Err(ErrorCode::MarketMismatch));
}

#[test]
fn finalize_enqueue_overflow_is_too_young() {
    let mut p = Proposal::new(1, u64::MAX - 1, PASS_ID, FAIL_ID);
    let dao = Dao { slots_per_proposal: 10, pass_threshold_bps: 0 };
    let r = p.finalize(&dao, PASS_ID, &market(2), FAIL_ID, &market(1), u64::MAX);
    assert_eq!(r, Err(ErrorCode::ProposalTooYoung));
}

#[test]
fn finalize_pass_authorizes_bundle() {
    let bump = treasury_bump();
    let treasury = treasury_authority(&DAO_ID, bump, &PROGRAM_ID).unwrap();
    let other = [5u8; 32];
    let bundle = vec![
        instruction(vec![
            AccountMeta { pubkey: treasury, is_signer: false, is_writable: true },
            AccountMeta { pubkey: other, is_signer: false, is_writable: false },
        ]),
        instruction(vec![AccountMeta { pubkey: other, is_signer: true, is_writable: true }]),
    ];
    let mut ctx = finalize_ctx(120, 100, 0, bundle);
    let ixs = finalize_handler(&mut ctx, 150).unwrap();
    assert_eq!(ctx.proposal.state, ProposalState::Passed);
    assert_eq!(ixs.len(), 2);
    assert!(ixs[0].accounts[0].is_signer);
    assert!(!ixs[0].accounts[1].is_signer);
    assert!(ixs[1].accounts[0].is_signer);
    assert_eq!(ixs[0].data, vec![1, 2, 3]);
    assert_eq!(ixs[1].program_id, [9u8; 32]);
}

#[test]
fn finalize_unusable_treasury_seed_fails() {
    // A bump whose address falls on the curve cannot be derived.
    let mut bad: Option<u8> = None;
    for b in 0..=255u8 {
        if treasury_authority(&DAO_ID, b, &PROGRAM_ID).is_none() {
            bad = Some(b);
            break;
        }
    }
    let mut ctx = finalize_ctx(120, 100, 0, Vec::new());
    ctx.treasury_pda_bump = bad.unwrap();
    assert_eq!(finalize_handler(&mut ctx, 150).unwrap_err(), ErrorCode::TreasuryDerivationFailed);
    assert_eq!(ctx.proposal.state, ProposalState::Pending);
}

#[test]
fn treasury_authority_matches_runtime_derivation() {
    let (pda, bump) = Pubkey::find_program_address(&[&DAO_ID], &Pubkey::new_from_array(PROGRAM_ID));
    let derived = treasury_authority(&DAO_ID, bump, &PROGRAM_ID).unwrap();
    assert_eq!(derived, pda.to_bytes());
    assert_ne!(derived, DAO_ID);
    assert_ne!(derived, PROGRAM_ID);
}

#[test]
fn key_bytes_copies_address() {
    let mut k = [0u8; 32];
    k[31] = 7;
    k[0] = 1;
    assert_eq!(key_bytes(&k), k.to_vec());
    assert!(same_key(&k, &k));
    assert!(!same_key(&k, &[0u8; 32]));
}

#[test]
fn authorize_marks_only_authority() {
    let auth = [6u8; 32];
    let ix = instruction(vec![
        AccountMeta { pubkey: [0u8; 32], is_signer: false, is_writable: true },
        AccountMeta { pubkey: auth, is_signer: false, is_writable: false },
    ]);
    let r = authorize_instruction(&ix, &auth);
    assert!(!r.accounts[0].is_signer && r.accounts[0].is_writable);
    assert!(r.accounts[1].is_signer && !r.accounts[1].is_writable);
    assert!(authorize_bundle(&Vec::new(), &auth).is_empty());
}

#[test]
fn replay_steps_in_order() {
    assert_eq!(next_replay_step(3, 0, false), ReplayStep::Invoke(0));
    assert_eq!(next_replay_step(3, 2, false), ReplayStep::Invoke(2));
    assert_eq!(next_replay_step(3, 3, false), ReplayStep::Commit);
    assert_eq!(next_replay_step(3, 1, true), ReplayStep::Abort);
    assert_eq!(next_replay_step(0, 0, false), ReplayStep::Commit);
}

#[test]
fn oracle_accumulates_time_weighted_average() {
    let mut m = Amm::new(100, 1000, false);
    m.update_ltwap(1010, false).unwrap();
    assert_eq!((m.cumulative, m.last_updated, m.ltwap_latest), (1000, 1010, 100));
    m.price = 200;
    m.update_ltwap(1030, false).unwrap();
    // (10 * 100 + 20 * 200) / 30 = 166
    assert_eq!((m.cumulative, m.ltwap_latest), (5000, 166));
}

#[test]
fn oracle_same_timestamp_is_idempotent() {
    let mut m = Amm::new(100, 0, false);
    m.update_ltwap(10, false).unwrap();
    let once = m;
    m.update_ltwap(10, false).unwrap();
    assert_eq!(m, once);
}

#[test]
fn oracle_is_monotone() {
    let mut m = Amm::new(7, 5, false);
    let mut last = (m.cumulative, m.last_updated);
    for (t, p) in [(5u64, 3u64), (9, 0), (9, 4), (20, u64::MAX), (100, 1)] {
        m.update_ltwap(t, false).unwrap();
        assert!(m.cumulative >= last.0 && m.last_updated >= last.1);
        last = (m.cumulative, m.last_updated);
        m.price = p;
    }
}

#[test]
fn oracle_extreme_price_fits() {
    let mut m = Amm::new(u64::MAX, 0, false);
    m.update_ltwap(u64::MAX, false).unwrap();
    assert_eq!(m.ltwap_latest, u64::MAX);
}

#[test]
fn oracle_clock_regression() {
    let mut m = Amm::new(1, 50, false);
    assert_eq!(m.update_ltwap(49, false), Err(ErrorCode::ClockRegression));
    assert_eq!(m.last_updated, 50);
}

#[test]
fn oracle_permissioned_needs_signature() {
    let mut ctx = UpdateLtwap { amm: Amm::new(10, 0, true), auth_pda_signed: false };
    assert_eq!(update_handler(&mut ctx, 5), Err(ErrorCode::UnauthorizedOracleUpdate));
    assert_eq!(ctx.amm.last_updated, 0);
    ctx.auth_pda_signed = true;
    assert_eq!(update_handler(&mut ctx, 5), Ok(()));
    assert_eq!((ctx.amm.last_updated, ctx.amm.cumulative), (5, 50));
}

#[test]
fn vault_authority_matches_runtime_derivation() {
    let number: u64 = 0x0102_0304_0506_0708;
    let seeds = vault_seeds(number, 254);
    assert_eq!(seeds[0], b"proposal_vault".to_vec());
    assert_eq!(seeds[1], vec![8, 7, 6, 5, 4, 3, 2, 1]);
    assert_eq!(seeds[2], vec![254]);
    let (pda, bump) = Pubkey::find_program_address(
        &[b"proposal_vault", &number.to_le_bytes()],
        &Pubkey::new_from_array(PROGRAM_ID),
    );
    assert_eq!(vault_authority(number, bump, &PROGRAM_ID), Some(pda.to_bytes()));
}

#[test]
fn market_well_formedness() {
    let m = Amm::new(3, 10, false);
    assert!(m.is_well_formed());
    let broken = Amm { cumulative: 1, ..m };
    assert!(!broken.is_well_formed());
    let backwards = Amm { created_at: 11, ..m };
    assert!(!backwards.is_well_formed());
}
