use vstd::prelude::*;

use crate::error::ErrorCode;
use crate::oracle::Amm;

verus! {

/// What an oracle update reads: the market, and whether the market's
/// authority co-signed the update.
#[derive(Clone, Copy, Debug)]
pub struct UpdateLtwap {
    pub amm: Amm,
    pub auth_pda_signed: bool,
}

/// Updates the market's oracle at timestamp `now`; open markets accept any
/// caller, permissioned ones only a co-signed update.
pub fn handler(ctx: &mut UpdateLtwap, now: u64) -> (r: Result<(), ErrorCode>)
    requires
        old(ctx).amm.wf(),
    ensures
        final(ctx).amm.wf(),
        final(ctx).auth_pda_signed == old(ctx).auth_pda_signed,
        match old(ctx).amm.update_result(now, old(ctx).auth_pda_signed) {
            Ok(m) => r is Ok && final(ctx).amm == m,
            Err(e) => r == Err::<(), ErrorCode>(e) && final(ctx).amm == old(ctx).amm,
        },
{
    let signed = ctx.auth_pda_signed;
    ctx.amm.update_ltwap(now, signed)
}

} // verus!
