use vstd::prelude::*;

use crate::registry::is_admin;
use crate::state::{AirdropPlatform, FeeWithdrawal, PlaylinkAirdropErr, WithdrawAirdropFee};

verus! {

/// The administrator drains the registry's whole native balance to a
/// recipient. The registry's records are not touched; the returned move gives
/// the amount and both balances afterwards.
pub fn withdraw_airdrop_fee(platform: &AirdropPlatform, ctx: &WithdrawAirdropFee) -> (r: Result<FeeWithdrawal, PlaylinkAirdropErr>)
    ensures
        r == Err::<FeeWithdrawal, _>(PlaylinkAirdropErr::NotAdmin) <==> platform@.admin != ctx.admin,
        r == Err::<FeeWithdrawal, _>(PlaylinkAirdropErr::AmountOverflow) <==> platform@.admin == ctx.admin
            && ctx.platform_lamports + ctx.recipient_lamports > u64::MAX,
        r is Ok <==> platform@.admin == ctx.admin && ctx.platform_lamports + ctx.recipient_lamports
            <= u64::MAX,
        r is Ok ==> ({
            let w = r->Ok_0;
            &&& w.amount == ctx.platform_lamports
            &&& w.platform_lamports == 0
            &&& w.recipient_lamports == ctx.recipient_lamports + ctx.platform_lamports
        }),
{
    if !is_admin(platform, &ctx.admin) {
        return Err(PlaylinkAirdropErr::NotAdmin);
    }
    let amount = ctx.platform_lamports;
    match ctx.recipient_lamports.checked_add(amount) {
        Some(recipient_lamports) => Ok(FeeWithdrawal { amount, platform_lamports: 0, recipient_lamports }),
        None => Err(PlaylinkAirdropErr::AmountOverflow),
    }
}

} // verus!
