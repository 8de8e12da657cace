use vstd::prelude::*;

use crate::pubkey::Pubkey;
use crate::registry::{is_admin, is_operator};
use crate::state::{
    AirdropPlatform, Initialize, PlatformView, PlaylinkAirdropErr, SetFeePerAsset, SetOperators,
};

verus! {

/// The roster with every occurrence of `key` taken out, order kept.
pub open spec fn without(ops: Seq<Pubkey>, key: Pubkey) -> Seq<Pubkey>
    decreases ops.len(),
{
    if ops.len() == 0 {
        ops
    } else {
        let rest = without(ops.drop_last(), key);
        if ops.last() == key {
            rest
        } else {
            rest.push(ops.last())
        }
    }
}

/// The roster after the first `n` changes: a `true` flag appends its key, a
/// `false` flag removes every occurrence of it.
pub open spec fn roster_after(ops: Seq<Pubkey>, keys: Seq<Pubkey>, flags: Seq<bool>, n: nat) -> Seq<Pubkey>
    decreases n,
{
    if n == 0 {
        ops
    } else {
        let prev = roster_after(ops, keys, flags, (n - 1) as nat);
        if flags[n - 1] {
            prev.push(keys[n - 1])
        } else {
            without(prev, keys[n - 1])
        }
    }
}

/// The registry as `initialize` creates it.
pub open spec fn initial_platform(ctx: Initialize, fee_per_asset: u64) -> PlatformView {
    PlatformView {
        admin: ctx.admin,
        fee_per_asset: fee_per_asset,
        all_campaigns: Seq::empty(),
        operators: seq![ctx.admin],
        bump: ctx.bump,
    }
}

/// Creates the registry: the signer becomes administrator and first operator.
pub fn initialize(ctx: &Initialize, fee_per_asset: u64) -> (r: AirdropPlatform)
    ensures
        r.wf(),
        r@ == initial_platform(*ctx, fee_per_asset),
{
    let mut operators: Vec<Pubkey> = Vec::new();
    operators.push(ctx.admin);
    let r = AirdropPlatform {
        admin: ctx.admin,
        fee_per_asset,
        all_campaigns: Vec::new(),
        operators,
        bump: ctx.bump,
    };
    assert(r@.all_campaigns =~= Seq::empty());
    assert(r@.operators =~= seq![ctx.admin]);
    r
}

/// `ops` with every occurrence of `key` taken out.
fn remove_all(ops: &Vec<Pubkey>, key: &Pubkey) -> (r: Vec<Pubkey>)
    ensures
        r@ == without(ops@, *key),
{
    let mut kept: Vec<Pubkey> = Vec::new();
    let mut j: usize = 0;
    while j < ops.len()
        invariant
            j <= ops.len(),
            kept@ == without(ops@.take(j as int), *key),
        decreases ops.len() - j,
    {
        assert(ops@.take(j as int + 1).drop_last() =~= ops@.take(j as int));
        if ops[j] != *key {
            kept.push(ops[j]);
        }
        j = j + 1;
    }
    assert(ops@.take(j as int) =~= ops@);
    kept
}

/// The administrator adds (`true`) or removes (`false`) operators, one change
/// per key, in order.
pub fn set_operators(
    platform: &mut AirdropPlatform,
    ctx: &SetOperators,
    operators: Vec<Pubkey>,
    is_operators: Vec<bool>,
) -> (r: Result<(), PlaylinkAirdropErr>)
    requires
        old(platform).wf(),
    ensures
        final(platform).wf(),
        r == Err::<(), _>(PlaylinkAirdropErr::NotAdmin) <==> old(platform)@.admin != ctx.admin,
        r == Err::<(), _>(PlaylinkAirdropErr::LengthsMismatch) <==> old(platform)@.admin == ctx.admin
            && operators@.len() != is_operators@.len(),
        r is Ok <==> old(platform)@.admin == ctx.admin && operators@.len() == is_operators@.len(),
        r is Ok ==> final(platform)@ == (PlatformView {
            operators: roster_after(old(platform)@.operators, operators@, is_operators@, operators@.len()),
            ..old(platform)@
        }),
        r is Err ==> final(platform)@ == old(platform)@,
{
    if !is_admin(platform, &ctx.admin) {
        return Err(PlaylinkAirdropErr::NotAdmin);
    }
    if operators.len() != is_operators.len() {
        return Err(PlaylinkAirdropErr::LengthsMismatch);
    }
    let ghost p = platform@;
    let mut i: usize = 0;
    while i < operators.len()
        invariant
            i <= operators.len(),
            operators.len() == is_operators.len(),
            p.wf(),
            platform@ == (PlatformView {
                operators: roster_after(p.operators, operators@, is_operators@, i as nat),
                ..p
            }),
        decreases operators.len() - i,
    {
        if is_operators[i] {
            platform.operators.push(operators[i]);
        } else {
            platform.operators = remove_all(&platform.operators, &operators[i]);
        }
        i = i + 1;
    }
    Ok(())
}

/// An operator sets the fee charged per asset slot.
pub fn set_fee_per_asset(platform: &mut AirdropPlatform, ctx: &SetFeePerAsset, new_fee: u64) -> (r: Result<(), PlaylinkAirdropErr>)
    requires
        old(platform).wf(),
    ensures
        final(platform).wf(),
        r is Err <==> !old(platform)@.is_operator(ctx.operator),
        r is Err ==> r == Err::<(), _>(PlaylinkAirdropErr::NotOperator) && final(platform)@ == old(platform)@,
        r is Ok ==> final(platform)@ == (PlatformView { fee_per_asset: new_fee, ..old(platform)@ }),
{
    if !is_operator(platform, &ctx.operator) {
        return Err(PlaylinkAirdropErr::NotOperator);
    }
    platform.fee_per_asset = new_fee;
    Ok(())
}

} // verus!
