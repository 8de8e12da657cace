use vstd::prelude::*;

use crate::amounts::lemma_amount_le_sum;
use crate::campaign::{after_create, after_update, create_error, top_up, update_error};
use crate::distribution::{after_airdrop, airdrop_error, claimed_amount, drained};
use crate::pubkey::Pubkey;
use crate::roster::without;
use crate::state::{
    fee_for, sum_amounts, Airdrop, Asset, CreateAirdropCampaign, PlatformView, PlaylinkAirdropErr,
    UpdateCampaign,
};

verus! {

/// A campaign written by a successful create holds, as its aggregate balance,
/// the sum of its assets' amounts, and as its fee, the rate at that moment
/// times its number of assets.
pub proof fn law_created_campaign_balances(
    p: PlatformView,
    ctx: CreateAirdropCampaign,
    id: Seq<char>,
    assets: Seq<Asset>,
    starting_time: u64,
)
    requires
        p.wf(),
        create_error(p, ctx, id, assets, starting_time) is None,
    ensures
        ({
            let q = after_create(p, ctx, id, assets, starting_time);
            &&& q.wf()
            &&& q.has_campaign(id)
            &&& q.campaign(id).total_available_assets == sum_amounts(assets)
            &&& q.campaign(id).airdrop_fee == fee_for(p.fee_per_asset, assets.len())
        }),
{
    let q = after_create(p, ctx, id, assets, starting_time);
    let n = p.all_campaigns.len() as int;
    assert(q.all_campaigns[n].campaign_id == id);
    assert(q.campaign_index(id) == n);
}

/// A campaign written by a successful update holds, as its aggregate balance,
/// the sum of its new assets' amounts, and as its fee, the rate at that moment
/// times its new number of assets.
pub proof fn law_updated_campaign_balances(
    p: PlatformView,
    ctx: UpdateCampaign,
    id: Seq<char>,
    assets: Seq<Asset>,
    starting_time: u64,
)
    requires
        p.wf(),
        update_error(p, ctx, id, assets, starting_time) is None,
    ensures
        ({
            let q = after_update(p, id, assets, starting_time);
            &&& q.wf()
            &&& q.has_campaign(id)
            &&& q.campaign(id).total_available_assets == sum_amounts(assets)
            &&& q.campaign(id).airdrop_fee == fee_for(p.fee_per_asset, assets.len())
        }),
{
    let q = after_update(p, id, assets, starting_time);
    let i = p.campaign_index(id);
    assert(q.all_campaigns[i].campaign_id == id);
    assert(q.campaign_index(id) == i);
}

/// Creating a campaign under an id that is already stored always fails, with
/// `CampaignAlreadyCreated`; every other create keeps ids unique.
pub proof fn law_create_keeps_ids_unique(
    p: PlatformView,
    ctx: CreateAirdropCampaign,
    id: Seq<char>,
    assets: Seq<Asset>,
    starting_time: u64,
)
    requires
        p.wf(),
    ensures
        p.has_campaign(id) ==> create_error(p, ctx, id, assets, starting_time) == Some(
            PlaylinkAirdropErr::CampaignAlreadyCreated,
        ),
        create_error(p, ctx, id, assets, starting_time) is None ==> after_create(
            p,
            ctx,
            id,
            assets,
            starting_time,
        ).ids_unique(),
{
}

/// A claim before the campaign's starting time always fails.
pub proof fn law_claim_waits_for_start(p: PlatformView, ctx: Airdrop, id: Seq<char>, asset_index: u64)
    requires
        p.has_campaign(id),
        ctx.now < p.campaign(id).starting_time,
    ensures
        airdrop_error(p, ctx, id, asset_index) is Some,
{
}

/// An update at or after the campaign's current starting time always fails,
/// whatever new starting time it proposes.
pub proof fn law_update_only_before_start(
    p: PlatformView,
    ctx: UpdateCampaign,
    id: Seq<char>,
    assets: Seq<Asset>,
    starting_time: u64,
)
    requires
        p.has_campaign(id),
        p.campaign(id).starting_time <= ctx.now,
    ensures
        update_error(p, ctx, id, assets, starting_time) is Some,
{
}

/// An update never refunds: when the new fee is at most the fee paid, nothing
/// more is charged; when it is higher, exactly the difference is charged.
pub proof fn law_update_fee_top_up(paid: u64, due: int)
    ensures
        due <= paid ==> top_up(paid, due) == 0,
        due > paid ==> top_up(paid, due) == due - paid,
        top_up(paid, due) >= 0,
{
}

/// A claim that drains the last of a campaign removes it: it is no longer
/// listed, and every later claim against its id by an operator fails with
/// `CampaignNotExists`. A claim that leaves something keeps it listed.
pub proof fn law_exhausted_campaign_removed(
    p: PlatformView,
    ctx: Airdrop,
    id: Seq<char>,
    asset_index: u64,
    later: Airdrop,
    later_index: u64,
)
    requires
        p.wf(),
        airdrop_error(p, ctx, id, asset_index) is None,
        p.is_operator(later.operator),
    ensures
        p.campaign(id).total_available_assets == claimed_amount(p, id, asset_index) ==> {
            &&& !after_airdrop(p, id, asset_index).has_campaign(id)
            &&& airdrop_error(after_airdrop(p, id, asset_index), later, id, later_index) == Some(
                PlaylinkAirdropErr::CampaignNotExists,
            )
        },
        p.campaign(id).total_available_assets != claimed_amount(p, id, asset_index) ==> {
            &&& after_airdrop(p, id, asset_index).has_campaign(id)
            &&& after_airdrop(p, id, asset_index).campaign(id) == drained(p.campaign(id), asset_index)
        },
{
    let i = p.campaign_index(id);
    let q = after_airdrop(p, id, asset_index);
    assert(0 <= i < p.all_campaigns.len() && p.all_campaigns[i].campaign_id == id);
    assert(p.all_campaigns[i].wf());
    lemma_amount_le_sum(p.all_campaigns[i].assets, asset_index as int);
    if p.campaign(id).total_available_assets == claimed_amount(p, id, asset_index) {
        assert(q.all_campaigns =~= p.all_campaigns.remove(i));
        if q.has_campaign(id) {
            let j = choose|j: int| 0 <= j < q.all_campaigns.len() && (#[trigger] q.all_campaigns[j]).campaign_id == id;
            if j < i {
                assert(p.all_campaigns[j].campaign_id == id);
            } else {
                assert(p.all_campaigns[j + 1].campaign_id == id);
            }
        }
    } else {
        assert(q.all_campaigns[i].campaign_id == id);
        assert(q.campaign_index(id) == i);
    }
}

/// Removing a key that is not on the roster leaves the roster as it was.
pub proof fn law_removing_absent_operator_is_noop(ops: Seq<Pubkey>, key: Pubkey)
    requires
        !ops.contains(key),
    ensures
        without(ops, key) == ops,
    decreases ops.len(),
{
    if ops.len() > 0 {
        assert(!ops.drop_last().contains(key)) by {
            if ops.drop_last().contains(key) {
                let j = choose|j: int| 0 <= j < ops.drop_last().len() && ops.drop_last()[j] == key;
                assert(ops[j] == key);
            }
        }
        law_removing_absent_operator_is_noop(ops.drop_last(), key);
        assert(ops[ops.len() - 1] != key);
        assert(ops.drop_last().push(ops.last()) =~= ops);
    }
}

} // verus!
