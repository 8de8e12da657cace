use vstd::prelude::*;

use crate::amounts::{lemma_amount_le_sum, lemma_sum_update};
use crate::registry::{find_campaign, is_operator};
use crate::state::{
    Airdrop, AirdropCampaign, AirdropPlatform, Asset, CampaignView, PlatformView,
    PlaylinkAirdropErr, TokenTransfer,
};

verus! {

/// The error that `airdrop` reports, or `None` where the claim goes through.
pub open spec fn airdrop_error(p: PlatformView, ctx: Airdrop, id: Seq<char>, asset_index: u64) -> Option<
    PlaylinkAirdropErr,
> {
    if !p.is_operator(ctx.operator) {
        Some(PlaylinkAirdropErr::NotOperator)
    } else if !(p.has_campaign(id) && p.campaign(id).creator == ctx.campaign_creator) {
        Some(PlaylinkAirdropErr::CampaignNotExists)
    } else if ctx.now < p.campaign(id).starting_time {
        Some(PlaylinkAirdropErr::CampaignNotStarts)
    } else if asset_index >= p.campaign(id).assets.len() {
        Some(PlaylinkAirdropErr::InvalidAssetIndex)
    } else if p.campaign(id).assets[asset_index as int].asset_address != ctx.mint {
        Some(PlaylinkAirdropErr::AssetAddressMismatch)
    } else {
        None
    }
}

/// The amount that a successful claim hands out: all that is left of the asset.
pub open spec fn claimed_amount(p: PlatformView, id: Seq<char>, asset_index: u64) -> u64 {
    p.campaign(id).assets[asset_index as int].available_amount
}

/// The campaign after one of its assets was drained.
pub open spec fn drained(c: CampaignView, asset_index: u64) -> CampaignView {
    let a = c.assets[asset_index as int];
    CampaignView {
        assets: c.assets.update(asset_index as int, Asset { asset_address: a.asset_address, available_amount: 0 }),
        total_available_assets: (c.total_available_assets - a.available_amount) as u64,
        ..c
    }
}

/// The registry after a successful claim: the asset is drained, and the
/// campaign is gone if nothing is left in it.
pub open spec fn after_airdrop(p: PlatformView, id: Seq<char>, asset_index: u64) -> PlatformView {
    let i = p.campaign_index(id);
    let c = drained(p.all_campaigns[i], asset_index);
    if c.total_available_assets == 0 {
        PlatformView { all_campaigns: p.all_campaigns.remove(i), ..p }
    } else {
        PlatformView { all_campaigns: p.all_campaigns.update(i, c), ..p }
    }
}

/// An operator hands out the whole remaining amount of one asset of a started
/// campaign. On success the registry is updated and the token transfer that
/// must accompany it is returned; on failure nothing changes.
pub fn airdrop(platform: &mut AirdropPlatform, ctx: &Airdrop, campaign_id: String, asset_index: u64) -> (r:
    Result<TokenTransfer, PlaylinkAirdropErr>)
    requires
        old(platform).wf(),
    ensures
        final(platform).wf(),
        match r {
            Ok(t) => {
                &&& airdrop_error(old(platform)@, *ctx, campaign_id@, asset_index) is None
                &&& t.mint == ctx.mint
                &&& t.amount == claimed_amount(old(platform)@, campaign_id@, asset_index)
                &&& t.authority_bump == old(platform)@.bump
                &&& final(platform)@ == after_airdrop(old(platform)@, campaign_id@, asset_index)
            },
            Err(e) => {
                &&& airdrop_error(old(platform)@, *ctx, campaign_id@, asset_index) == Some(e)
                &&& final(platform)@ == old(platform)@
            },
        },
{
    let ghost p = platform@;
    if !is_operator(platform, &ctx.operator) {
        return Err(PlaylinkAirdropErr::NotOperator);
    }
    let i = match find_campaign(platform, &campaign_id) {
        Some(i) => i,
        None => {
            return Err(PlaylinkAirdropErr::CampaignNotExists);
        },
    };
    assert(p.all_campaigns[i as int] == platform.all_campaigns@[i as int]@);
    if platform.all_campaigns[i].creator != ctx.campaign_creator {
        return Err(PlaylinkAirdropErr::CampaignNotExists);
    }
    if ctx.now < platform.all_campaigns[i].starting_time {
        return Err(PlaylinkAirdropErr::CampaignNotStarts);
    }
    if asset_index >= platform.all_campaigns[i].assets.len() as u64 {
        return Err(PlaylinkAirdropErr::InvalidAssetIndex);
    }
    let k = asset_index as usize;
    let asset = platform.all_campaigns[i].assets[k];
    if asset.asset_address != ctx.mint {
        return Err(PlaylinkAirdropErr::AssetAddressMismatch);
    }
    let transfer = TokenTransfer {
        mint: ctx.mint,
        amount: asset.available_amount,
        authority_bump: platform.bump,
    };
    let ghost c = p.all_campaigns[i as int];
    let ghost zeroed = Asset { asset_address: asset.asset_address, available_amount: 0 };
    proof {
        lemma_amount_le_sum(c.assets, k as int);
        lemma_sum_update(c.assets, k as int, zeroed);
    }
    let mut campaign: AirdropCampaign = platform.all_campaigns.remove(i);
    campaign.total_available_assets = campaign.total_available_assets - asset.available_amount;
    campaign.assets.set(k, Asset { asset_address: asset.asset_address, available_amount: 0 });
    assert(campaign@ == drained(c, asset_index));
    if campaign.total_available_assets == 0 {
        assert(platform@.all_campaigns =~= p.all_campaigns.remove(i as int));
    } else {
        platform.all_campaigns.insert(i, campaign);
        assert(platform@.all_campaigns =~= p.all_campaigns.update(i as int, drained(c, asset_index)));
    }
    Ok(transfer)
}

} // verus!
