use vstd::prelude::*;

use crate::amounts::{copy_assets, total_of};
use crate::registry::find_campaign;
use crate::state::{
    fee_for, sum_amounts, AirdropCampaign, AirdropCampaignCreated, AirdropCampaignUpdated,
    AirdropPlatform, Asset, CampaignView, CreateAirdropCampaign, PlatformView, PlaylinkAirdropErr,
    UpdateCampaign,
};

verus! {

/// The error that `create_airdrop_campaign` reports, or `None` where it goes through.
pub open spec fn create_error(
    p: PlatformView,
    ctx: CreateAirdropCampaign,
    id: Seq<char>,
    assets: Seq<Asset>,
    starting_time: u64,
) -> Option<PlaylinkAirdropErr> {
    let fee = fee_for(p.fee_per_asset, assets.len());
    if p.has_campaign(id) {
        Some(PlaylinkAirdropErr::CampaignAlreadyCreated)
    } else if fee > u64::MAX {
        Some(PlaylinkAirdropErr::FeeOverflow)
    } else if fee > ctx.creator_lamports {
        Some(PlaylinkAirdropErr::InsufficientFunds)
    } else if starting_time <= ctx.now {
        Some(PlaylinkAirdropErr::LowStartingTime)
    } else if sum_amounts(assets) > u64::MAX {
        Some(PlaylinkAirdropErr::AmountOverflow)
    } else {
        None
    }
}

/// The registry after a successful creation: the new campaign is appended.
pub open spec fn after_create(
    p: PlatformView,
    ctx: CreateAirdropCampaign,
    id: Seq<char>,
    assets: Seq<Asset>,
    starting_time: u64,
) -> PlatformView {
    let c = CampaignView {
        campaign_id: id,
        creator: ctx.campaign_creator,
        assets: assets,
        starting_time: starting_time,
        total_available_assets: sum_amounts(assets) as u64,
        airdrop_fee: fee_for(p.fee_per_asset, assets.len()) as u64,
    };
    PlatformView { all_campaigns: p.all_campaigns.push(c), ..p }
}

/// A creator opens a new campaign. On success the campaign is stored and the
/// fee to collect from the creator is returned with the notification; on
/// failure nothing changes.
pub fn create_airdrop_campaign(
    platform: &mut AirdropPlatform,
    ctx: &CreateAirdropCampaign,
    campaign_id: String,
    assets: Vec<Asset>,
    starting_time: u64,
) -> (r: Result<(u64, AirdropCampaignCreated), PlaylinkAirdropErr>)
    requires
        old(platform).wf(),
    ensures
        final(platform).wf(),
        match r {
            Ok((fee, ev)) => {
                &&& create_error(old(platform)@, *ctx, campaign_id@, assets@, starting_time) is None
                &&& fee == fee_for(old(platform)@.fee_per_asset, assets@.len())
                &&& final(platform)@ == after_create(old(platform)@, *ctx, campaign_id@, assets@, starting_time)
                &&& ev.campaign_id@ == campaign_id@
                &&& ev.creator == ctx.campaign_creator
                &&& ev.assets@ == assets@
                &&& ev.starting_time == starting_time
            },
            Err(e) => {
                &&& create_error(old(platform)@, *ctx, campaign_id@, assets@, starting_time) == Some(e)
                &&& final(platform)@ == old(platform)@
            },
        },
{
    let ghost p = platform@;
    if find_campaign(platform, &campaign_id).is_some() {
        return Err(PlaylinkAirdropErr::CampaignAlreadyCreated);
    }
    let fee = match platform.fee_per_asset.checked_mul(assets.len() as u64) {
        Some(f) => f,
        None => {
            return Err(PlaylinkAirdropErr::FeeOverflow);
        },
    };
    if fee > ctx.creator_lamports {
        return Err(PlaylinkAirdropErr::InsufficientFunds);
    }
    if starting_time <= ctx.now {
        return Err(PlaylinkAirdropErr::LowStartingTime);
    }
    let total = match total_of(&assets) {
        Some(t) => t,
        None => {
            return Err(PlaylinkAirdropErr::AmountOverflow);
        },
    };
    let event = AirdropCampaignCreated {
        campaign_id: campaign_id.clone(),
        creator: ctx.campaign_creator,
        assets: copy_assets(&assets),
        starting_time,
    };
    let campaign = AirdropCampaign {
        campaign_id,
        creator: ctx.campaign_creator,
        assets,
        starting_time,
        total_available_assets: total,
        airdrop_fee: fee,
    };
    platform.all_campaigns.push(campaign);
    assert(platform@.all_campaigns =~= after_create(p, *ctx, event.campaign_id@, event.assets@, starting_time).all_campaigns);
    Ok((fee, event))
}

/// The extra fee due when a campaign's fee moves from `paid` to `due`: the
/// positive difference, never a refund.
pub open spec fn top_up(paid: u64, due: int) -> int {
    if due > paid {
        due - paid
    } else {
        0
    }
}

/// The error that `update_campaign` reports, or `None` where it goes through.
pub open spec fn update_error(
    p: PlatformView,
    ctx: UpdateCampaign,
    id: Seq<char>,
    assets: Seq<Asset>,
    starting_time: u64,
) -> Option<PlaylinkAirdropErr> {
    let c = p.campaign(id);
    let fee = fee_for(p.fee_per_asset, assets.len());
    if !p.has_campaign(id) {
        Some(PlaylinkAirdropErr::CampaignNotExists)
    } else if c.creator != ctx.campaign_creator {
        Some(PlaylinkAirdropErr::NotCampaignCreator)
    } else if c.starting_time <= ctx.now {
        Some(PlaylinkAirdropErr::UpdateNotAllowed)
    } else if fee > u64::MAX {
        Some(PlaylinkAirdropErr::FeeOverflow)
    } else if top_up(c.airdrop_fee, fee) > ctx.creator_lamports {
        Some(PlaylinkAirdropErr::InsufficientFunds)
    } else if starting_time <= ctx.now {
        Some(PlaylinkAirdropErr::LowStartingTime)
    } else if sum_amounts(assets) > u64::MAX {
        Some(PlaylinkAirdropErr::AmountOverflow)
    } else {
        None
    }
}

/// The registry after a successful update: the campaign's assets, start,
/// aggregate balance and fee are rewritten in place.
pub open spec fn after_update(p: PlatformView, id: Seq<char>, assets: Seq<Asset>, starting_time: u64) -> PlatformView {
    let i = p.campaign_index(id);
    let c = p.all_campaigns[i];
    let n = CampaignView {
        assets: assets,
        starting_time: starting_time,
        total_available_assets: sum_amounts(assets) as u64,
        airdrop_fee: fee_for(p.fee_per_asset, assets.len()) as u64,
        ..c
    };
    PlatformView { all_campaigns: p.all_campaigns.update(i, n), ..p }
}

/// The creator rewrites a campaign that has not started. On success the
/// campaign is rewritten and the extra fee to collect is returned with the
/// notification; on failure nothing changes.
pub fn update_campaign(
    platform: &mut AirdropPlatform,
    ctx: &UpdateCampaign,
    campaign_id: String,
    assets: Vec<Asset>,
    starting_time: u64,
) -> (r: Result<(u64, AirdropCampaignUpdated), PlaylinkAirdropErr>)
    requires
        old(platform).wf(),
    ensures
        final(platform).wf(),
        match r {
            Ok((extra, ev)) => {
                &&& update_error(old(platform)@, *ctx, campaign_id@, assets@, starting_time) is None
                &&& extra == top_up(
                    old(platform)@.campaign(campaign_id@).airdrop_fee,
                    fee_for(old(platform)@.fee_per_asset, assets@.len()),
                )
                &&& final(platform)@ == after_update(old(platform)@, campaign_id@, assets@, starting_time)
                &&& ev.campaign_id@ == campaign_id@
                &&& ev.creator == ctx.campaign_creator
                &&& ev.assets@ == assets@
                &&& ev.starting_time == starting_time
            },
            Err(e) => {
                &&& update_error(old(platform)@, *ctx, campaign_id@, assets@, starting_time) == Some(e)
                &&& final(platform)@ == old(platform)@
            },
        },
{
    let ghost p = platform@;
    let i = match find_campaign(platform, &campaign_id) {
        Some(i) => i,
        None => {
            return Err(PlaylinkAirdropErr::CampaignNotExists);
        },
    };
    assert(p.all_campaigns[i as int] == platform.all_campaigns@[i as int]@);
    if platform.all_campaigns[i].creator != ctx.campaign_creator {
        return Err(PlaylinkAirdropErr::NotCampaignCreator);
    }
    if platform.all_campaigns[i].starting_time <= ctx.now {
        return Err(PlaylinkAirdropErr::UpdateNotAllowed);
    }
    let fee = match platform.fee_per_asset.checked_mul(assets.len() as u64) {
        Some(f) => f,
        None => {
            return Err(PlaylinkAirdropErr::FeeOverflow);
        },
    };
    let paid = platform.all_campaigns[i].airdrop_fee;
    let extra: u64 = if fee > paid {
        fee - paid
    } else {
        0
    };
    if extra > ctx.creator_lamports {
        return Err(PlaylinkAirdropErr::InsufficientFunds);
    }
    if starting_time <= ctx.now {
        return Err(PlaylinkAirdropErr::LowStartingTime);
    }
    let total = match total_of(&assets) {
        Some(t) => t,
        None => {
            return Err(PlaylinkAirdropErr::AmountOverflow);
        },
    };
    let event = AirdropCampaignUpdated {
        campaign_id: campaign_id.clone(),
        creator: ctx.campaign_creator,
        assets: copy_assets(&assets),
        starting_time,
    };
    let campaign = AirdropCampaign {
        campaign_id,
        creator: ctx.campaign_creator,
        assets,
        starting_time,
        total_available_assets: total,
        airdrop_fee: fee,
    };
    platform.all_campaigns.set(i, campaign);
    assert(platform@.all_campaigns =~= after_update(p, event.campaign_id@, event.assets@, starting_time).all_campaigns);
    Ok((extra, event))
}

} // verus!
