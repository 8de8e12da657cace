use vstd::prelude::*;

use crate::pubkey::Pubkey;
use crate::amounts::total_of;
use crate::state::{AirdropCampaign, AirdropPlatform};

verus! {

/// Whether `key` is on the operator roster.
pub fn is_operator(platform: &AirdropPlatform, key: &Pubkey) -> (r: bool)
    ensures
        r == platform@.is_operator(*key),
{
    let mut i: usize = 0;
    while i < platform.operators.len()
        invariant
            i <= platform.operators.len(),
            forall|j: int| 0 <= j < i ==> platform.operators@[j] != *key,
        decreases platform.operators.len() - i,
    {
        if platform.operators[i] == *key {
            assert(platform@.operators[i as int] == *key);
            return true;
        }
        i = i + 1;
    }
    false
}

/// Whether `key` is the platform administrator.
pub fn is_admin(platform: &AirdropPlatform, key: &Pubkey) -> (r: bool)
    ensures
        r == (platform@.admin == *key),
{
    platform.admin == *key
}

/// The position of the campaign with id `campaign_id`, if one is stored.
pub fn find_campaign(platform: &AirdropPlatform, campaign_id: &String) -> (r: Option<usize>)
    ensures
        r is None <==> !platform@.has_campaign(campaign_id@),
        r is Some ==> r->0 < platform@.all_campaigns.len()
            && platform@.all_campaigns[r->0 as int].campaign_id == campaign_id@,
        r is Some && platform@.ids_unique() ==> r->0 == platform@.campaign_index(campaign_id@),
{
    let campaigns = &platform.all_campaigns;
    let mut i: usize = 0;
    while i < campaigns.len()
        invariant
            campaigns == &platform.all_campaigns,
            i <= campaigns.len(),
            forall|j: int| 0 <= j < i ==> platform@.all_campaigns[j].campaign_id != campaign_id@,
        decreases campaigns.len() - i,
    {
        if campaigns[i].campaign_id == *campaign_id {
            assert(platform@.all_campaigns[i as int].campaign_id == campaign_id@);
            return Some(i);
        }
        i = i + 1;
    }
    None
}


impl AirdropPlatform {
    /// Whether this registry keeps its invariant: every campaign's aggregate
    /// balance is the sum of its assets, and no two campaigns share an id.
    pub fn is_well_formed(&self) -> (r: bool)
        ensures
            r == self.wf(),
    {
        let campaigns = &self.all_campaigns;
        let mut i: usize = 0;
        while i < campaigns.len()
            invariant
                campaigns == &self.all_campaigns,
                i <= campaigns.len(),
                forall|k: int| 0 <= k < i ==> (#[trigger] self@.all_campaigns[k]).wf(),
                forall|a: int, b: int|
                    0 <= a < i && 0 <= b < i && a != b ==> (#[trigger] self@.all_campaigns[a]).campaign_id
                        != (#[trigger] self@.all_campaigns[b]).campaign_id,
            decreases campaigns.len() - i,
        {
            let c: &AirdropCampaign = &campaigns[i];
            assert(self@.all_campaigns[i as int] == c@);
            match total_of(&c.assets) {
                Some(t) => {
                    if t != c.total_available_assets {
                        return false;
                    }
                },
                None => {
                    return false;
                },
            }
            let mut j: usize = 0;
            while j < i
                invariant
                    campaigns == &self.all_campaigns,
                    j <= i < campaigns.len(),
                    c == &campaigns@[i as int],
                    forall|b: int| 0 <= b < j ==> self@.all_campaigns[b].campaign_id != c.campaign_id@,
                decreases i - j,
            {
                if campaigns[j].campaign_id == c.campaign_id {
                    assert(self@.all_campaigns[j as int].campaign_id == self@.all_campaigns[i as int].campaign_id);
                    return false;
                }
                j = j + 1;
            }
            i = i + 1;
        }
        true
    }
}

} // verus!
