use vstd::prelude::*;

use crate::pubkey::Pubkey;

verus! {

/// One allotment of a campaign: a token mint and the amount still to hand out.
#[derive(Clone, Copy, Debug)]
pub struct Asset {
    pub asset_address: Pubkey,
    pub available_amount: u64,
}

/// A scheduled giveaway, owned by its creator.
#[derive(Debug)]
pub struct AirdropCampaign {
    pub campaign_id: String,
    pub creator: Pubkey,
    pub assets: Vec<Asset>,
    pub starting_time: u64,
    pub total_available_assets: u64,
    pub airdrop_fee: u64,
}

/// The shared registry: administrator, fee rate, operator roster and campaigns.
#[derive(Debug)]
pub struct AirdropPlatform {
    pub admin: Pubkey,
    pub fee_per_asset: u64,
    pub all_campaigns: Vec<AirdropCampaign>,
    pub operators: Vec<Pubkey>,
    pub bump: u8,
}

/// Why an operation was refused. A refused operation changes nothing.
#[derive(Clone, Copy, Debug, PartialEq, Eq, Structural)]
pub enum PlaylinkAirdropErr {
    LengthsMismatch,
    CampaignAlreadyCreated,
    LowStartingTime,
    NotCampaignCreator,
    UpdateNotAllowed,
    CampaignNotExists,
    CampaignNotStarts,
    InvalidAssetIndex,
    AssetAddressMismatch,
    /// The signer is not the platform administrator.
    NotAdmin,
    /// The signer is not on the operator roster.
    NotOperator,
    /// The payer cannot cover the fee that is due.
    InsufficientFunds,
    /// The fee rate times the number of assets does not fit in a `u64`.
    FeeOverflow,
    /// An amount or a balance does not fit in a `u64`.
    AmountOverflow,
}

/// Notification of a new campaign.
#[derive(Debug)]
pub struct AirdropCampaignCreated {
    pub campaign_id: String,
    pub creator: Pubkey,
    pub assets: Vec<Asset>,
    pub starting_time: u64,
}

/// Notification of a rewritten campaign.
#[derive(Debug)]
pub struct AirdropCampaignUpdated {
    pub campaign_id: String,
    pub creator: Pubkey,
    pub assets: Vec<Asset>,
    pub starting_time: u64,
}

/// What `initialize` reads from its accounts: the paying signer and the
/// derivation bump of the registry's address.
#[derive(Clone, Copy, Debug)]
pub struct Initialize {
    pub admin: Pubkey,
    pub bump: u8,
}

/// What `set_operators` reads from its accounts: the signer.
#[derive(Clone, Copy, Debug)]
pub struct SetOperators {
    pub admin: Pubkey,
}

/// What `set_fee_per_asset` reads from its accounts: the signer.
#[derive(Clone, Copy, Debug)]
pub struct SetFeePerAsset {
    pub operator: Pubkey,
}

/// What `create_airdrop_campaign` reads: the signer, the signer's native
/// balance, and the clock's unix time.
#[derive(Clone, Copy, Debug)]
pub struct CreateAirdropCampaign {
    pub campaign_creator: Pubkey,
    pub creator_lamports: u64,
    pub now: u64,
}

/// What `update_campaign` reads: the signer, the signer's native balance,
/// and the clock's unix time.
#[derive(Clone, Copy, Debug)]
pub struct UpdateCampaign {
    pub campaign_creator: Pubkey,
    pub creator_lamports: u64,
    pub now: u64,
}

/// What `airdrop` reads: the mint of the token accounts, the creator that owns
/// the source account, the signing operator, and the clock's unix time.
#[derive(Clone, Copy, Debug)]
pub struct Airdrop {
    pub mint: Pubkey,
    pub campaign_creator: Pubkey,
    pub operator: Pubkey,
    pub now: u64,
}

/// What `withdraw_airdrop_fee` reads: the signer and the native balances of
/// the registry and of the recipient.
#[derive(Clone, Copy, Debug)]
pub struct WithdrawAirdropFee {
    pub admin: Pubkey,
    pub platform_lamports: u64,
    pub recipient_lamports: u64,
}

/// The token transfer that a successful `airdrop` asks for: `amount` units of
/// the campaign's mint, from the creator's account to the recipient's, signed
/// by the registry's derived authority.
#[derive(Clone, Copy, Debug)]
pub struct TokenTransfer {
    pub mint: Pubkey,
    pub amount: u64,
    pub authority_bump: u8,
}

/// The native-balance move that a successful `withdraw_airdrop_fee` asks for.
#[derive(Clone, Copy, Debug)]
pub struct FeeWithdrawal {
    pub amount: u64,
    pub platform_lamports: u64,
    pub recipient_lamports: u64,
}

/// A campaign as a mathematical value.
pub struct CampaignView {
    pub campaign_id: Seq<char>,
    pub creator: Pubkey,
    pub assets: Seq<Asset>,
    pub starting_time: u64,
    pub total_available_assets: u64,
    pub airdrop_fee: u64,
}

/// The registry as a mathematical value.
pub struct PlatformView {
    pub admin: Pubkey,
    pub fee_per_asset: u64,
    pub all_campaigns: Seq<CampaignView>,
    pub operators: Seq<Pubkey>,
    pub bump: u8,
}

/// The sum of the amounts still available over a sequence of assets.
pub open spec fn sum_amounts(assets: Seq<Asset>) -> nat
    decreases assets.len(),
{
    if assets.len() == 0 {
        0
    } else {
        (sum_amounts(assets.drop_last()) + assets.last().available_amount) as nat
    }
}

/// The fee for a campaign of `n` assets at rate `rate`.
pub open spec fn fee_for(rate: u64, n: nat) -> int {
    rate * n
}

impl View for AirdropCampaign {
    type V = CampaignView;

    open spec fn view(&self) -> CampaignView {
        CampaignView {
            campaign_id: self.campaign_id@,
            creator: self.creator,
            assets: self.assets@,
            starting_time: self.starting_time,
            total_available_assets: self.total_available_assets,
            airdrop_fee: self.airdrop_fee,
        }
    }
}

impl View for AirdropPlatform {
    type V = PlatformView;

    open spec fn view(&self) -> PlatformView {
        PlatformView {
            admin: self.admin,
            fee_per_asset: self.fee_per_asset,
            all_campaigns: self.all_campaigns@.map_values(|c: AirdropCampaign| c@),
            operators: self.operators@,
            bump: self.bump,
        }
    }
}

impl CampaignView {
    /// The aggregate balance equals the sum of the per-asset balances.
    pub open spec fn wf(self) -> bool {
        self.total_available_assets == sum_amounts(self.assets)
    }
}

impl PlatformView {
    /// Every campaign keeps its aggregate balance, and no two campaigns share an id.
    pub open spec fn wf(self) -> bool {
        &&& forall|i: int| 0 <= i < self.all_campaigns.len() ==> (#[trigger] self.all_campaigns[i]).wf()
        &&& self.ids_unique()
    }

    /// No two stored campaigns share an id.
    pub open spec fn ids_unique(self) -> bool {
        forall|i: int, j: int|
            0 <= i < self.all_campaigns.len() && 0 <= j < self.all_campaigns.len() && i != j
                ==> (#[trigger] self.all_campaigns[i]).campaign_id
                != (#[trigger] self.all_campaigns[j]).campaign_id
    }

    /// Some stored campaign has this id.
    pub open spec fn has_campaign(self, id: Seq<char>) -> bool {
        exists|i: int|
            0 <= i < self.all_campaigns.len() && (#[trigger] self.all_campaigns[i]).campaign_id == id
    }

    /// The position of the campaign with this id (meaningful when it exists).
    pub open spec fn campaign_index(self, id: Seq<char>) -> int {
        choose|i: int|
            0 <= i < self.all_campaigns.len() && (#[trigger] self.all_campaigns[i]).campaign_id == id
    }

    /// The stored campaign with this id (meaningful when it exists).
    pub open spec fn campaign(self, id: Seq<char>) -> CampaignView {
        self.all_campaigns[self.campaign_index(id)]
    }

    /// `k` is on the operator roster.
    pub open spec fn is_operator(self, k: Pubkey) -> bool {
        self.operators.contains(k)
    }
}

impl AirdropPlatform {
    /// The registry's invariant.
    pub open spec fn wf(&self) -> bool {
        self@.wf()
    }
}

} // verus!
