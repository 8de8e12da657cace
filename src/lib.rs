//! A campaign-based airdrop registry: an administrator sets the fee rate and
//! the operator roster, creators fund and schedule campaigns of token
//! allotments, and operators hand each allotment out once the campaign has
//! started. Every operation is a pure step on the registry state that either
//! succeeds with the value movements it asks for, or fails and changes nothing.
pub mod amounts;
pub mod campaign;
pub mod distribution;
pub mod fees;
pub mod laws;
pub mod pubkey;
pub mod registry;
pub mod roster;
pub mod state;

pub use crate::campaign::{create_airdrop_campaign, update_campaign};
pub use crate::distribution::airdrop;
pub use crate::fees::withdraw_airdrop_fee;
pub use crate::pubkey::Pubkey;
pub use crate::roster::{initialize, set_fee_per_asset, set_operators};
pub use crate::state::{
    Airdrop, AirdropCampaign, AirdropCampaignCreated, AirdropCampaignUpdated, AirdropPlatform,
    Asset, CreateAirdropCampaign, FeeWithdrawal, Initialize, PlaylinkAirdropErr, SetFeePerAsset,
    SetOperators, TokenTransfer, UpdateCampaign, WithdrawAirdropFee,
};
