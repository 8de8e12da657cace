use playlink_airdrop::{
    airdrop, create_airdrop_campaign, initialize, set_fee_per_asset, set_operators,
    update_campaign, withdraw_airdrop_fee, Airdrop, AirdropPlatform, Asset,
    CreateAirdropCampaign, Initialize, PlaylinkAirdropErr, Pubkey, SetFeePerAsset, SetOperators,
    UpdateCampaign, WithdrawAirdropFee,
};

const T: u64 = 1_000;

fn key(b: u8) -> Pubkey {
    Pubkey::new_from_array([b; 32])
}

fn admin() -> Pubkey {
    key(1)
}

fn creator() -> Pubkey {
    key(2)
}

fn mint_a() -> Pubkey {
    key(10)
}

fn mint_b() -> Pubkey {
    key(11)
}

fn asset(mint: Pubkey, amount: u64) -> Asset {
    Asset { asset_address: mint, available_amount: amount }
}

fn platform() -> AirdropPlatform {
    initialize(&Initialize { admin: admin(), bump: 254 }, 10)
}

fn creating(now: u64) -> CreateAirdropCampaign {
    CreateAirdropCampaign { campaign_creator: creator(), creator_lamports: 1_000_000, now }
}

fn updating(now: u64) -> UpdateCampaign {
    UpdateCampaign { campaign_creator: creator(), creator_lamports: 1_000_000, now }
}

fn claiming(mint: Pubkey, now: u64) -> Airdrop {
    Airdrop { mint, campaign_creator: creator(), operator: admin(), now }
}

/// Registry with "c1" = [{mintA, 5}] starting at T + 100.
fn with_c1() -> AirdropPlatform {
    let mut p = platform();
    create_airdrop_campaign(&mut p, &creating(T), "c1".to_string(), vec![asset(mint_a(), 5)], T + 100)
        .unwrap();
    p
}

/// Registry with "c1" = [{mintA, 5}, {mintB, 3}] starting at T + 200.
fn with_c1_updated() -> AirdropPlatform {
    let mut p = with_c1();
    update_campaign(
        &mut p,
        &updating(T + 50),
        "c1".to_string(),
        vec![asset(mint_a(), 5), asset(mint_b(), 3)],
        T + 200,
    )
    .unwrap();
    p
}

#[test]
fn initialize_makes_admin_first_operator() {
    let p = platform();
    assert_eq!(p.admin, admin());
    assert_eq!(p.fee_per_asset, 10);
    assert_eq!(p.operators, vec![admin()]);
    assert!(p.all_campaigns.is_empty());
    assert_eq!(p.bump, 254);
}

#[test]
fn create_charges_fee_and_stores_campaign() {
    let mut p = platform();
    let (fee, ev) = create_airdrop_campaign(
        &mut p,
        &creating(T),
        "c1".to_string(),
        vec![asset(mint_a(), 5)],
        T + 100,
    )
    .unwrap();
    assert_eq!(fee, 10);
    assert_eq!(ev.campaign_id, "c1");
    assert_eq!(ev.creator, creator());
    assert_eq!(ev.starting_time, T + 100);
    assert_eq!(ev.assets.len(), 1);
    assert_eq!(p.all_campaigns.len(), 1);
    let c = &p.all_campaigns[0];
    assert_eq!(c.campaign_id, "c1");
    assert_eq!(c.creator, creator());
    assert_eq!(c.total_available_assets, 5);
    assert_eq!(c.airdrop_fee, 10);
    assert_eq!(c.starting_time, T + 100);
}

#[test]
fn update_charges_difference_and_recomputes_total() {
    let mut p = with_c1();
    let (extra, ev) = update_campaign(
        &mut p,
        &updating(T + 50),
        "c1".to_string(),
        vec![asset(mint_a(), 5), asset(mint_b(), 3)],
        T + 200,
    )
    .unwrap();
    assert_eq!(extra, 10);
    assert_eq!(ev.assets.len(), 2);
    assert_eq!(ev.starting_time, T + 200);
    let c = &p.all_campaigns[0];
    assert_eq!(c.total_available_assets, 8);
    assert_eq!(c.airdrop_fee, 20);
    assert_eq!(c.starting_time, T + 200);
    assert_eq!(c.assets.len(), 2);
}

#[test]
fn first_claim_keeps_campaign() {
    let mut p = with_c1_updated();
    let t = airdrop(&mut p, &claiming(mint_a(), T + 200), "c1".to_string(), 0).unwrap();
    assert_eq!(t.amount, 5);
    assert_eq!(t.mint, mint_a());
    assert_eq!(t.authority_bump, 254);
    assert_eq!(p.all_campaigns.len(), 1);
    let c = &p.all_campaigns[0];
    assert_eq!(c.total_available_assets, 3);
    assert_eq!(c.assets[0].available_amount, 0);
    assert_eq!(c.assets[1].available_amount, 3);
}

#[test]
fn last_claim_removes_campaign() {
    let mut p = with_c1_updated();
    airdrop(&mut p, &claiming(mint_a(), T + 200), "c1".to_string(), 0).unwrap();
    let t = airdrop(&mut p, &claiming(mint_b(), T + 300), "c1".to_string(), 1).unwrap();
    assert_eq!(t.amount, 3);
    assert_eq!(t.mint, mint_b());
    assert!(p.all_campaigns.is_empty());
    let again = airdrop(&mut p, &claiming(mint_b(), T + 300), "c1".to_string(), 1);
    assert_eq!(again.unwrap_err(), PlaylinkAirdropErr::CampaignNotExists);
}

#[test]
fn claim_before_start_fails_and_changes_nothing() {
    let mut p = with_c1();
    let r = airdrop(&mut p, &claiming(mint_a(), T + 99), "c1".to_string(), 0);
    assert_eq!(r.unwrap_err(), PlaylinkAirdropErr::CampaignNotStarts);
    let c = &p.all_campaigns[0];
    assert_eq!(c.total_available_assets, 5);
    assert_eq!(c.assets[0].available_amount, 5);
}

#[test]
fn removing_absent_operator_is_noop() {
    let mut p = platform();
    set_operators(&mut p, &SetOperators { admin: admin() }, vec![key(7)], vec![false]).unwrap();
    assert_eq!(p.operators, vec![admin()]);
}

#[test]
fn withdraw_by_non_admin_fails() {
    let p = platform();
    let ctx = WithdrawAirdropFee { admin: key(9), platform_lamports: 500, recipient_lamports: 0 };
    assert_eq!(withdraw_airdrop_fee(&p, &ctx).unwrap_err(), PlaylinkAirdropErr::NotAdmin);
}

#[test]
fn withdraw_moves_whole_balance() {
    let p = platform();
    let ctx = WithdrawAirdropFee { admin: admin(), platform_lamports: 500, recipient_lamports: 7 };
    let w = withdraw_airdrop_fee(&p, &ctx).unwrap();
    assert_eq!(w.amount, 500);
    assert_eq!(w.platform_lamports, 0);
    assert_eq!(w.recipient_lamports, 507);
}

#[test]
fn withdraw_overflowing_recipient_fails() {
    let p = platform();
    let ctx = WithdrawAirdropFee { admin: admin(), platform_lamports: 2, recipient_lamports: u64::MAX };
    assert_eq!(withdraw_airdrop_fee(&p, &ctx).unwrap_err(), PlaylinkAirdropErr::AmountOverflow);
}

#[test]
fn create_duplicate_id_fails() {
    let mut p = with_c1();
    let r = create_airdrop_campaign(&mut p, &creating(T), "c1".to_string(), vec![], T + 100);
    assert_eq!(r.unwrap_err(), PlaylinkAirdropErr::CampaignAlreadyCreated);
    assert_eq!(p.all_campaigns.len(), 1);
}

#[test]
fn create_with_past_start_fails() {
    let mut p = platform();
    let r = create_airdrop_campaign(&mut p, &creating(T), "c1".to_string(), vec![asset(mint_a(), 1)], T);
    assert_eq!(r.unwrap_err(), PlaylinkAirdropErr::LowStartingTime);
    assert!(p.all_campaigns.is_empty());
}

#[test]
fn create_without_funds_fails() {
    let mut p = platform();
    let ctx = CreateAirdropCampaign { campaign_creator: creator(), creator_lamports: 19, now: T };
    let r = create_airdrop_campaign(
        &mut p,
        &ctx,
        "c1".to_string(),
        vec![asset(mint_a(), 1), asset(mint_b(), 1)],
        T + 1,
    );
    assert_eq!(r.unwrap_err(), PlaylinkAirdropErr::InsufficientFunds);
}

#[test]
fn create_with_overflowing_fee_fails() {
    let mut p = initialize(&Initialize { admin: admin(), bump: 1 }, u64::MAX);
    let r = create_airdrop_campaign(
        &mut p,
        &creating(T),
        "c1".to_string(),
        vec![asset(mint_a(), 1), asset(mint_b(), 1)],
        T + 1,
    );
    assert_eq!(r.unwrap_err(), PlaylinkAirdropErr::FeeOverflow);
}

#[test]
fn create_with_overflowing_total_fails() {
    let mut p = platform();
    let r = create_airdrop_campaign(
        &mut p,
        &creating(T),
        "c1".to_string(),
        vec![asset(mint_a(), u64::MAX), asset(mint_b(), 1)],
        T + 1,
    );
    assert_eq!(r.unwrap_err(), PlaylinkAirdropErr::AmountOverflow);
}

#[test]
fn create_with_zero_amount_asset_is_accepted() {
    let mut p = platform();
    create_airdrop_campaign(&mut p, &creating(T), "z".to_string(), vec![asset(mint_a(), 0)], T + 1)
        .unwrap();
    assert_eq!(p.all_campaigns[0].total_available_assets, 0);
}

#[test]
fn update_unknown_campaign_fails() {
    let mut p = with_c1();
    let r = update_campaign(&mut p, &updating(T), "c2".to_string(), vec![], T + 300);
    assert_eq!(r.unwrap_err(), PlaylinkAirdropErr::CampaignNotExists);
}

#[test]
fn update_by_other_signer_fails() {
    let mut p = with_c1();
    let ctx = UpdateCampaign { campaign_creator: key(3), creator_lamports: 1_000, now: T };
    let r = update_campaign(&mut p, &ctx, "c1".to_string(), vec![], T + 300);
    assert_eq!(r.unwrap_err(), PlaylinkAirdropErr::NotCampaignCreator);
}

#[test]
fn update_after_start_fails_even_with_later_start() {
    let mut p = with_c1();
    let r = update_campaign(&mut p, &updating(T + 100), "c1".to_string(), vec![], T + 10_000);
    assert_eq!(r.unwrap_err(), PlaylinkAirdropErr::UpdateNotAllowed);
    assert_eq!(p.all_campaigns[0].starting_time, T + 100);
}

#[test]
fn update_to_fewer_assets_refunds_nothing() {
    let mut p = with_c1_updated();
    let (extra, _) =
        update_campaign(&mut p, &updating(T + 10), "c1".to_string(), vec![asset(mint_b(), 4)], T + 150)
            .unwrap();
    assert_eq!(extra, 0);
    assert_eq!(p.all_campaigns[0].airdrop_fee, 10);
    assert_eq!(p.all_campaigns[0].total_available_assets, 4);
}

#[test]
fn update_without_funds_for_top_up_fails() {
    let mut p = with_c1();
    let ctx = UpdateCampaign { campaign_creator: creator(), creator_lamports: 9, now: T };
    let r = update_campaign(
        &mut p,
        &ctx,
        "c1".to_string(),
        vec![asset(mint_a(), 5), asset(mint_b(), 3)],
        T + 300,
    );
    assert_eq!(r.unwrap_err(), PlaylinkAirdropErr::InsufficientFunds);
    assert_eq!(p.all_campaigns[0].assets.len(), 1);
}

#[test]
fn update_with_past_new_start_fails() {
    let mut p = with_c1();
    let r = update_campaign(&mut p, &updating(T + 50), "c1".to_string(), vec![], T + 50);
    assert_eq!(r.unwrap_err(), PlaylinkAirdropErr::LowStartingTime);
}

#[test]
fn claim_by_non_operator_fails() {
    let mut p = with_c1();
    let ctx = Airdrop { mint: mint_a(), campaign_creator: creator(), operator: key(8), now: T + 100 };
    let r = airdrop(&mut p, &ctx, "c1".to_string(), 0);
    assert_eq!(r.unwrap_err(), PlaylinkAirdropErr::NotOperator);
}

#[test]
fn claim_with_wrong_creator_fails() {
    let mut p = with_c1();
    let ctx = Airdrop { mint: mint_a(), campaign_creator: key(3), operator: admin(), now: T + 100 };
    let r = airdrop(&mut p, &ctx, "c1".to_string(), 0);
    assert_eq!(r.unwrap_err(), PlaylinkAirdropErr::CampaignNotExists);
}

#[test]
fn claim_with_bad_index_fails() {
    let mut p = with_c1();
    let r = airdrop(&mut p, &claiming(mint_a(), T + 100), "c1".to_string(), 1);
    assert_eq!(r.unwrap_err(), PlaylinkAirdropErr::InvalidAssetIndex);
}

#[test]
fn claim_with_wrong_mint_fails() {
    let mut p = with_c1();
    let r = airdrop(&mut p, &claiming(mint_b(), T + 100), "c1".to_string(), 0);
    assert_eq!(r.unwrap_err(), PlaylinkAirdropErr::AssetAddressMismatch);
}

#[test]
fn reclaiming_drained_asset_transfers_zero() {
    let mut p = with_c1_updated();
    airdrop(&mut p, &claiming(mint_a(), T + 200), "c1".to_string(), 0).unwrap();
    let t = airdrop(&mut p, &claiming(mint_a(), T + 200), "c1".to_string(), 0).unwrap();
    assert_eq!(t.amount, 0);
    assert_eq!(p.all_campaigns[0].total_available_assets, 3);
}

#[test]
fn set_operators_adds_duplicates_and_removes_all() {
    let mut p = platform();
    let ctx = SetOperators { admin: admin() };
    set_operators(&mut p, &ctx, vec![key(5), key(6), key(5)], vec![true, true, true]).unwrap();
    assert_eq!(p.operators, vec![admin(), key(5), key(6), key(5)]);
    set_operators(&mut p, &ctx, vec![key(5), admin()], vec![false, false]).unwrap();
    assert_eq!(p.operators, vec![key(6)]);
}

#[test]
fn set_operators_length_mismatch_fails() {
    let mut p = platform();
    let r = set_operators(&mut p, &SetOperators { admin: admin() }, vec![key(5)], vec![]);
    assert_eq!(r.unwrap_err(), PlaylinkAirdropErr::LengthsMismatch);
    assert_eq!(p.operators, vec![admin()]);
}

#[test]
fn set_operators_by_non_admin_fails() {
    let mut p = platform();
    let r = set_operators(&mut p, &SetOperators { admin: key(4) }, vec![key(5)], vec![true]);
    assert_eq!(r.unwrap_err(), PlaylinkAirdropErr::NotAdmin);
    assert_eq!(p.operators, vec![admin()]);
}

#[test]
fn set_fee_by_operator_applies_to_later_creates() {
    let mut p = with_c1();
    set_fee_per_asset(&mut p, &SetFeePerAsset { operator: admin() }, 7).unwrap();
    assert_eq!(p.fee_per_asset, 7);
    assert_eq!(p.all_campaigns[0].airdrop_fee, 10);
    let (fee, _) = create_airdrop_campaign(
        &mut p,
        &creating(T),
        "c2".to_string(),
        vec![asset(mint_a(), 1), asset(mint_b(), 1), asset(mint_a(), 1)],
        T + 1,
    )
    .unwrap();
    assert_eq!(fee, 21);
}

#[test]
fn set_fee_by_non_operator_fails() {
    let mut p = platform();
    let r = set_fee_per_asset(&mut p, &SetFeePerAsset { operator: key(4) }, 7);
    assert_eq!(r.unwrap_err(), PlaylinkAirdropErr::NotOperator);
    assert_eq!(p.fee_per_asset, 10);
}

#[test]
fn pubkeys_compare_by_bytes() {
    let mut b = [3u8; 32];
    assert_eq!(Pubkey::new_from_array(b), key(3));
    b[31] = 4;
    assert_ne!(Pubkey::new_from_array(b), key(3));
    assert_eq!(Pubkey::new_from_array(b).to_bytes(), b);
}

#[test]
fn well_formed_detects_broken_registry() {
    let mut p = with_c1();
    assert!(p.is_well_formed());
    p.all_campaigns[0].total_available_assets = 4;
    assert!(!p.is_well_formed());
    p.all_campaigns[0].total_available_assets = 5;
    let mut q = with_c1();
    let dup = q.all_campaigns.remove(0);
    p.all_campaigns.push(dup);
    assert!(!p.is_well_formed());
}
