use quarry::mint_wrapper::{accept_admin, transfer_admin};
use quarry::claim_rewards_v2::{handler as claim, ClaimRewardsV2, UserClaimV2};
use quarry::error::{ErrorCode, ErrorKind};
use quarry::key::Pubkey;
use quarry::mint_wrapper::{minter_update, new_minter, perform_mint, MintWrapper, Minter, PerformMint};
use quarry::rewarder::DEFAULT_CLAIM_FEE_MILLIBPS;
use quarry::state::{Miner, Quarry, Rewarder};

fn key(b: u8) -> Pubkey {
    Pubkey::new([b; 32])
}

fn ctx(earned: u64, allowance: u64, hard_cap: u64, fee: u64) -> ClaimRewardsV2 {
    let mut rewarder = Rewarder::default();
    rewarder.mint_wrapper = key(3);
    rewarder.rewards_token_mint = key(4);
    rewarder.claim_fee_token_account = key(5);
    rewarder.max_claim_fee_millibps = fee;
    let mut quarry = Quarry::default();
    quarry.rewarder = key(1);
    quarry.famine_ts = i64::MAX;
    let mut miner = Miner::default();
    miner.authority = key(7);
    miner.quarry = key(2);
    miner.rewards_earned = earned;
    let mut wrapper = MintWrapper::default();
    wrapper.token_mint = key(4);
    wrapper.hard_cap = hard_cap;
    wrapper.total_allowance = allowance;
    let mut minter = Minter::default();
    minter.mint_wrapper = key(3);
    minter.minter_authority = key(1);
    minter.allowance = allowance;
    ClaimRewardsV2 {
        mint_wrapper: wrapper,
        mint_wrapper_key: key(3),
        minter,
        rewards_token_mint: key(4),
        rewards_token_supply: 0,
        rewards_token_account: key(8),
        claim_fee_token_account: key(5),
        claim: UserClaimV2 {
            authority: key(7),
            authority_is_signer: true,
            miner,
            quarry,
            quarry_key: key(2),
            rewarder,
            rewarder_key: key(1),
        },
    }
}

#[test]
fn claim_pays_net_and_fee() {
    let mut c = ctx(1_000_000, 2_000_000, u64::MAX, DEFAULT_CLAIM_FEE_MILLIBPS);
    assert_eq!(c.calculate_and_claim_rewards(), Ok((999_900, 100)));
    assert_eq!(c.claim.miner.rewards_earned, 0);
    assert_eq!(c.minter.allowance, 1_000_000);
    assert_eq!(c.minter.total_minted, 1_000_000);
    assert_eq!(c.mint_wrapper.total_minted, 1_000_000);
    assert_eq!(c.mint_wrapper.total_allowance, 1_000_000);
    assert_eq!(c.rewards_token_supply, 1_000_000);
}

#[test]
fn claim_of_nothing_is_a_no_op() {
    let mut c = ctx(0, 0, 0, DEFAULT_CLAIM_FEE_MILLIBPS);
    assert_eq!(c.calculate_and_claim_rewards(), Ok((0, 0)));
    assert_eq!(claim(&mut c, 100), Ok((0, 0)));
}

#[test]
fn claim_twice_pays_nothing_the_second_time() {
    let mut c = ctx(500, 1_000, u64::MAX, 0);
    assert_eq!(claim(&mut c, 10), Ok((500, 0)));
    assert_eq!(claim(&mut c, 10), Ok((0, 0)));
}

#[test]
fn claim_beyond_allowance_is_refused_without_change() {
    let mut c = ctx(1_000, 999, u64::MAX, DEFAULT_CLAIM_FEE_MILLIBPS);
    let before = c.claim.miner.rewards_earned;
    assert_eq!(c.calculate_and_claim_rewards(), Err(ErrorCode::MinterAllowanceExceeded));
    assert_eq!(c.claim.miner.rewards_earned, before);
    assert_eq!(c.minter.allowance, 999);
    assert_eq!(ErrorCode::MinterAllowanceExceeded.kind(), ErrorKind::AllowanceExceeded);
}

#[test]
fn claim_beyond_hard_cap_is_refused() {
    let mut c = ctx(1_000, 5_000, 999, 0);
    assert_eq!(c.calculate_and_claim_rewards(), Err(ErrorCode::HardcapExceeded));
    assert_eq!(ErrorCode::HardcapExceeded.kind(), ErrorKind::HardCapExceeded);
}

#[test]
fn claim_with_invalid_fee_is_refused() {
    let mut c = ctx(1_000, 5_000, u64::MAX, 10_000_000);
    assert_eq!(c.calculate_and_claim_rewards(), Err(ErrorCode::InvalidMaxClaimFee));
}

#[test]
fn claim_validation() {
    let mut c = ctx(1, 1, 1, 0);
    c.claim.authority = key(9);
    assert_eq!(claim(&mut c, 0), Err(ErrorCode::Unauthorized));
    let mut c = ctx(1, 1, 1, 0);
    c.claim.authority_is_signer = false;
    assert_eq!(claim(&mut c, 0), Err(ErrorCode::Unauthorized));
    let mut c = ctx(1, 1, 1, 0);
    c.claim.rewarder.is_paused = true;
    assert_eq!(claim(&mut c, 0), Err(ErrorCode::Paused));
    let mut c = ctx(1, 1, 1, 0);
    c.minter.minter_authority = key(9);
    assert_eq!(claim(&mut c, 0), Err(ErrorCode::InvalidLinkage));
    assert_eq!(ErrorCode::InvalidLinkage.kind(), ErrorKind::InvalidLinkage);
    let c = ctx(1, 1, 1, 0);
    assert_eq!(c.validate(), Ok(()));
}

#[test]
fn perform_mint_updates_counters() {
    let mut wrapper = MintWrapper::default();
    wrapper.hard_cap = 100;
    wrapper.total_allowance = 60;
    let mut minter = Minter::default();
    minter.allowance = 50;
    let mut pm = PerformMint { mint_wrapper: wrapper, minter, token_supply: 40 };
    assert_eq!(perform_mint(&mut pm, 50), Ok(()));
    assert_eq!((pm.minter.allowance, pm.minter.total_minted), (0, 50));
    assert_eq!((pm.mint_wrapper.total_allowance, pm.mint_wrapper.total_minted), (10, 50));
    assert_eq!(pm.token_supply, 90);
    assert_eq!(perform_mint(&mut pm, 1), Err(ErrorCode::MinterAllowanceExceeded));
}

#[test]
fn perform_mint_respects_hard_cap() {
    let mut wrapper = MintWrapper::default();
    wrapper.hard_cap = 100;
    wrapper.total_allowance = 500;
    let mut minter = Minter::default();
    minter.allowance = 500;
    let mut pm = PerformMint { mint_wrapper: wrapper, minter, token_supply: 90 };
    assert_eq!(perform_mint(&mut pm, 11), Err(ErrorCode::HardcapExceeded));
    assert_eq!(perform_mint(&mut pm, 10), Ok(()));
    assert_eq!(pm.token_supply, 100);
}

#[test]
fn minter_update_keeps_total_allowance() {
    let mut wrapper = MintWrapper::default();
    let mut m1 = new_minter(&mut wrapper, key(3), key(1), 0).unwrap();
    let mut m2 = new_minter(&mut wrapper, key(3), key(2), 0).unwrap();
    assert_eq!((m1.index, m2.index, wrapper.num_minters), (0, 1, 2));
    minter_update(&mut wrapper, &mut m1, 100).unwrap();
    minter_update(&mut wrapper, &mut m2, 50).unwrap();
    minter_update(&mut wrapper, &mut m1, 30).unwrap();
    assert_eq!(wrapper.total_allowance, 80);
    assert_eq!(m1.allowance, 30);
}

#[test]
fn wrapper_admin_handover() {
    let mut w = MintWrapper::default();
    w.admin = key(1);
    assert_eq!(transfer_admin(&mut w, &key(2), key(3)), Err(ErrorCode::Unauthorized));
    assert_eq!(transfer_admin(&mut w, &key(1), key(1)), Err(ErrorCode::InvalidLinkage));
    transfer_admin(&mut w, &key(1), key(3)).unwrap();
    assert_eq!(accept_admin(&mut w, &key(2)), Err(ErrorCode::Unauthorized));
    accept_admin(&mut w, &key(3)).unwrap();
    assert_eq!(w.admin, key(3));
    assert_eq!(w.pending_admin, Pubkey::zeroed());
}
