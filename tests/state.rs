use quarry::merge_mine::{MergeMiner, MergePool};
use quarry::mint_wrapper::{MintWrapper, Minter};
use quarry::operator::Operator;
use quarry::redeemer::Redeemer;
use quarry::key::Pubkey;
use quarry::state::{Miner, Quarry, Rewarder};

#[test]
fn test_rewarder_len() {
    assert_eq!(Rewarder::default().to_bytes().len(), Rewarder::LEN);
}

#[test]
fn test_quarry_len() {
    assert_eq!(Quarry::default().to_bytes().len(), Quarry::LEN);
}

#[test]
fn test_miner_len() {
    assert_eq!(Miner::default().to_bytes().len(), Miner::LEN);
}

#[test]
fn test_mint_wrapper_len() {
    assert_eq!(MintWrapper::default().to_bytes().len(), MintWrapper::LEN);
}

#[test]
fn test_minter_len() {
    assert_eq!(Minter::default().to_bytes().len(), Minter::LEN);
}

#[test]
fn test_redeemer_len() {
    assert_eq!(Redeemer::default().to_bytes().len(), Redeemer::LEN);
}

#[test]
fn test_pool_len() {
    assert_eq!(MergePool::default().to_bytes().len(), MergePool::LEN);
}

#[test]
fn state_test_miner_len() {
    assert_eq!(MergeMiner::default().to_bytes().len(), MergeMiner::LEN);
}

#[test]
fn operator_len_matches_layout() {
    let op = Operator {
        base: Pubkey::new([1; 32]),
        bump: 2,
        rewarder: Pubkey::new([3; 32]),
        admin: Pubkey::new([4; 32]),
        rate_setter: Pubkey::new([5; 32]),
        quarry_creator: Pubkey::new([6; 32]),
        share_allocator: Pubkey::new([7; 32]),
        last_modified_ts: -1,
        generation: 9,
    };
    let bytes = op.to_bytes();
    assert_eq!(bytes.len(), Operator::LEN);
    assert_eq!(bytes[32], 2);
    // a negative timestamp is written in two's complement
    assert_eq!(&bytes[193..201], &[0xff; 8]);
    assert_eq!(&bytes[201..209], &[9, 0, 0, 0, 0, 0, 0, 0]);
}

#[test]
fn miner_bytes_are_little_endian_in_field_order() {
    let mut m = Miner::default();
    m.bump = 7;
    m.rewards_earned = 0x0102;
    m.rewards_per_token_paid = 1u128 << 64;
    m.balance = u64::MAX;
    let b = m.to_bytes();
    assert_eq!(b[64], 7);
    assert_eq!(&b[97..105], &[2, 1, 0, 0, 0, 0, 0, 0]);
    assert_eq!(&b[105..121], &[0, 0, 0, 0, 0, 0, 0, 0, 1, 0, 0, 0, 0, 0, 0, 0]);
    assert_eq!(&b[121..129], &[0xff; 8]);
}

#[test]
fn rewarder_pause_flag_is_last_byte() {
    let mut r = Rewarder::default();
    assert_eq!(*r.to_bytes().last().unwrap(), 0);
    r.is_paused = true;
    assert_eq!(*r.to_bytes().last().unwrap(), 1);
    assert!(r.assert_not_paused().is_err());
}

#[test]
fn test_registry_len() {
    let registry = quarry::registry::Registry {
        bump: 0,
        rewarder: Pubkey::zeroed(),
        tokens: vec![Pubkey::zeroed(), Pubkey::zeroed()],
    };
    assert_eq!(
        registry.to_bytes().unwrap().len(),
        quarry::registry::Registry::byte_length(2)
    );
}

#[test]
fn registry_records_pool_tokens() {
    let mut registry = quarry::registry::new_registry(Pubkey::new([1; 32]), 3, 7);
    assert_eq!(registry.tokens.len(), 3);
    let mut q = Quarry::default();
    q.rewarder = Pubkey::new([1; 32]);
    q.index = 2;
    q.token_mint_key = Pubkey::new([9; 32]);
    quarry::registry::sync_quarry(&mut registry, &q).unwrap();
    assert_eq!(registry.tokens[2], Pubkey::new([9; 32]));
    assert_eq!(registry.tokens[0], Pubkey::zeroed());
    q.index = 3;
    assert_eq!(quarry::registry::sync_quarry(&mut registry, &q), Err(quarry::error::ErrorCode::InvariantFailed));
    q.rewarder = Pubkey::new([2; 32]);
    assert_eq!(quarry::registry::sync_quarry(&mut registry, &q), Err(quarry::error::ErrorCode::InvalidLinkage));
    let bytes = registry.to_bytes().unwrap();
    assert_eq!(bytes.len(), quarry::registry::Registry::byte_length(3));
    assert_eq!(&bytes[33..37], &[3, 0, 0, 0]);
}
