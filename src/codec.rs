//! Byte layout of the records: each field in declaration order, integers
//! little-endian, signed ones in two's complement, flags as one byte.
use vstd::prelude::*;
use crate::key::Pubkey;
use crate::merge_mine::{MergeMiner, MergePool};
use crate::mint_wrapper::{MintWrapper, Minter};
use crate::operator::Operator;
use crate::redeemer::Redeemer;
use crate::state::{Miner, Quarry, Rewarder};

verus! {

/// The `n` low bytes of `x`, least significant first.
pub open spec fn le_bytes(x: nat, n: nat) -> Seq<u8>
    decreases n,
{
    if n == 0 {
        Seq::empty()
    } else {
        seq![(x % 256) as u8] + le_bytes(x / 256, (n - 1) as nat)
    }
}

/// The two's complement bits of a 64-bit signed value.
pub open spec fn signed_bits(x: int) -> nat {
    if x >= 0 { x as nat } else { (x + 0x1_0000_0000_0000_0000int) as nat }
}

/// The bytes of a list of 64-bit words.
pub open spec fn words_bytes(w: Seq<u64>) -> Seq<u8>
    decreases w.len(),
{
    if w.len() == 0 {
        Seq::empty()
    } else {
        words_bytes(w.drop_last()) + le_bytes(w.last() as nat, 8)
    }
}

pub(crate) proof fn lemma_le_bytes_len(x: nat, n: nat)
    ensures
        le_bytes(x, n).len() == n,
    decreases n,
{
    if n > 0 {
        lemma_le_bytes_len(x / 256, (n - 1) as nat);
    }
}

proof fn lemma_words_bytes_len(w: Seq<u64>)
    ensures
        words_bytes(w).len() == 8 * w.len(),
    decreases w.len(),
{
    if w.len() > 0 {
        lemma_words_bytes_len(w.drop_last());
        lemma_le_bytes_len(w.last() as nat, 8);
    }
}

/// Appends the `n` low bytes of `x`, least significant first.
pub(crate) fn push_le(v: &mut Vec<u8>, x: u128, n: usize)
    ensures
        final(v)@ == old(v)@ + le_bytes(x as nat, n as nat),
{
    let mut cur: u128 = x;
    let mut i: usize = 0;
    while i < n
        invariant
            i <= n,
            v@ + le_bytes(cur as nat, (n - i) as nat) == old(v)@ + le_bytes(x as nat, n as nat),
        decreases n - i,
    {
        let ghost before = v@;
        v.push((cur % 256) as u8);
        proof {
            let rest = le_bytes((cur / 256) as nat, (n - i - 1) as nat);
            assert(le_bytes(cur as nat, (n - i) as nat) == seq![(cur % 256) as u8] + rest);
            assert(v@ + rest =~= before + (seq![(cur % 256) as u8] + rest));
        }
        cur = cur / 256;
        i = i + 1;
    }
    assert(v@ + le_bytes(cur as nat, 0) =~= v@);
}

/// Appends the 32 bytes of an address.
pub(crate) fn push_key(v: &mut Vec<u8>, k: &Pubkey)
    ensures
        final(v)@ == old(v)@ + k.bytes@,
{
    let mut i: usize = 0;
    while i < 32
        invariant
            i <= 32,
            v@ == old(v)@ + k.bytes@.subrange(0, i as int),
        decreases 32 - i,
    {
        v.push(k.bytes[i]);
        assert(k.bytes@.subrange(0, i + 1) =~= k.bytes@.subrange(0, i as int).push(k.bytes@[i as int]));
        i = i + 1;
    }
    assert(k.bytes@.subrange(0, 32) =~= k.bytes@);
}

/// Appends sixteen 64-bit words.
fn push_words(v: &mut Vec<u8>, w: &[u64; 16])
    ensures
        final(v)@ == old(v)@ + words_bytes(w@),
{
    let mut i: usize = 0;
    while i < 16
        invariant
            i <= 16,
            v@ == old(v)@ + words_bytes(w@.subrange(0, i as int)),
        decreases 16 - i,
    {
        let ghost before = v@;
        push_le(v, w[i] as u128, 8);
        proof {
            let s = w@.subrange(0, i + 1);
            assert(s.drop_last() =~= w@.subrange(0, i as int));
            assert(s.last() == w@[i as int]);
            assert(v@ =~= old(v)@ + words_bytes(s));
        }
        i = i + 1;
    }
    assert(w@.subrange(0, 16) =~= w@);
}

/// The two's complement bits of a 64-bit signed value.
fn i64_bits(x: i64) -> (r: u64)
    ensures
        r as nat == signed_bits(x as int),
{
    if x >= 0 {
        x as u64
    } else {
        (x as i128 + 0x1_0000_0000_0000_0000i128) as u64
    }
}

impl Rewarder {
    /// The record's bytes.
    pub open spec fn spec_bytes(&self) -> Seq<u8> {
        self.base.bytes@ + le_bytes(self.bump as nat, 1) + self.authority.bytes@ + self.pending_authority.bytes@ + le_bytes(self.num_quarries as nat, 2) + le_bytes(self.annual_rewards_rate as nat, 8) + le_bytes(self.total_rewards_shares as nat, 8) + self.mint_wrapper.bytes@ + self.rewards_token_mint.bytes@ + self.claim_fee_token_account.bytes@ + le_bytes(self.max_claim_fee_millibps as nat, 8) + self.pause_authority.bytes@ + le_bytes(if self.is_paused { 1nat } else { 0nat }, 1)
    }

    /// Serializes the record.
    pub fn to_bytes(&self) -> (r: Vec<u8>)
        ensures
            r@ == self.spec_bytes(),
            r@.len() == Self::LEN,
    {
        let mut v: Vec<u8> = Vec::new();
        push_key(&mut v, &self.base);
        push_le(&mut v, self.bump as u128, 1);
        push_key(&mut v, &self.authority);
        push_key(&mut v, &self.pending_authority);
        push_le(&mut v, self.num_quarries as u128, 2);
        push_le(&mut v, self.annual_rewards_rate as u128, 8);
        push_le(&mut v, self.total_rewards_shares as u128, 8);
        push_key(&mut v, &self.mint_wrapper);
        push_key(&mut v, &self.rewards_token_mint);
        push_key(&mut v, &self.claim_fee_token_account);
        push_le(&mut v, self.max_claim_fee_millibps as u128, 8);
        push_key(&mut v, &self.pause_authority);
        push_le(&mut v, if self.is_paused { 1u128 } else { 0u128 }, 1);
        proof {
            lemma_le_bytes_len(self.bump as nat, 1);
            lemma_le_bytes_len(self.num_quarries as nat, 2);
            lemma_le_bytes_len(self.annual_rewards_rate as nat, 8);
            lemma_le_bytes_len(self.total_rewards_shares as nat, 8);
            lemma_le_bytes_len(self.max_claim_fee_millibps as nat, 8);
            lemma_le_bytes_len(if self.is_paused { 1nat } else { 0nat }, 1);
        }
        v
    }
}

impl Quarry {
    /// The record's bytes.
    pub open spec fn spec_bytes(&self) -> Seq<u8> {
        self.rewarder.bytes@ + self.token_mint_key.bytes@ + le_bytes(self.bump as nat, 1) + le_bytes(self.index as nat, 2) + le_bytes(self.token_mint_decimals as nat, 1) + le_bytes(signed_bits(self.famine_ts as int), 8) + le_bytes(signed_bits(self.last_update_ts as int), 8) + le_bytes(self.rewards_per_token_stored as nat, 16) + le_bytes(self.annual_rewards_rate as nat, 8) + le_bytes(self.rewards_share as nat, 8) + le_bytes(self.total_tokens_deposited as nat, 8) + le_bytes(self.num_miners as nat, 8)
    }

    /// Serializes the record.
    pub fn to_bytes(&self) -> (r: Vec<u8>)
        ensures
            r@ == self.spec_bytes(),
            r@.len() == Self::LEN,
    {
        let mut v: Vec<u8> = Vec::new();
        push_key(&mut v, &self.rewarder);
        push_key(&mut v, &self.token_mint_key);
        push_le(&mut v, self.bump as u128, 1);
        push_le(&mut v, self.index as u128, 2);
        push_le(&mut v, self.token_mint_decimals as u128, 1);
        push_le(&mut v, i64_bits(self.famine_ts) as u128, 8);
        push_le(&mut v, i64_bits(self.last_update_ts) as u128, 8);
        push_le(&mut v, self.rewards_per_token_stored as u128, 16);
        push_le(&mut v, self.annual_rewards_rate as u128, 8);
        push_le(&mut v, self.rewards_share as u128, 8);
        push_le(&mut v, self.total_tokens_deposited as u128, 8);
        push_le(&mut v, self.num_miners as u128, 8);
        proof {
            lemma_le_bytes_len(self.bump as nat, 1);
            lemma_le_bytes_len(self.index as nat, 2);
            lemma_le_bytes_len(self.token_mint_decimals as nat, 1);
            lemma_le_bytes_len(signed_bits(self.famine_ts as int), 8);
            lemma_le_bytes_len(signed_bits(self.last_update_ts as int), 8);
            lemma_le_bytes_len(self.rewards_per_token_stored as nat, 16);
            lemma_le_bytes_len(self.annual_rewards_rate as nat, 8);
            lemma_le_bytes_len(self.rewards_share as nat, 8);
            lemma_le_bytes_len(self.total_tokens_deposited as nat, 8);
            lemma_le_bytes_len(self.num_miners as nat, 8);
        }
        v
    }
}

impl Miner {
    /// The record's bytes.
    pub open spec fn spec_bytes(&self) -> Seq<u8> {
        self.quarry.bytes@ + self.authority.bytes@ + le_bytes(self.bump as nat, 1) + self.token_vault_key.bytes@ + le_bytes(self.rewards_earned as nat, 8) + le_bytes(self.rewards_per_token_paid as nat, 16) + le_bytes(self.balance as nat, 8) + le_bytes(self.index as nat, 8)
    }

    /// Serializes the record.
    pub fn to_bytes(&self) -> (r: Vec<u8>)
        ensures
            r@ == self.spec_bytes(),
            r@.len() == Self::LEN,
    {
        let mut v: Vec<u8> = Vec::new();
        push_key(&mut v, &self.quarry);
        push_key(&mut v, &self.authority);
        push_le(&mut v, self.bump as u128, 1);
        push_key(&mut v, &self.token_vault_key);
        push_le(&mut v, self.rewards_earned as u128, 8);
        push_le(&mut v, self.rewards_per_token_paid as u128, 16);
        push_le(&mut v, self.balance as u128, 8);
        push_le(&mut v, self.index as u128, 8);
        proof {
            lemma_le_bytes_len(self.bump as nat, 1);
            lemma_le_bytes_len(self.rewards_earned as nat, 8);
            lemma_le_bytes_len(self.rewards_per_token_paid as nat, 16);
            lemma_le_bytes_len(self.balance as nat, 8);
            lemma_le_bytes_len(self.index as nat, 8);
        }
        v
    }
}

impl MintWrapper {
    /// The record's bytes.
    pub open spec fn spec_bytes(&self) -> Seq<u8> {
        self.base.bytes@ + le_bytes(self.bump as nat, 1) + le_bytes(self.hard_cap as nat, 8) + self.admin.bytes@ + self.pending_admin.bytes@ + self.token_mint.bytes@ + le_bytes(self.num_minters as nat, 8) + le_bytes(self.total_allowance as nat, 8) + le_bytes(self.total_minted as nat, 8)
    }

    /// Serializes the record.
    pub fn to_bytes(&self) -> (r: Vec<u8>)
        ensures
            r@ == self.spec_bytes(),
            r@.len() == Self::LEN,
    {
        let mut v: Vec<u8> = Vec::new();
        push_key(&mut v, &self.base);
        push_le(&mut v, self.bump as u128, 1);
        push_le(&mut v, self.hard_cap as u128, 8);
        push_key(&mut v, &self.admin);
        push_key(&mut v, &self.pending_admin);
        push_key(&mut v, &self.token_mint);
        push_le(&mut v, self.num_minters as u128, 8);
        push_le(&mut v, self.total_allowance as u128, 8);
        push_le(&mut v, self.total_minted as u128, 8);
        proof {
            lemma_le_bytes_len(self.bump as nat, 1);
            lemma_le_bytes_len(self.hard_cap as nat, 8);
            lemma_le_bytes_len(self.num_minters as nat, 8);
            lemma_le_bytes_len(self.total_allowance as nat, 8);
            lemma_le_bytes_len(self.total_minted as nat, 8);
        }
        v
    }
}

impl Minter {
    /// The record's bytes.
    pub open spec fn spec_bytes(&self) -> Seq<u8> {
        self.mint_wrapper.bytes@ + self.minter_authority.bytes@ + le_bytes(self.bump as nat, 1) + le_bytes(self.index as nat, 8) + le_bytes(self.allowance as nat, 8) + le_bytes(self.total_minted as nat, 8)
    }

    /// Serializes the record.
    pub fn to_bytes(&self) -> (r: Vec<u8>)
        ensures
            r@ == self.spec_bytes(),
            r@.len() == Self::LEN,
    {
        let mut v: Vec<u8> = Vec::new();
        push_key(&mut v, &self.mint_wrapper);
        push_key(&mut v, &self.minter_authority);
        push_le(&mut v, self.bump as u128, 1);
        push_le(&mut v, self.index as u128, 8);
        push_le(&mut v, self.allowance as u128, 8);
        push_le(&mut v, self.total_minted as u128, 8);
        proof {
            lemma_le_bytes_len(self.bump as nat, 1);
            lemma_le_bytes_len(self.index as nat, 8);
            lemma_le_bytes_len(self.allowance as nat, 8);
            lemma_le_bytes_len(self.total_minted as nat, 8);
        }
        v
    }
}

impl Redeemer {
    /// The record's bytes.
    pub open spec fn spec_bytes(&self) -> Seq<u8> {
        self.iou_mint.bytes@ + self.redemption_mint.bytes@ + le_bytes(self.bump as nat, 1) + le_bytes(self.total_tokens_redeemed as nat, 8)
    }

    /// Serializes the record.
    pub fn to_bytes(&self) -> (r: Vec<u8>)
        ensures
            r@ == self.spec_bytes(),
            r@.len() == Self::LEN,
    {
        let mut v: Vec<u8> = Vec::new();
        push_key(&mut v, &self.iou_mint);
        push_key(&mut v, &self.redemption_mint);
        push_le(&mut v, self.bump as u128, 1);
        push_le(&mut v, self.total_tokens_redeemed as u128, 8);
        proof {
            lemma_le_bytes_len(self.bump as nat, 1);
            lemma_le_bytes_len(self.total_tokens_redeemed as nat, 8);
        }
        v
    }
}

impl MergePool {
    /// The record's bytes.
    pub open spec fn spec_bytes(&self) -> Seq<u8> {
        self.primary_mint.bytes@ + le_bytes(self.bump as nat, 1) + self.replica_mint.bytes@ + le_bytes(self.mm_count as nat, 8) + le_bytes(self.total_primary_balance as nat, 8) + le_bytes(self.total_replica_balance as nat, 8) + words_bytes(self.reserved@)
    }

    /// Serializes the record.
    pub fn to_bytes(&self) -> (r: Vec<u8>)
        ensures
            r@ == self.spec_bytes(),
            r@.len() == Self::LEN,
    {
        let mut v: Vec<u8> = Vec::new();
        push_key(&mut v, &self.primary_mint);
        push_le(&mut v, self.bump as u128, 1);
        push_key(&mut v, &self.replica_mint);
        push_le(&mut v, self.mm_count as u128, 8);
        push_le(&mut v, self.total_primary_balance as u128, 8);
        push_le(&mut v, self.total_replica_balance as u128, 8);
        push_words(&mut v, &self.reserved);
        proof {
            lemma_le_bytes_len(self.bump as nat, 1);
            lemma_le_bytes_len(self.mm_count as nat, 8);
            lemma_le_bytes_len(self.total_primary_balance as nat, 8);
            lemma_le_bytes_len(self.total_replica_balance as nat, 8);
            lemma_words_bytes_len(self.reserved@);
        }
        v
    }
}

impl MergeMiner {
    /// The record's bytes.
    pub open spec fn spec_bytes(&self) -> Seq<u8> {
        self.pool.bytes@ + self.owner.bytes@ + le_bytes(self.bump as nat, 1) + le_bytes(self.index as nat, 8) + le_bytes(self.primary_balance as nat, 8) + le_bytes(self.replica_balance as nat, 8)
    }

    /// Serializes the record.
    pub fn to_bytes(&self) -> (r: Vec<u8>)
        ensures
            r@ == self.spec_bytes(),
            r@.len() == Self::LEN,
    {
        let mut v: Vec<u8> = Vec::new();
        push_key(&mut v, &self.pool);
        push_key(&mut v, &self.owner);
        push_le(&mut v, self.bump as u128, 1);
        push_le(&mut v, self.index as u128, 8);
        push_le(&mut v, self.primary_balance as u128, 8);
        push_le(&mut v, self.replica_balance as u128, 8);
        proof {
            lemma_le_bytes_len(self.bump as nat, 1);
            lemma_le_bytes_len(self.index as nat, 8);
            lemma_le_bytes_len(self.primary_balance as nat, 8);
            lemma_le_bytes_len(self.replica_balance as nat, 8);
        }
        v
    }
}

impl Operator {
    /// The record's bytes.
    pub open spec fn spec_bytes(&self) -> Seq<u8> {
        self.base.bytes@ + le_bytes(self.bump as nat, 1) + self.rewarder.bytes@ + self.admin.bytes@ + self.rate_setter.bytes@ + self.quarry_creator.bytes@ + self.share_allocator.bytes@ + le_bytes(signed_bits(self.last_modified_ts as int), 8) + le_bytes(self.generation as nat, 8)
    }

    /// Serializes the record.
    pub fn to_bytes(&self) -> (r: Vec<u8>)
        ensures
            r@ == self.spec_bytes(),
            r@.len() == Self::LEN,
    {
        let mut v: Vec<u8> = Vec::new();
        push_key(&mut v, &self.base);
        push_le(&mut v, self.bump as u128, 1);
        push_key(&mut v, &self.rewarder);
        push_key(&mut v, &self.admin);
        push_key(&mut v, &self.rate_setter);
        push_key(&mut v, &self.quarry_creator);
        push_key(&mut v, &self.share_allocator);
        push_le(&mut v, i64_bits(self.last_modified_ts) as u128, 8);
        push_le(&mut v, self.generation as u128, 8);
        proof {
            lemma_le_bytes_len(self.bump as nat, 1);
            lemma_le_bytes_len(signed_bits(self.last_modified_ts as int), 8);
            lemma_le_bytes_len(self.generation as nat, 8);
        }
        v
    }
}

} // verus!
