//! The registry: the token staked in each pool of an allocator, by the
//! pool's index.
use vstd::prelude::*;
use crate::codec::le_bytes;
use crate::error::ErrorCode;
use crate::key::{key_eq, Pubkey};
use crate::state::Quarry;

verus! {

/// The tokens of an allocator's pools.
#[derive(Debug)]
pub struct Registry {
    /// Bump seed of the record's address.
    pub bump: u8,
    /// The allocator.
    pub rewarder: Pubkey,
    /// The staked token of each pool, by index; zero where none is known.
    pub tokens: Vec<Pubkey>,
}

/// The bytes of a list of addresses.
pub open spec fn keys_bytes(keys: Seq<Pubkey>) -> Seq<u8>
    decreases keys.len(),
{
    if keys.len() == 0 {
        Seq::empty()
    } else {
        keys_bytes(keys.drop_last()) + keys.last().bytes@
    }
}

proof fn lemma_keys_bytes_len(keys: Seq<Pubkey>)
    ensures
        keys_bytes(keys).len() == 32 * keys.len(),
    decreases keys.len(),
{
    if keys.len() > 0 {
        lemma_keys_bytes_len(keys.drop_last());
    }
}

impl Registry {
    /// Serialized size of a registry with room for `max_quarries` pools.
    pub fn byte_length(max_quarries: u16) -> (r: usize)
        ensures
            r == 1 + 32 + 4 + 32 * max_quarries,
    {
        1 + 32 + 4 + 32 * (max_quarries as usize)
    }

    /// The record's bytes: the bump, the allocator, the number of tokens
    /// in four bytes, then the tokens.
    pub open spec fn spec_bytes(&self) -> Seq<u8> {
        le_bytes(self.bump as nat, 1) + self.rewarder.bytes@ + le_bytes(self.tokens@.len(), 4)
            + keys_bytes(self.tokens@)
    }

    /// Serializes the record; `None` where the list is too long for its
    /// four-byte length.
    pub fn to_bytes(&self) -> (r: Option<Vec<u8>>)
        ensures
            self.tokens@.len() > u32::MAX ==> r is None,
            self.tokens@.len() <= u32::MAX ==> (r matches Some(v) && v@ == self.spec_bytes()
                && v@.len() == 1 + 32 + 4 + 32 * self.tokens@.len()),
    {
        let n = self.tokens.len();
        if n > 0xFFFF_FFFF {
            return None;
        }
        let mut v: Vec<u8> = Vec::new();
        crate::codec::push_le(&mut v, self.bump as u128, 1);
        crate::codec::push_key(&mut v, &self.rewarder);
        crate::codec::push_le(&mut v, n as u128, 4);
        let ghost head = v@;
        let mut i: usize = 0;
        while i < n
            invariant
                i <= n,
                n == self.tokens@.len(),
                v@ == head + keys_bytes(self.tokens@.subrange(0, i as int)),
            decreases n - i,
        {
            crate::codec::push_key(&mut v, &self.tokens[i]);
            proof {
                let s = self.tokens@.subrange(0, i + 1);
                assert(s.drop_last() =~= self.tokens@.subrange(0, i as int));
                assert(v@ =~= head + keys_bytes(s));
            }
            i = i + 1;
        }
        assert(self.tokens@.subrange(0, n as int) =~= self.tokens@);
        proof {
            crate::codec::lemma_le_bytes_len(self.bump as nat, 1);
            crate::codec::lemma_le_bytes_len(n as nat, 4);
            lemma_keys_bytes_len(self.tokens@);
        }
        Some(v)
    }
}

/// Creates a registry for an allocator with room for `max_quarries` pools,
/// none of them known yet.
pub fn new_registry(rewarder: Pubkey, max_quarries: u16, bump: u8) -> (r: Registry)
    ensures
        r.bump == bump && r.rewarder == rewarder,
        r.tokens@.len() == max_quarries,
        forall|i: int| 0 <= i < r.tokens@.len() ==> r.tokens@[i].is_zeroed(),
{
    let mut tokens: Vec<Pubkey> = Vec::new();
    let mut i: u16 = 0;
    while i < max_quarries
        invariant
            i <= max_quarries,
            tokens@.len() == i,
            forall|j: int| 0 <= j < tokens@.len() ==> tokens@[j].is_zeroed(),
        decreases max_quarries - i,
    {
        tokens.push(Pubkey::zeroed());
        i = i + 1;
    }
    Registry { bump, rewarder, tokens }
}

/// Records a pool's token at its index. Fails where the pool belongs to
/// another allocator or its index lies beyond the registry; on an error
/// nothing changes.
pub fn sync_quarry(registry: &mut Registry, quarry: &Quarry) -> (r: Result<(), ErrorCode>)
    ensures
        !key_eq(quarry.rewarder, old(registry).rewarder) ==> r == Err::<(), _>(ErrorCode::InvalidLinkage),
        key_eq(quarry.rewarder, old(registry).rewarder) && quarry.index >= old(registry).tokens@.len()
            ==> r == Err::<(), _>(ErrorCode::InvariantFailed),
        key_eq(quarry.rewarder, old(registry).rewarder) && (quarry.index as int) < old(registry).tokens@.len() ==> r is Ok,
        r is Err ==> final(registry).tokens@ == old(registry).tokens@,
        r is Ok ==> final(registry).tokens@ == old(registry).tokens@.update(quarry.index as int, quarry.token_mint_key),
        final(registry).bump == old(registry).bump && final(registry).rewarder == old(registry).rewarder,
{
    if quarry.rewarder != registry.rewarder {
        return Err(ErrorCode::InvalidLinkage);
    }
    let index = quarry.index as usize;
    if index >= registry.tokens.len() {
        return Err(ErrorCode::InvariantFailed);
    }
    registry.tokens.set(index, quarry.token_mint_key);
    Ok(())
}

} // verus!
