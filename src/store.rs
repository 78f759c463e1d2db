//! The record store: each kind of record lives in its own table, so slots of
//! different kinds never collide, and each table maps an identity key to at
//! most one record.
use vstd::prelude::*;
use crate::state::{CrossChainReceipt, CrossChainTransfer, NftMetadata, Pubkey, TokenAccount};

verus! {

/// A record with an identity key.
pub trait Keyed {
    type Key;

    spec fn key(&self) -> Self::Key;
}

impl Keyed for NftMetadata {
    type Key = Pubkey;

    open spec fn key(&self) -> Pubkey {
        self.mint
    }
}

impl Keyed for TokenAccount {
    type Key = Pubkey;

    open spec fn key(&self) -> Pubkey {
        self.mint
    }
}

impl Keyed for CrossChainTransfer {
    type Key = (Pubkey, u64);

    open spec fn key(&self) -> (Pubkey, u64) {
        (self.mint, self.nonce)
    }
}

impl Keyed for CrossChainReceipt {
    type Key = (Seq<u8>, u64);

    open spec fn key(&self) -> (Seq<u8>, u64) {
        (self.origin_tx_hash@, self.nonce)
    }
}

/// The table as a map from key to record; a later entry wins over an earlier one.
pub open spec fn keyed<T: Keyed>(s: Seq<T>) -> Map<T::Key, T>
    decreases s.len(),
{
    if s.len() == 0 {
        Map::empty()
    } else {
        keyed(s.drop_last()).insert(s.last().key(), s.last())
    }
}

/// No two entries of the table share a key.
pub open spec fn unique_keys<T: Keyed>(s: Seq<T>) -> bool {
    forall|i: int, j: int|
        #![trigger s[i], s[j]]
        0 <= i < s.len() && 0 <= j < s.len() && s[i].key() == s[j].key() ==> i == j
}

pub proof fn lemma_keyed_push<T: Keyed>(s: Seq<T>, x: T)
    ensures
        keyed(s.push(x)) == keyed(s).insert(x.key(), x),
{
    assert(s.push(x).drop_last() =~= s);
}

pub proof fn lemma_keyed_contains<T: Keyed>(s: Seq<T>, k: T::Key)
    ensures
        keyed(s).contains_key(k) <==> exists|i: int| 0 <= i < s.len() && #[trigger] s[i].key() == k,
    decreases s.len(),
{
    if s.len() > 0 {
        lemma_keyed_contains(s.drop_last(), k);
        if keyed(s).contains_key(k) && s.last().key() != k {
            let i = choose|i: int| 0 <= i < s.drop_last().len() && #[trigger] s.drop_last()[i].key() == k;
            assert(s[i].key() == k);
        }
        if exists|i: int| 0 <= i < s.len() && #[trigger] s[i].key() == k {
            let i = choose|i: int| 0 <= i < s.len() && #[trigger] s[i].key() == k;
            if i < s.len() - 1 {
                assert(s.drop_last()[i].key() == k);
            }
        }
    }
}

pub proof fn lemma_keyed_value<T: Keyed>(s: Seq<T>, i: int)
    requires
        unique_keys(s),
        0 <= i < s.len(),
    ensures
        keyed(s).contains_key(s[i].key()),
        keyed(s)[s[i].key()] == s[i],
    decreases s.len(),
{
    if i < s.len() - 1 {
        let t = s.drop_last();
        assert(t[i] == s[i]);
        assert(unique_keys(t)) by {
            assert forall|a: int, b: int|
                0 <= a < t.len() && 0 <= b < t.len() && #[trigger] t[a].key() == #[trigger] t[b].key()
                implies a == b by {
                assert(s[a] == t[a] && s[b] == t[b]);
            }
        }
        lemma_keyed_value(t, i);
        assert(s[s.len() - 1] == s.last());
    }
}

pub proof fn lemma_unique_push<T: Keyed>(s: Seq<T>, x: T)
    requires
        unique_keys(s),
        !keyed(s).contains_key(x.key()),
    ensures
        unique_keys(s.push(x)),
{
    lemma_keyed_contains(s, x.key());
    let t = s.push(x);
    assert forall|a: int, b: int|
        0 <= a < t.len() && 0 <= b < t.len() && #[trigger] t[a].key() == #[trigger] t[b].key()
        implies a == b by {
        if a < s.len() {
            assert(t[a] == s[a]);
        }
        if b < s.len() {
            assert(t[b] == s[b]);
        }
    }
}

pub proof fn lemma_keyed_update<T: Keyed>(s: Seq<T>, i: int, x: T)
    requires
        unique_keys(s),
        0 <= i < s.len(),
        x.key() == s[i].key(),
    ensures
        keyed(s.update(i, x)) == keyed(s).insert(x.key(), x),
        unique_keys(s.update(i, x)),
    decreases s.len(),
{
    let u = s.update(i, x);
    let t = s.drop_last();
    assert(unique_keys(t)) by {
        assert forall|a: int, b: int|
            0 <= a < t.len() && 0 <= b < t.len() && #[trigger] t[a].key() == #[trigger] t[b].key()
            implies a == b by {
            assert(s[a] == t[a] && s[b] == t[b]);
        }
    }
    if i == s.len() - 1 {
        assert(u.drop_last() =~= t);
        assert(keyed(u) =~= keyed(s).insert(x.key(), x));
    } else {
        assert(u.drop_last() =~= t.update(i, x));
        assert(t[i] == s[i]);
        lemma_keyed_update(t, i, x);
        assert(s[s.len() - 1] == s.last());
        assert(s.last().key() != x.key());
        assert(keyed(u) =~= keyed(s).insert(x.key(), x));
    }
    assert forall|a: int, b: int|
        0 <= a < u.len() && 0 <= b < u.len() && #[trigger] u[a].key() == #[trigger] u[b].key()
        implies a == b by {
        assert(s[a].key() == u[a].key() && s[b].key() == u[b].key());
    }
}

/// Whether two byte strings are equal.
pub fn same_bytes(a: &Vec<u8>, b: &Vec<u8>) -> (r: bool)
    ensures
        r == (a@ == b@),
{
    if a.len() != b.len() {
        return false;
    }
    let mut i: usize = 0;
    while i < a.len()
        invariant
            0 <= i <= a@.len(),
            a@.len() == b@.len(),
            forall|j: int| 0 <= j < i ==> a@[j] == b@[j],
        decreases a@.len() - i,
    {
        if a[i] != b[i] {
            return false;
        }
        i = i + 1;
    }
    proof {
        assert(a@ =~= b@);
    }
    true
}

/// Position of the asset record of `mint`, if the table holds one.
pub fn find_asset(v: &Vec<NftMetadata>, mint: &Pubkey) -> (r: Option<usize>)
    requires
        unique_keys(v@),
    ensures
        match r {
            Some(i) => i < v@.len() && v@[i as int].mint == *mint && keyed(v@).contains_key(*mint)
                && keyed(v@)[*mint] == v@[i as int],
            None => !keyed(v@).contains_key(*mint),
        },
{
    let mut i: usize = 0;
    while i < v.len()
        invariant
            0 <= i <= v@.len(),
            unique_keys(v@),
            forall|j: int| 0 <= j < i ==> (#[trigger] v@[j]).key() != *mint,
        decreases v@.len() - i,
    {
        if v[i].mint.same(mint) {
            proof {
                lemma_keyed_value(v@, i as int);
            }
            return Some(i);
        }
        i = i + 1;
    }
    proof {
        lemma_keyed_contains(v@, *mint);
    }
    None
}

/// Position of the token holding of `mint`, if the table holds one.
pub fn find_token_account(v: &Vec<TokenAccount>, mint: &Pubkey) -> (r: Option<usize>)
    requires
        unique_keys(v@),
    ensures
        match r {
            Some(i) => i < v@.len() && v@[i as int].mint == *mint && keyed(v@).contains_key(*mint)
                && keyed(v@)[*mint] == v@[i as int],
            None => !keyed(v@).contains_key(*mint),
        },
{
    let mut i: usize = 0;
    while i < v.len()
        invariant
            0 <= i <= v@.len(),
            unique_keys(v@),
            forall|j: int| 0 <= j < i ==> (#[trigger] v@[j]).key() != *mint,
        decreases v@.len() - i,
    {
        if v[i].mint.same(mint) {
            proof {
                lemma_keyed_value(v@, i as int);
            }
            return Some(i);
        }
        i = i + 1;
    }
    proof {
        lemma_keyed_contains(v@, *mint);
    }
    None
}

/// Position of the outbound transfer record under `(mint, nonce)`, if any.
pub fn find_transfer(v: &Vec<CrossChainTransfer>, mint: &Pubkey, nonce: u64) -> (r: Option<usize>)
    requires
        unique_keys(v@),
    ensures
        match r {
            Some(i) => i < v@.len() && keyed(v@).contains_key((*mint, nonce))
                && keyed(v@)[(*mint, nonce)] == v@[i as int],
            None => !keyed(v@).contains_key((*mint, nonce)),
        },
{
    let mut i: usize = 0;
    while i < v.len()
        invariant
            0 <= i <= v@.len(),
            unique_keys(v@),
            forall|j: int| 0 <= j < i ==> (#[trigger] v@[j]).key() != (*mint, nonce),
        decreases v@.len() - i,
    {
        if v[i].nonce == nonce && v[i].mint.same(mint) {
            proof {
                lemma_keyed_value(v@, i as int);
            }
            return Some(i);
        }
        i = i + 1;
    }
    proof {
        lemma_keyed_contains(v@, (*mint, nonce));
    }
    None
}

/// Position of the inbound receipt under `(origin_tx_hash, nonce)`, if any.
pub fn find_receipt(v: &Vec<CrossChainReceipt>, origin_tx_hash: &Vec<u8>, nonce: u64) -> (r: Option<
    usize,
>)
    requires
        unique_keys(v@),
    ensures
        match r {
            Some(i) => i < v@.len() && keyed(v@).contains_key((origin_tx_hash@, nonce))
                && keyed(v@)[(origin_tx_hash@, nonce)] == v@[i as int],
            None => !keyed(v@).contains_key((origin_tx_hash@, nonce)),
        },
{
    let mut i: usize = 0;
    while i < v.len()
        invariant
            0 <= i <= v@.len(),
            unique_keys(v@),
            forall|j: int| 0 <= j < i ==> (#[trigger] v@[j]).key() != (origin_tx_hash@, nonce),
        decreases v@.len() - i,
    {
        if v[i].nonce == nonce && same_bytes(&v[i].origin_tx_hash, origin_tx_hash) {
            proof {
                lemma_keyed_value(v@, i as int);
            }
            return Some(i);
        }
        i = i + 1;
    }
    proof {
        lemma_keyed_contains(v@, (origin_tx_hash@, nonce));
    }
    None
}

} // verus!
