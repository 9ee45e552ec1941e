//! The signatures collected on a transaction: at most one for each public key.

use vstd::prelude::*;
use crate::key::{key_views, PublicKey};

verus! {

/// The signature that one key gave.
#[derive(Debug)]
pub struct SignaturePair {
    pub public_key: PublicKey,
    pub signature: Vec<u8>,
}

/// The signatures of `pairs` by the key that gave them; a later pair replaces
/// an earlier one of the same key.
pub open spec fn signature_map(pairs: Seq<SignaturePair>) -> Map<Seq<u8>, Seq<u8>>
    decreases pairs.len(),
{
    if pairs.len() == 0 {
        Map::empty()
    } else {
        signature_map(pairs.drop_last()).insert(pairs.last().public_key@, pairs.last().signature@)
    }
}

/// Whether no key occurs twice in `pairs`.
pub open spec fn distinct_keys(pairs: Seq<SignaturePair>) -> bool {
    forall|i: int, j: int|
        0 <= i < j < pairs.len() ==> (#[trigger] pairs[i]).public_key@ != (
        #[trigger] pairs[j]).public_key@
}

/// A key has a signature in the map exactly when a pair holds it.
pub proof fn lemma_signers(pairs: Seq<SignaturePair>, key: Seq<u8>)
    ensures
        signature_map(pairs).dom().contains(key) <==> exists|i: int|
            0 <= i < pairs.len() && (#[trigger] pairs[i]).public_key@ == key,
    decreases pairs.len(),
{
    if pairs.len() > 0 {
        let rest = pairs.drop_last();
        lemma_signers(rest, key);
        if signature_map(pairs).dom().contains(key) {
            if pairs.last().public_key@ == key {
                assert(pairs[pairs.len() - 1].public_key@ == key);
            } else {
                let i = choose|i: int| 0 <= i < rest.len() && (#[trigger] rest[i]).public_key@ == key;
                assert(pairs[i].public_key@ == key);
            }
        }
        if exists|i: int| 0 <= i < pairs.len() && (#[trigger] pairs[i]).public_key@ == key {
            let i = choose|i: int| 0 <= i < pairs.len() && (#[trigger] pairs[i]).public_key@ == key;
            if i < pairs.len() - 1 {
                assert(rest[i].public_key@ == key);
            }
        }
    }
}

/// Where no key occurs twice, there are as many signatures as pairs.
pub proof fn lemma_signature_count(pairs: Seq<SignaturePair>)
    requires
        distinct_keys(pairs),
    ensures
        signature_map(pairs).dom().finite(),
        signature_map(pairs).dom().len() == pairs.len(),
    decreases pairs.len(),
{
    if pairs.len() > 0 {
        let rest = pairs.drop_last();
        assert(distinct_keys(rest)) by {
            assert forall|i: int, j: int| 0 <= i < j < rest.len() implies (#[trigger] rest[i]).public_key@
                != (#[trigger] rest[j]).public_key@ by {
                assert(pairs[i].public_key@ != pairs[j].public_key@);
            }
        }
        lemma_signature_count(rest);
        lemma_signers(rest, pairs.last().public_key@);
        if signature_map(rest).dom().contains(pairs.last().public_key@) {
            let i = choose|i: int|
                0 <= i < rest.len() && (#[trigger] rest[i]).public_key@ == pairs.last().public_key@;
            assert(pairs[i].public_key@ != pairs[pairs.len() - 1].public_key@);
        }
    }
}

/// Replacing the pair of a key by another pair of the same key replaces that
/// key's signature in the map and touches no other.
pub proof fn lemma_replace_signature(pairs: Seq<SignaturePair>, i: int, pair: SignaturePair)
    requires
        distinct_keys(pairs),
        0 <= i < pairs.len(),
        pair.public_key@ == pairs[i].public_key@,
    ensures
        distinct_keys(pairs.update(i, pair)),
        signature_map(pairs.update(i, pair)) == signature_map(pairs).insert(
            pair.public_key@,
            pair.signature@,
        ),
    decreases pairs.len(),
{
    let updated = pairs.update(i, pair);
    assert(distinct_keys(updated)) by {
        assert forall|a: int, b: int| 0 <= a < b < updated.len() implies (
        #[trigger] updated[a]).public_key@ != (#[trigger] updated[b]).public_key@ by {
            assert(pairs[a].public_key@ != pairs[b].public_key@);
        }
    }
    let rest = pairs.drop_last();
    if i == pairs.len() - 1 {
        assert(updated.drop_last() =~= rest);
        assert(signature_map(updated) =~= signature_map(pairs).insert(
            pair.public_key@,
            pair.signature@,
        ));
    } else {
        assert(distinct_keys(rest)) by {
            assert forall|a: int, b: int| 0 <= a < b < rest.len() implies (#[trigger] rest[a]).public_key@
                != (#[trigger] rest[b]).public_key@ by {
                assert(pairs[a].public_key@ != pairs[b].public_key@);
            }
        }
        lemma_replace_signature(rest, i, pair);
        assert(updated.drop_last() =~= rest.update(i, pair));
        assert(updated.last() == pairs.last());
        assert(pairs[i].public_key@ != pairs[pairs.len() - 1].public_key@);
        assert(signature_map(updated) =~= signature_map(pairs).insert(
            pair.public_key@,
            pair.signature@,
        ));
    }
}

/// Signing twice with one key leaves the one signature that came last: the
/// set of signatures is as large as the set of keys that signed.
pub proof fn lemma_same_key_overwrites(
    signatures: Map<Seq<u8>, Seq<u8>>,
    key: Seq<u8>,
    first: Seq<u8>,
    second: Seq<u8>,
)
    requires
        signatures.dom().finite(),
    ensures
        signatures.insert(key, first).insert(key, second) == signatures.insert(key, second),
        signatures.insert(key, first).insert(key, second).dom() == signatures.dom().insert(key),
        signatures.insert(key, first).insert(key, second).dom().len() == signatures.insert(
            key,
            first,
        ).dom().len(),
{
    assert(signatures.insert(key, first).insert(key, second) =~= signatures.insert(key, second));
    assert(signatures.insert(key, second).dom() =~= signatures.dom().insert(key));
    assert(signatures.insert(key, first).dom() =~= signatures.dom().insert(key));
}

/// Records `signature` as the signature of `public_key`: in place of the one
/// that the key gave before, if it gave one, and as a new entry otherwise.
pub fn record_signature(pairs: &mut Vec<SignaturePair>, public_key: PublicKey, signature: Vec<u8>)
    requires
        distinct_keys(old(pairs)@),
    ensures
        distinct_keys(final(pairs)@),
        signature_map(final(pairs)@) == signature_map(old(pairs)@).insert(
            public_key@,
            signature@,
        ),
        final(pairs)@.len() == signature_map(final(pairs)@).dom().len(),
        final(pairs)@.len() == old(pairs)@.len() + if signature_map(old(pairs)@).dom().contains(
            public_key@,
        ) {
            0int
        } else {
            1int
        },
{
    let ghost before = pairs@;
    let mut i: usize = 0;
    while i < pairs.len()
        invariant
            pairs@ == before,
            before == old(pairs)@,
            distinct_keys(before),
            i <= pairs@.len(),
            forall|j: int| 0 <= j < i ==> (#[trigger] pairs@[j]).public_key@ != public_key@,
        decreases pairs.len() - i,
    {
        if pairs[i].public_key.same(&public_key) {
            let pair = SignaturePair { public_key, signature };
            proof {
                lemma_replace_signature(before, i as int, pair);
                lemma_signers(before, pair.public_key@);
                lemma_signature_count(before.update(i as int, pair));
            }
            pairs.set(i, pair);
            return ;
        }
        i += 1;
    }
    let pair = SignaturePair { public_key, signature };
    proof {
        lemma_signers(before, pair.public_key@);
        assert(before.push(pair).drop_last() =~= before);
        assert(distinct_keys(before.push(pair)));
        lemma_signature_count(before.push(pair));
    }
    pairs.push(pair);
}

/// Whether `public_key` has a signature among `pairs`.
pub fn has_signature(pairs: &Vec<SignaturePair>, public_key: &PublicKey) -> (found: bool)
    ensures
        found == signature_map(pairs@).dom().contains(public_key@),
{
    let mut i: usize = 0;
    while i < pairs.len()
        invariant
            i <= pairs@.len(),
            forall|j: int| 0 <= j < i ==> (#[trigger] pairs@[j]).public_key@ != public_key@,
        decreases pairs.len() - i,
    {
        if pairs[i].public_key.same(public_key) {
            proof {
                lemma_signers(pairs@, public_key@);
                assert(pairs@[i as int].public_key@ == public_key@);
            }
            return true;
        }
        i += 1;
    }
    proof {
        lemma_signers(pairs@, public_key@);
    }
    false
}

/// Whether every key of `required` has a signature in `signatures`.
pub open spec fn all_signed(signatures: Map<Seq<u8>, Seq<u8>>, required: Seq<Seq<u8>>) -> bool {
    forall|i: int| 0 <= i < required.len() ==> signatures.dom().contains(#[trigger] required[i])
}

/// Whether every key of `required` has a signature among `pairs`.
pub fn has_all_signatures(pairs: &Vec<SignaturePair>, required: &Vec<PublicKey>) -> (all: bool)
    ensures
        all == all_signed(signature_map(pairs@), key_views(required@)),
{
    let mut i: usize = 0;
    while i < required.len()
        invariant
            i <= required@.len(),
            forall|j: int|
                0 <= j < i ==> signature_map(pairs@).dom().contains(
                    #[trigger] key_views(required@)[j],
                ),
        decreases required.len() - i,
    {
        if !has_signature(pairs, &required[i]) {
            assert(!signature_map(pairs@).dom().contains(key_views(required@)[i as int]));
            return false;
        }
        i += 1;
    }
    true
}

} // verus!
