//! Public keys and the keys that guard entities.

use vstd::prelude::*;
use crate::entity_id::EntityId;
use crate::error::Error;

verus! {

/// The length of a raw Ed25519 public key.
pub const ED25519_KEY_LENGTH: usize = 32;

/// The length of a compressed ECDSA (secp256k1) public key.
pub const ECDSA_KEY_LENGTH: usize = 33;

/// Whether raw key bytes of this length are a public key.
pub open spec fn is_key_length(len: nat) -> bool {
    len == ED25519_KEY_LENGTH || len == ECDSA_KEY_LENGTH
}

/// Whether two byte strings are equal.
pub fn bytes_equal(a: &[u8], b: &[u8]) -> (same: bool)
    ensures
        same == (a@ == b@),
{
    if a.len() != b.len() {
        return false;
    }
    let mut i: usize = 0;
    while i < a.len()
        invariant
            a@.len() == b@.len(),
            i <= a@.len(),
            a@.subrange(0, i as int) == b@.subrange(0, i as int),
        decreases a.len() - i,
    {
        if a[i] != b[i] {
            return false;
        }
        assert(a@.subrange(0, i + 1) =~= a@.subrange(0, i as int).push(a@[i as int]));
        assert(b@.subrange(0, i + 1) =~= b@.subrange(0, i as int).push(b@[i as int]));
        i += 1;
    }
    assert(a@ =~= a@.subrange(0, i as int));
    assert(b@ =~= b@.subrange(0, i as int));
    true
}

/// A public key, as its raw bytes.
#[derive(Debug)]
pub struct PublicKey {
    pub bytes: Vec<u8>,
}

impl PublicKey {
    /// The raw bytes of the key.
    pub open spec fn view(&self) -> Seq<u8> {
        self.bytes@
    }

    /// The key with the given raw bytes, which must have the length of an
    /// Ed25519 or of a compressed ECDSA key.
    pub fn from_bytes(bytes: Vec<u8>) -> (r: Result<PublicKey, Error>)
        ensures
            r is Ok <==> is_key_length(bytes@.len()),
            r matches Ok(key) ==> key@ == bytes@,
            r matches Err(e) ==> e == Error::KeyParse,
    {
        if bytes.len() == ED25519_KEY_LENGTH || bytes.len() == ECDSA_KEY_LENGTH {
            Ok(PublicKey { bytes })
        } else {
            Err(Error::KeyParse)
        }
    }

    /// The key that alias bytes hold: none where there are no bytes, and an
    /// error where the bytes are not a key.
    pub fn from_alias_bytes(bytes: &Vec<u8>) -> (r: Result<Option<PublicKey>, Error>)
        ensures
            r is Ok <==> bytes@.len() == 0 || is_key_length(bytes@.len()),
            r matches Ok(key) ==> (key is None <==> bytes@.len() == 0),
            r matches Ok(Some(key)) ==> key@ == bytes@,
            r matches Err(e) ==> e == Error::KeyParse,
    {
        if bytes.len() == 0 {
            Ok(None)
        } else if bytes.len() == ED25519_KEY_LENGTH || bytes.len() == ECDSA_KEY_LENGTH {
            Ok(Some(PublicKey { bytes: copy_bytes(bytes) }))
        } else {
            Err(Error::KeyParse)
        }
    }

    /// The raw bytes of the key.
    pub fn to_bytes_raw(&self) -> (bytes: Vec<u8>)
        ensures
            bytes@ == self@,
    {
        copy_bytes(&self.bytes)
    }

    /// Whether both are the same key.
    pub fn same(&self, other: &PublicKey) -> (b: bool)
        ensures
            b == (self@ == other@),
    {
        bytes_equal(self.bytes.as_slice(), other.bytes.as_slice())
    }
}

impl Clone for PublicKey {
    fn clone(&self) -> (key: PublicKey)
        ensures
            key@ == self@,
    {
        PublicKey { bytes: copy_bytes(&self.bytes) }
    }
}

/// A copy of `bytes`.
pub fn copy_bytes(bytes: &Vec<u8>) -> (copy: Vec<u8>)
    ensures
        copy@ == bytes@,
{
    let copy = bytes.clone();
    assert(copy@ =~= bytes@);
    copy
}

/// What must sign for an entity: one public key, or a contract.
#[derive(Debug)]
pub enum Key {
    Single(PublicKey),
    ContractId(EntityId),
}

/// A key, as plain values.
pub enum KeyView {
    Single(Seq<u8>),
    ContractId(EntityId),
}

impl Key {
    pub open spec fn view(&self) -> KeyView {
        match *self {
            Key::Single(key) => KeyView::Single(key@),
            Key::ContractId(id) => KeyView::ContractId(id),
        }
    }
}

impl Clone for Key {
    fn clone(&self) -> (key: Key)
        ensures
            key@ == self@,
    {
        match self {
            Key::Single(k) => Key::Single(k.clone()),
            Key::ContractId(id) => Key::ContractId(*id),
        }
    }
}

/// The view of an optional key.
pub open spec fn key_view(key: Option<Key>) -> Option<KeyView> {
    match key {
        Some(k) => Some(k@),
        None => None,
    }
}

/// A copy of an optional key.
pub fn copy_key(key: &Option<Key>) -> (copy: Option<Key>)
    ensures
        key_view(copy) == key_view(*key),
{
    match key {
        Some(k) => Some(k.clone()),
        None => None,
    }
}

/// The public keys that must sign for an optional key: the key itself where
/// it is a single public key, and none for a contract or for no key.
pub open spec fn key_signers(key: Option<Key>) -> Seq<Seq<u8>> {
    match key {
        Some(Key::Single(k)) => seq![k@],
        _ => Seq::empty(),
    }
}

/// The raw bytes of each key of `keys`, in order.
pub open spec fn key_views(keys: Seq<PublicKey>) -> Seq<Seq<u8>> {
    Seq::new(keys.len(), |i: int| keys[i]@)
}

/// Appends to `signers` the public key that must sign for `key`, if any.
pub fn push_key_signers(signers: &mut Vec<PublicKey>, key: &Option<Key>)
    ensures
        key_views(final(signers)@) == key_views(old(signers)@) + key_signers(*key),
{
    match key {
        Some(Key::Single(k)) => {
            signers.push(k.clone());
        },
        _ => {},
    }
    assert(key_views(final(signers)@) =~= key_views(old(signers)@) + key_signers(*key));
}

} // verus!
