//! Entity identifiers (`shard.realm.num`) and their ledger-specific checksums.

use vstd::prelude::*;
use crate::error::Error;

verus! {

/// Number of distinct checksums: 26 to the fifth power.
pub const CHECKSUM_SPACE: u32 = 11_881_376;

/// 26 to the third power, the modulus of the weighted digit sum.
pub const WEIGHTED_MODULUS: u32 = 17_576;

/// The multiplier that scrambles the combined sums.
pub const SCRAMBLE: u64 = 1_000_003;

/// The weight of one position in a weighted sum.
pub const WEIGHT: u64 = 31;

/// The digit that stands for the separator `.` in an address.
pub const SEPARATOR_DIGIT: u8 = 10;

/// The decimal digits of `n`, most significant first.
pub open spec fn digits(n: nat) -> Seq<u8>
    decreases n,
{
    if n < 10 {
        seq![n as u8]
    } else {
        digits(n / 10).push((n % 10) as u8)
    }
}

/// The digit string of the address `shard.realm.num`, each `.` written as 10.
pub open spec fn address_digits(shard: u64, realm: u64, num: u64) -> Seq<u8> {
    digits(shard as nat).push(SEPARATOR_DIGIT) + digits(realm as nat).push(SEPARATOR_DIGIT)
        + digits(num as nat)
}

/// The sum of `d` read as a number in base 31, reduced by `modulus` at each step.
pub open spec fn weighted(d: Seq<u8>, modulus: int) -> int
    decreases d.len(),
{
    if d.len() == 0 {
        0
    } else {
        (WEIGHT * weighted(d.drop_last(), modulus) + d.last()) % modulus
    }
}

/// The sum modulo 11 of the entries of `d` whose index has the given parity.
pub open spec fn parity_sum(d: Seq<u8>, parity: int) -> int
    decreases d.len(),
{
    if d.len() == 0 {
        0
    } else if (d.len() - 1) % 2 == parity {
        (parity_sum(d.drop_last(), parity) + d.last()) % 11
    } else {
        parity_sum(d.drop_last(), parity)
    }
}

/// The ledger identity followed by the six zero bytes that pad it.
pub open spec fn padded_ledger(ledger: Seq<u8>) -> Seq<u8> {
    ledger + seq![0u8, 0u8, 0u8, 0u8, 0u8, 0u8]
}

/// The checksum of `shard.realm.num` on the ledger with identity `ledger`, as
/// a number below [`CHECKSUM_SPACE`].
pub open spec fn checksum_value(ledger: Seq<u8>, shard: u64, realm: u64, num: u64) -> int {
    let d = address_digits(shard, realm, num);
    let combined = ((((d.len() % 5) * 11 + parity_sum(d, 0)) * 11 + parity_sum(d, 1))
        * WEIGHTED_MODULUS + weighted(d, WEIGHTED_MODULUS as int) + weighted(
        padded_ledger(ledger),
        CHECKSUM_SPACE as int,
    )) % (CHECKSUM_SPACE as int);
    (combined * SCRAMBLE) % (CHECKSUM_SPACE as int)
}

/// The value of one checksum letter, upper or lower case, if `b` is a letter.
pub open spec fn letter_value(b: u8) -> Option<int> {
    if 97 <= b <= 122 {
        Some(b - 97)
    } else if 65 <= b <= 90 {
        Some(b - 65)
    } else {
        None
    }
}

/// Whether `text` is a checksum: five letters of either case.
pub open spec fn is_checksum_text(text: Seq<u8>) -> bool {
    text.len() == 5 && forall|i: int| 0 <= i < 5 ==> (#[trigger] letter_value(text[i])) is Some
}

/// The number that the five letters of `text` spell in base 26.
pub open spec fn text_value(text: Seq<u8>) -> int
    recommends
        is_checksum_text(text),
{
    letter_value(text[0]).unwrap() * 456_976 + letter_value(text[1]).unwrap() * 17_576
        + letter_value(text[2]).unwrap() * 676 + letter_value(text[3]).unwrap() * 26
        + letter_value(text[4]).unwrap()
}

/// The five lower-case letters that spell `value` in base 26.
pub open spec fn value_text(value: int) -> Seq<u8> {
    seq![
        (97 + (value / 456_976) % 26) as u8,
        (97 + (value / 17_576) % 26) as u8,
        (97 + (value / 676) % 26) as u8,
        (97 + (value / 26) % 26) as u8,
        (97 + value % 26) as u8,
    ]
}

/// The text of a checksum reads back as the same checksum.
pub proof fn lemma_checksum_text_round_trips(value: int)
    requires
        0 <= value < CHECKSUM_SPACE,
    ensures
        is_checksum_text(value_text(value)),
        text_value(value_text(value)) == value,
{
    let t = value_text(value);
    assert(letter_value(t[0]) == Some((value / 456_976) % 26));
    assert(letter_value(t[1]) == Some((value / 17_576) % 26));
    assert(letter_value(t[2]) == Some((value / 676) % 26));
    assert(letter_value(t[3]) == Some((value / 26) % 26));
    assert(letter_value(t[4]) == Some(value % 26));
    assert forall|i: int| 0 <= i < 5 implies (#[trigger] letter_value(t[i])) is Some by {
        assert(i == 0 || i == 1 || i == 2 || i == 3 || i == 4);
    }
    let q1 = value / 26;
    let q2 = q1 / 26;
    let q3 = q2 / 26;
    let q4 = q3 / 26;
    assert(q2 == value / 676);
    assert(q3 == value / 17_576);
    assert(q4 == value / 456_976);
    assert(q4 < 26);
}

/// A five-letter checksum, held as the number its letters spell in base 26.
/// Two checksums that differ only in the case of their letters are equal.
#[derive(Clone, Copy, Debug, PartialEq, Eq, Structural)]
pub struct Checksum {
    pub value: u32,
}

impl Checksum {
    /// The number that the checksum's letters spell.
    pub open spec fn spec_value(&self) -> int {
        self.value as int
    }

    /// Every checksum is below [`CHECKSUM_SPACE`].
    pub open spec fn wf(&self) -> bool {
        0 <= self.spec_value() < CHECKSUM_SPACE
    }

    /// The lower-case text of the checksum.
    pub open spec fn view(&self) -> Seq<u8> {
        value_text(self.spec_value())
    }

    /// The number that the checksum's letters spell.
    pub fn value(&self) -> (v: u32)
        ensures
            v == self.spec_value(),
    {
        self.value
    }

    /// Reads a checksum from its text. The text must be five letters; their
    /// case is ignored.
    pub fn from_bytes(text: &[u8]) -> (r: Result<Checksum, Error>)
        ensures
            is_checksum_text(text@) <==> r is Ok,
            r matches Ok(c) ==> c.wf() && c.spec_value() == text_value(text@),
            r matches Err(e) ==> e == Error::BasicParse,
    {
        if text.len() != 5 {
            return Err(Error::BasicParse);
        }
        let mut value: u32 = 0;
        let mut i: usize = 0;
        let ghost mut vals: Seq<int> = Seq::empty();
        while i < 5
            invariant
                text@.len() == 5,
                i <= 5,
                vals.len() == i,
                forall|j: int| 0 <= j < i ==> letter_value(text@[j]) == Some(#[trigger] vals[j]),
                i == 0 ==> value == 0,
                i == 1 ==> value == vals[0],
                i == 2 ==> value == vals[0] * 26 + vals[1],
                i == 3 ==> value == vals[0] * 676 + vals[1] * 26 + vals[2],
                i == 4 ==> value == vals[0] * 17_576 + vals[1] * 676 + vals[2] * 26 + vals[3],
                i == 5 ==> value == vals[0] * 456_976 + vals[1] * 17_576 + vals[2] * 676 + vals[3]
                    * 26 + vals[4],
                forall|j: int| 0 <= j < i ==> 0 <= #[trigger] vals[j] < 26,
            decreases 5 - i,
        {
            let b = text[i];
            let v: u32 = if 97 <= b && b <= 122 {
                (b - 97) as u32
            } else if 65 <= b && b <= 90 {
                (b - 65) as u32
            } else {
                assert(letter_value(text@[i as int]) is None);
                return Err(Error::BasicParse);
            };
            proof {
                vals = vals.push(v as int);
            }
            value = value * 26 + v;
            i += 1;
        }
        Ok(Checksum { value })
    }

    /// The lower-case text of the checksum.
    pub fn to_bytes(&self) -> (text: Vec<u8>)
        ensures
            text@ == self@,
    {
        let v = self.value;
        let mut text: Vec<u8> = Vec::new();
        text.push((97 + (v / 456_976) % 26) as u8);
        text.push((97 + (v / 17_576) % 26) as u8);
        text.push((97 + (v / 676) % 26) as u8);
        text.push((97 + (v / 26) % 26) as u8);
        text.push((97 + v % 26) as u8);
        assert(text@ =~= self@);
        text
    }
}

/// Appends the decimal digits of `n` to `out`.
fn push_digits(n: u64, out: &mut Vec<u8>)
    ensures
        final(out)@ == old(out)@ + digits(n as nat),
    decreases n,
{
    if n >= 10 {
        push_digits(n / 10, out);
    }
    out.push((n % 10) as u8);
    assert(final(out)@ =~= old(out)@ + digits(n as nat));
}

/// The weighted sum of `d` under `modulus`.
fn weighted_sum(d: &Vec<u8>, modulus: u32) -> (s: u64)
    requires
        0 < modulus <= CHECKSUM_SPACE,
    ensures
        s == weighted(d@, modulus as int),
        s < modulus,
{
    let mut s: u64 = 0;
    let mut i: usize = 0;
    while i < d.len()
        invariant
            i <= d.len(),
            0 < modulus <= CHECKSUM_SPACE,
            s == weighted(d@.subrange(0, i as int), modulus as int),
            s < modulus,
        decreases d.len() - i,
    {
        assert(d@.subrange(0, i + 1).drop_last() =~= d@.subrange(0, i as int));
        s = (WEIGHT * s + d[i] as u64) % (modulus as u64);
        i += 1;
    }
    assert(d@.subrange(0, i as int) =~= d@);
    s
}

/// The sum modulo 11 of the entries of `d` at the indices of the given parity.
fn parity_sum_of(d: &Vec<u8>, parity: usize) -> (s: u64)
    requires
        parity < 2,
    ensures
        s == parity_sum(d@, parity as int),
        s < 11,
{
    let mut s: u64 = 0;
    let mut i: usize = 0;
    while i < d.len()
        invariant
            i <= d.len(),
            parity < 2,
            s == parity_sum(d@.subrange(0, i as int), parity as int),
            s < 11,
        decreases d.len() - i,
    {
        assert(d@.subrange(0, i + 1).drop_last() =~= d@.subrange(0, i as int));
        if i % 2 == parity {
            s = (s + d[i] as u64) % 11;
        }
        i += 1;
    }
    assert(d@.subrange(0, i as int) =~= d@);
    s
}

/// Computes the checksum of `shard.realm.num` on the ledger with identity
/// `ledger`.
pub fn compute_checksum(ledger: &[u8], shard: u64, realm: u64, num: u64) -> (c: Checksum)
    ensures
        c.wf(),
        c.spec_value() == checksum_value(ledger@, shard, realm, num),
{
    let mut d: Vec<u8> = Vec::new();
    push_digits(shard, &mut d);
    d.push(SEPARATOR_DIGIT);
    push_digits(realm, &mut d);
    d.push(SEPARATOR_DIGIT);
    push_digits(num, &mut d);
    assert(d@ =~= address_digits(shard, realm, num));
    let mut h: Vec<u8> = Vec::new();
    let mut i: usize = 0;
    while i < ledger.len()
        invariant
            i <= ledger.len(),
            h@ == ledger@.subrange(0, i as int),
        decreases ledger.len() - i,
    {
        h.push(ledger[i]);
        assert(h@ =~= ledger@.subrange(0, i + 1));
        i += 1;
    }
    h.push(0);
    h.push(0);
    h.push(0);
    h.push(0);
    h.push(0);
    h.push(0);
    assert(h@ =~= padded_ledger(ledger@));
    let s = weighted_sum(&d, WEIGHTED_MODULUS);
    let sh = weighted_sum(&h, CHECKSUM_SPACE);
    let s0 = parity_sum_of(&d, 0);
    let s1 = parity_sum_of(&d, 1);
    let len5: u64 = (d.len() % 5) as u64;
    let sums: u64 = (len5 * 11 + s0) * 11 + s1;
    assert(sums <= 604);
    let combined: u64 = (sums * 17_576 + s + sh) % 11_881_376;
    let value: u64 = (combined * 1_000_003) % 11_881_376;
    Checksum { value: value as u32 }
}

/// The identity of a ledger network, as the bytes that enter the checksums of
/// its identifiers.
#[derive(Debug)]
pub struct LedgerId {
    pub bytes: Vec<u8>,
}

impl LedgerId {
    /// The identity's bytes.
    pub open spec fn view(&self) -> Seq<u8> {
        self.bytes@
    }

    /// The main network, whose identity is the single byte 0.
    pub fn mainnet() -> (l: LedgerId)
        ensures
            l@ == seq![0u8],
    {
        let mut bytes: Vec<u8> = Vec::new();
        bytes.push(0);
        assert(bytes@ =~= seq![0u8]);
        LedgerId { bytes }
    }

    /// The test network, whose identity is the single byte 1.
    pub fn testnet() -> (l: LedgerId)
        ensures
            l@ == seq![1u8],
    {
        let mut bytes: Vec<u8> = Vec::new();
        bytes.push(1);
        assert(bytes@ =~= seq![1u8]);
        LedgerId { bytes }
    }

    /// The preview network, whose identity is the single byte 2.
    pub fn previewnet() -> (l: LedgerId)
        ensures
            l@ == seq![2u8],
    {
        let mut bytes: Vec<u8> = Vec::new();
        bytes.push(2);
        assert(bytes@ =~= seq![2u8]);
        LedgerId { bytes }
    }

    /// A ledger with the given raw identity.
    pub fn from_bytes(bytes: Vec<u8>) -> (l: LedgerId)
        ensures
            l@ == bytes@,
    {
        LedgerId { bytes }
    }
}

/// An entity of the ledger (an account, a token, a contract): `shard.realm.num`,
/// with the checksum that the user wrote behind it, if any.
#[derive(Clone, Copy, Debug, PartialEq, Eq)]
pub struct EntityId {
    pub shard: u64,
    pub realm: u64,
    pub num: u64,
    pub checksum: Option<Checksum>,
}

/// The identifier of an account.
pub type AccountId = EntityId;

/// The identifier of a token.
pub type TokenId = EntityId;

/// The address of an account: its identifier, or the EVM address that stands
/// for it within a shard and realm.
#[derive(Clone, Copy, Debug, PartialEq, Eq)]
pub enum AccountAddress {
    AccountId(AccountId),
    EvmAddress { shard: u64, realm: u64, address: [u8; 20] },
}

impl AccountAddress {
    /// The identifiers in the address whose checksum can be validated: the
    /// account identifier, where the address is one. An EVM address carries
    /// no checksum.
    pub open spec fn spec_entity_ids(&self) -> Seq<EntityId> {
        match *self {
            AccountAddress::AccountId(id) => seq![id],
            AccountAddress::EvmAddress { .. } => Seq::empty(),
        }
    }

    /// The address of the account `id`.
    pub fn from(id: AccountId) -> (a: AccountAddress)
        ensures
            a == AccountAddress::AccountId(id),
    {
        AccountAddress::AccountId(id)
    }
}

/// The identifiers of an optional address.
pub open spec fn address_entity_ids(address: Option<AccountAddress>) -> Seq<EntityId> {
    match address {
        Some(a) => a.spec_entity_ids(),
        None => Seq::empty(),
    }
}

/// The identifier that an optional identifier holds, as a sequence.
pub open spec fn optional_entity_ids(id: Option<EntityId>) -> Seq<EntityId> {
    match id {
        Some(id) => seq![id],
        None => Seq::empty(),
    }
}

/// Appends the identifier of `address`, if it has one, to `ids`.
pub fn push_address_ids(ids: &mut Vec<EntityId>, address: &Option<AccountAddress>)
    ensures
        final(ids)@ == old(ids)@ + address_entity_ids(*address),
{
    match address {
        Some(AccountAddress::AccountId(id)) => {
            ids.push(*id);
            assert(final(ids)@ =~= old(ids)@ + address_entity_ids(*address));
        },
        _ => {
            assert(final(ids)@ =~= old(ids)@ + address_entity_ids(*address));
        },
    }
}

/// Appends `id`, if there is one, to `ids`.
pub fn push_optional_id(ids: &mut Vec<EntityId>, id: &Option<EntityId>)
    ensures
        final(ids)@ == old(ids)@ + optional_entity_ids(*id),
{
    match id {
        Some(id) => {
            ids.push(*id);
        },
        None => {},
    }
    assert(final(ids)@ =~= old(ids)@ + optional_entity_ids(*id));
}

/// The checksum that `id` must carry on the ledger with identity `ledger`.
pub open spec fn expected_checksum(id: EntityId, ledger: Seq<u8>) -> Checksum {
    Checksum { value: checksum_value(ledger, id.shard, id.realm, id.num) as u32 }
}

/// What validating `id` against the ledger with identity `ledger` gives: an
/// identifier without a checksum passes, one with a checksum passes exactly
/// when it is the expected one.
pub open spec fn validation_result(id: EntityId, ledger: Seq<u8>) -> Result<(), Error> {
    match id.checksum {
        None => Ok(()),
        Some(actual) => if actual == expected_checksum(id, ledger) {
            Ok(())
        } else {
            Err(
                Error::BadEntityIdChecksum {
                    shard: id.shard,
                    realm: id.realm,
                    num: id.num,
                    expected: expected_checksum(id, ledger),
                    actual,
                },
            )
        },
    }
}

/// What validating `ids` in order gives: the error of the first identifier
/// that fails, or success when none does.
pub open spec fn validation_result_all(ids: Seq<EntityId>, ledger: Seq<u8>) -> Result<(), Error>
    decreases ids.len(),
{
    if ids.len() == 0 {
        Ok(())
    } else {
        match validation_result_all(ids.drop_last(), ledger) {
            Err(e) => Err(e),
            Ok(_) => validation_result(ids.last(), ledger),
        }
    }
}

impl EntityId {
    /// The entity `shard.realm.num`, without a checksum.
    pub fn new(shard: u64, realm: u64, num: u64) -> (id: EntityId)
        ensures
            id == (EntityId { shard, realm, num, checksum: None }),
    {
        EntityId { shard, realm, num, checksum: None }
    }

    /// The entity `0.0.num`, without a checksum.
    pub fn from(num: u64) -> (id: EntityId)
        ensures
            id == (EntityId { shard: 0, realm: 0, num, checksum: None }),
    {
        EntityId { shard: 0, realm: 0, num, checksum: None }
    }

    /// The same entity, carrying `checksum`.
    pub fn with_checksum(self, checksum: Checksum) -> (id: EntityId)
        ensures
            id == (EntityId { checksum: Some(checksum), ..self }),
    {
        EntityId { shard: self.shard, realm: self.realm, num: self.num, checksum: Some(checksum) }
    }

    /// Whether both name the same entity with the same checksum.
    pub fn same(&self, other: &EntityId) -> (b: bool)
        ensures
            b == (*self == *other),
    {
        let sums = match (self.checksum, other.checksum) {
            (None, None) => true,
            (Some(a), Some(b)) => a.value == b.value,
            _ => false,
        };
        self.shard == other.shard && self.realm == other.realm && self.num == other.num && sums
    }

    /// Validates the identifier's checksum, if it carries one, against `ledger`.
    /// Nothing but the arguments is consulted.
    pub fn validate_checksum(&self, ledger: &LedgerId) -> (r: Result<(), Error>)
        ensures
            r == validation_result(*self, ledger@),
    {
        match self.checksum {
            None => Ok(()),
            Some(actual) => {
                let expected = compute_checksum(
                    ledger.bytes.as_slice(),
                    self.shard,
                    self.realm,
                    self.num,
                );
                if actual.value == expected.value {
                    Ok(())
                } else {
                    Err(
                        Error::BadEntityIdChecksum {
                            shard: self.shard,
                            realm: self.realm,
                            num: self.num,
                            expected,
                            actual,
                        },
                    )
                }
            },
        }
    }
}

/// Validates every identifier of `ids` in order and stops at the first that
/// fails.
pub fn validate_checksums(ids: &Vec<EntityId>, ledger: &LedgerId) -> (r: Result<(), Error>)
    ensures
        r == validation_result_all(ids@, ledger@),
{
    let mut i: usize = 0;
    while i < ids.len()
        invariant
            i <= ids.len(),
            validation_result_all(ids@.subrange(0, i as int), ledger@) is Ok,
        decreases ids.len() - i,
    {
        assert(ids@.subrange(0, i + 1).drop_last() =~= ids@.subrange(0, i as int));
        let r = ids[i].validate_checksum(ledger);
        if r.is_err() {
            proof {
                lemma_failure_is_kept(ids@, ledger@, i + 1);
            }
            return r;
        }
        i += 1;
    }
    assert(ids@.subrange(0, i as int) =~= ids@);
    Ok(())
}

/// Once a prefix of `ids` fails, every longer prefix fails with the same error.
proof fn lemma_failure_is_kept(ids: Seq<EntityId>, ledger: Seq<u8>, n: int)
    requires
        0 <= n <= ids.len(),
        validation_result_all(ids.subrange(0, n), ledger) is Err,
    ensures
        validation_result_all(ids, ledger) == validation_result_all(ids.subrange(0, n), ledger),
    decreases ids.len() - n,
{
    if n == ids.len() {
        assert(ids.subrange(0, n) =~= ids);
    } else {
        assert(ids.subrange(0, n + 1).drop_last() =~= ids.subrange(0, n));
        lemma_failure_is_kept(ids, ledger, n + 1);
    }
}

/// An identifier that carries the checksum computed under a ledger validates
/// against that ledger, and fails with `BadEntityIdChecksum`, naming both
/// checksums, against every ledger whose checksum for the entity differs.
pub proof fn lemma_checksum_binds_ledger(id: EntityId, ledger: Seq<u8>, other: Seq<u8>)
    requires
        id.checksum == Some(expected_checksum(id, ledger)),
    ensures
        validation_result(id, ledger) is Ok,
        expected_checksum(id, other) != expected_checksum(id, ledger) ==> validation_result(
            id,
            other,
        ) == Err::<(), Error>(
            Error::BadEntityIdChecksum {
                shard: id.shard,
                realm: id.realm,
                num: id.num,
                expected: expected_checksum(id, other),
                actual: expected_checksum(id, ledger),
            },
        ),
{
}

/// The identity of a ledger enters a checksum only through its weighted sum:
/// two ledgers with equal sums give every entity the same checksum, so an
/// identifier that validates against one validates against the other.
pub proof fn lemma_equal_ledger_sums_share_checksums(id: EntityId, ledger: Seq<u8>, other: Seq<u8>)
    requires
        weighted(padded_ledger(ledger), CHECKSUM_SPACE as int) == weighted(
            padded_ledger(other),
            CHECKSUM_SPACE as int,
        ),
    ensures
        expected_checksum(id, ledger) == expected_checksum(id, other),
        validation_result(id, ledger) == validation_result(id, other),
{
}

/// The byte `.`, which separates shard, realm and number.
pub const DOT: u8 = 46;

/// The byte `-`, which separates the number from the checksum.
pub const DASH: u8 = 45;

/// The first index at or after `from` at which `text` holds `byte`, or the
/// length of `text` where there is none.
pub open spec fn find(text: Seq<u8>, byte: u8, from: int) -> int
    decreases text.len() - from,
{
    if from < 0 || from >= text.len() {
        text.len() as int
    } else if text[from] == byte {
        from
    } else {
        find(text, byte, from + 1)
    }
}

/// The number that the decimal digits `text` spell.
pub open spec fn decimal_value(text: Seq<u8>) -> int
    decreases text.len(),
{
    if text.len() == 0 {
        0
    } else {
        decimal_value(text.drop_last()) * 10 + (text.last() - 48)
    }
}

/// Whether `text` is a number that fits 64 bits: one or more decimal digits
/// with a value of at most `u64::MAX`.
pub open spec fn is_number_text(text: Seq<u8>) -> bool {
    &&& text.len() > 0
    &&& forall|i: int| 0 <= i < text.len() ==> 48 <= #[trigger] text[i] <= 57
    &&& decimal_value(text) <= u64::MAX
}

/// What parsing `text` as an identifier gives. The text is
/// `shard.realm.num`, optionally followed by `-` and a checksum of five
/// letters; anything else is malformed.
pub open spec fn parse_result(text: Seq<u8>) -> Result<EntityId, Error> {
    let a = find(text, DOT, 0);
    let b = find(text, DOT, a + 1);
    let c = find(text, DASH, b + 1);
    if a >= text.len() || b >= text.len() {
        Err(Error::BasicParse)
    } else {
        let shard = text.subrange(0, a);
        let realm = text.subrange(a + 1, b);
        let num = text.subrange(b + 1, c);
        let sum = text.subrange(
            if c < text.len() {
                c + 1
            } else {
                c
            },
            text.len() as int,
        );
        if is_number_text(shard) && is_number_text(realm) && is_number_text(num) && (c
            < text.len() ==> is_checksum_text(sum)) {
            Ok(
                EntityId {
                    shard: decimal_value(shard) as u64,
                    realm: decimal_value(realm) as u64,
                    num: decimal_value(num) as u64,
                    checksum: if c < text.len() {
                        Some(Checksum { value: text_value(sum) as u32 })
                    } else {
                        None
                    },
                },
            )
        } else {
            Err(Error::BasicParse)
        }
    }
}

/// The first index at or after `from` at which `text` holds `byte`.
fn find_byte(text: &[u8], byte: u8, from: usize) -> (at: usize)
    ensures
        at == find(text@, byte, from as int),
        from <= text@.len() ==> from <= at <= text@.len(),
        at < text@.len() ==> text@[at as int] == byte,
{
    if from >= text.len() {
        return text.len();
    }
    let mut i: usize = from;
    while i < text.len() && text[i] != byte
        invariant
            from <= i <= text@.len(),
            find(text@, byte, from as int) == find(text@, byte, i as int),
        decreases text.len() - i,
    {
        i += 1;
    }
    i
}

/// A number with more digits is at least as large as the number of its first
/// digits.
proof fn lemma_decimal_value_grows(text: Seq<u8>, n: int)
    requires
        0 <= n <= text.len(),
        forall|i: int| 0 <= i < text.len() ==> 48 <= #[trigger] text[i] <= 57,
    ensures
        0 <= decimal_value(text.subrange(0, n)) <= decimal_value(text),
    decreases text.len() - n,
{
    lemma_decimal_value_nonnegative(text.subrange(0, n));
    if n == text.len() {
        assert(text.subrange(0, n) =~= text);
    } else {
        assert(text.subrange(0, n + 1).drop_last() =~= text.subrange(0, n));
        lemma_decimal_value_grows(text, n + 1);
    }
}

/// The value of decimal digits is not negative.
proof fn lemma_decimal_value_nonnegative(text: Seq<u8>)
    requires
        forall|i: int| 0 <= i < text.len() ==> 48 <= #[trigger] text[i] <= 57,
    ensures
        0 <= decimal_value(text),
    decreases text.len(),
{
    if text.len() > 0 {
        lemma_decimal_value_nonnegative(text.drop_last());
    }
}

/// The number that `text` spells between `start` and `end`, if that part is
/// a number that fits 64 bits.
fn parse_number(text: &[u8], start: usize, end: usize) -> (r: Option<u64>)
    requires
        start <= end <= text@.len(),
    ensures
        r is Some <==> is_number_text(text@.subrange(start as int, end as int)),
        r matches Some(v) ==> v == decimal_value(text@.subrange(start as int, end as int)),
{
    let ghost part = text@.subrange(start as int, end as int);
    if start == end {
        return None;
    }
    let mut value: u64 = 0;
    let mut i: usize = start;
    while i < end
        invariant
            start <= i <= end <= text@.len(),
            part == text@.subrange(start as int, end as int),
            forall|j: int| 0 <= j < i - start ==> 48 <= #[trigger] part[j] <= 57,
            value == decimal_value(part.subrange(0, i - start)),
        decreases end - i,
    {
        let b = text[i];
        assert(part[i - start] == b);
        if b < 48 || b > 57 {
            return None;
        }
        let digit: u64 = (b - 48) as u64;
        assert(part.subrange(0, i - start + 1).drop_last() =~= part.subrange(0, i - start));
        if value > (u64::MAX - digit) / 10 {
            proof {
                if is_number_text(part) {
                    lemma_decimal_value_grows(part, i - start + 1);
                }
            }
            return None;
        }
        value = value * 10 + digit;
        i += 1;
    }
    assert(part.subrange(0, i - start) =~= part);
    Some(value)
}

impl EntityId {
    /// Reads an identifier from its text, `shard.realm.num` or
    /// `shard.realm.num-checksum`. The form without a checksum is accepted;
    /// a checksum that is not five letters is rejected.
    pub fn from_bytes(text: &[u8]) -> (r: Result<EntityId, Error>)
        ensures
            r == parse_result(text@),
    {
        let len = text.len();
        let a = find_byte(text, DOT, 0);
        if a >= len {
            return Err(Error::BasicParse);
        }
        let b = find_byte(text, DOT, a + 1);
        if b >= len {
            return Err(Error::BasicParse);
        }
        let c = find_byte(text, DASH, b + 1);
        let shard = parse_number(text, 0, a);
        let realm = parse_number(text, a + 1, b);
        let num = parse_number(text, b + 1, c);
        match (shard, realm, num) {
            (Some(shard), Some(realm), Some(num)) => {
                if c < len {
                    let sum = vstd::slice::slice_subrange(text, c + 1, len);
                    match Checksum::from_bytes(sum) {
                        Ok(checksum) => Ok(EntityId { shard, realm, num, checksum: Some(checksum) }),
                        Err(e) => Err(e),
                    }
                } else {
                    Ok(EntityId { shard, realm, num, checksum: None })
                }
            },
            _ => Err(Error::BasicParse),
        }
    }
}

/// The decimal text of `n`, without leading zeros.
pub open spec fn decimal_text(n: nat) -> Seq<u8> {
    digits(n).map_values(|d: u8| (d + 48) as u8)
}

/// The text of an identifier: `shard.realm.num`, followed by `-` and the
/// checksum in lower case where the identifier carries one.
pub open spec fn entity_text(id: EntityId) -> Seq<u8> {
    let plain = decimal_text(id.shard as nat).push(DOT) + decimal_text(id.realm as nat).push(DOT)
        + decimal_text(id.num as nat);
    match id.checksum {
        Some(checksum) => plain.push(DASH) + checksum@,
        None => plain,
    }
}

/// Appends the decimal text of `n` to `out`.
fn push_decimal(n: u64, out: &mut Vec<u8>)
    ensures
        final(out)@ == old(out)@ + decimal_text(n as nat),
    decreases n,
{
    if n >= 10 {
        push_decimal(n / 10, out);
    }
    out.push(48 + (n % 10) as u8);
    assert(final(out)@ =~= old(out)@ + decimal_text(n as nat));
}

impl EntityId {
    /// The text of the identifier.
    pub fn to_bytes(&self) -> (text: Vec<u8>)
        ensures
            text@ == entity_text(*self),
    {
        let mut text: Vec<u8> = Vec::new();
        push_decimal(self.shard, &mut text);
        text.push(DOT);
        push_decimal(self.realm, &mut text);
        text.push(DOT);
        push_decimal(self.num, &mut text);
        match self.checksum {
            Some(checksum) => {
                text.push(DASH);
                let mut letters = checksum.to_bytes();
                text.append(&mut letters);
            },
            None => {},
        }
        assert(text@ =~= entity_text(*self));
        text
    }
}

/// The decimal text of a number is one or more digits that spell the number.
pub proof fn lemma_decimal_text_spells(n: nat)
    ensures
        decimal_text(n).len() > 0,
        forall|i: int| 0 <= i < decimal_text(n).len() ==> 48 <= #[trigger] decimal_text(n)[i] <= 57,
        decimal_value(decimal_text(n)) == n,
    decreases n,
{
    lemma_digits_are_digits(n);
    let text = decimal_text(n);
    assert(digits(n).last() == n % 10);
    assert(text.last() == digits(n).last() + 48);
    if n >= 10 {
        lemma_decimal_text_spells(n / 10);
        assert(text.drop_last() =~= decimal_text(n / 10));
    } else {
        assert(text.drop_last() =~= Seq::<u8>::empty());
        assert(decimal_value(text.drop_last()) == 0);
    }
}

/// Every entry of the digits of a number is below ten.
proof fn lemma_digits_are_digits(n: nat)
    ensures
        digits(n).len() > 0,
        forall|i: int| 0 <= i < digits(n).len() ==> #[trigger] digits(n)[i] < 10,
    decreases n,
{
    if n >= 10 {
        lemma_digits_are_digits(n / 10);
    }
}

/// Where `text` does not hold `byte` between `from` and `to`, the search from
/// `from` gives what the search from `to` gives.
proof fn lemma_find_skips(text: Seq<u8>, byte: u8, from: int, to: int)
    requires
        0 <= from <= to <= text.len(),
        forall|j: int| from <= j < to ==> #[trigger] text[j] != byte,
    ensures
        find(text, byte, from) == find(text, byte, to),
    decreases to - from,
{
    if from < to {
        lemma_find_skips(text, byte, from + 1, to);
    }
}

/// The text of an identifier reads back as the identifier.
pub proof fn lemma_text_round_trips(id: EntityId)
    requires
        id.checksum matches Some(c) ==> c.wf(),
    ensures
        parse_result(entity_text(id)) == Ok::<EntityId, Error>(id),
{
    let text = entity_text(id);
    let s = decimal_text(id.shard as nat);
    let r = decimal_text(id.realm as nat);
    let n = decimal_text(id.num as nat);
    lemma_decimal_text_spells(id.shard as nat);
    lemma_decimal_text_spells(id.realm as nat);
    lemma_decimal_text_spells(id.num as nat);
    let a = s.len() as int;
    let b = a + 1 + r.len();
    let c = b + 1 + n.len();
    let plain = s.push(DOT) + r.push(DOT) + n;
    assert(plain.len() == c);
    assert(forall|j: int| 0 <= j < a ==> text[j] == s[j]);
    assert(text[a] == DOT);
    assert(forall|j: int| a + 1 <= j < b ==> text[j] == r[j - a - 1]);
    assert(text[b] == DOT);
    assert(forall|j: int| b + 1 <= j < c ==> text[j] == n[j - b - 1]);
    lemma_find_skips(text, DOT, 0, a);
    lemma_find_skips(text, DOT, a + 1, b);
    lemma_find_skips(text, DASH, b + 1, c);
    assert(text.subrange(0, a) =~= s);
    assert(text.subrange(a + 1, b) =~= r);
    assert(text.subrange(b + 1, c) =~= n);
    match id.checksum {
        Some(checksum) => {
            lemma_checksum_text_round_trips(checksum.spec_value());
            assert(text[c] == DASH);
            assert(text.subrange(c + 1, text.len() as int) =~= checksum@);
        },
        None => {
            assert(text.len() == c);
        },
    }
}

/// The number of hexadecimal digits that spell an EVM address.
pub const EVM_TEXT_LENGTH: usize = 40;

/// The value of a hexadecimal digit of either case, if `b` is one.
pub open spec fn hex_digit_value(b: u8) -> Option<int> {
    if 48 <= b <= 57 {
        Some(b - 48)
    } else if 97 <= b <= 102 {
        Some(b - 87)
    } else if 65 <= b <= 70 {
        Some(b - 55)
    } else {
        None
    }
}

/// The lower-case hexadecimal digit of a value below 16.
pub open spec fn hex_digit(value: int) -> u8 {
    if value < 10 {
        (48 + value) as u8
    } else {
        (87 + value) as u8
    }
}

/// Whether `text` spells an EVM address: forty hexadecimal digits.
pub open spec fn is_evm_text(text: Seq<u8>) -> bool {
    text.len() == EVM_TEXT_LENGTH && forall|i: int|
        0 <= i < text.len() ==> (#[trigger] hex_digit_value(text[i])) is Some
}

/// The twenty bytes that forty hexadecimal digits spell, two digits a byte.
pub open spec fn evm_bytes(text: Seq<u8>) -> Seq<u8> {
    Seq::new(
        20,
        |i: int|
            (hex_digit_value(text[2 * i]).unwrap() * 16 + hex_digit_value(
                text[2 * i + 1],
            ).unwrap()) as u8,
    )
}

/// The forty lower-case hexadecimal digits that spell `bytes`.
pub open spec fn evm_text(bytes: Seq<u8>) -> Seq<u8> {
    Seq::new(
        2 * bytes.len(),
        |i: int|
            if i % 2 == 0 {
                hex_digit(bytes[i / 2] as int / 16)
            } else {
                hex_digit(bytes[i / 2] as int % 16)
            },
    )
}

/// The text of an address: the text of the identifier, or
/// `shard.realm.` followed by the EVM address in hexadecimal digits.
pub open spec fn address_text(address: AccountAddress) -> Seq<u8> {
    match address {
        AccountAddress::AccountId(id) => entity_text(id),
        AccountAddress::EvmAddress { shard, realm, address } => decimal_text(shard as nat).push(
            DOT,
        ) + decimal_text(realm as nat).push(DOT) + evm_text(address@),
    }
}

/// The value of the hexadecimal digit `b`, if it is one.
fn hex_value(b: u8) -> (v: Option<u8>)
    ensures
        v is Some <==> hex_digit_value(b) is Some,
        v matches Some(x) ==> x == hex_digit_value(b).unwrap() && x < 16,
{
    if 48 <= b && b <= 57 {
        Some(b - 48)
    } else if 97 <= b && b <= 102 {
        Some(b - 87)
    } else if 65 <= b && b <= 70 {
        Some(b - 55)
    } else {
        None
    }
}

/// The lower-case hexadecimal digit of `value`.
fn hex_digit_of(value: u8) -> (b: u8)
    requires
        value < 16,
    ensures
        b == hex_digit(value as int),
{
    if value < 10 {
        48 + value
    } else {
        87 + value
    }
}

/// The EVM address that `text` spells from `start` to its end, if that part
/// is forty hexadecimal digits.
fn parse_evm_address(text: &[u8], start: usize) -> (r: Option<[u8; 20]>)
    requires
        start <= text@.len(),
    ensures
        r is Some <==> is_evm_text(text@.subrange(start as int, text@.len() as int)),
        r matches Some(address) ==> address@ == evm_bytes(
            text@.subrange(start as int, text@.len() as int),
        ),
{
    let ghost part = text@.subrange(start as int, text@.len() as int);
    let len = text.len();
    if len - start != EVM_TEXT_LENGTH {
        return None;
    }
    let mut address: [u8; 20] = [0u8;20];
    let mut i: usize = 0;
    while i < 20
        invariant
            i <= 20,
            len == text@.len(),
            start + 40 == len,
            part == text@.subrange(start as int, text@.len() as int),
            forall|j: int| 0 <= j < 2 * i ==> (#[trigger] hex_digit_value(part[j])) is Some,
            forall|j: int| 0 <= j < i ==> address@[j] == #[trigger] evm_bytes(part)[j],
        decreases 20 - i,
    {
        let high = hex_value(text[start + 2 * i]);
        let low = hex_value(text[start + 2 * i + 1]);
        assert(part[2 * i] == text@[start + 2 * i]);
        assert(part[2 * i + 1] == text@[start + 2 * i + 1]);
        match (high, low) {
            (Some(h), Some(l)) => {
                address[i] = h * 16 + l;
            },
            _ => {
                return None;
            },
        }
        i += 1;
    }
    assert(address@ =~= evm_bytes(part));
    Some(address)
}

impl AccountAddress {
    /// Reads an address from its text: `shard.realm.` followed by forty
    /// hexadecimal digits is an EVM address, and any other text is read as
    /// an identifier.
    pub fn from_bytes(text: &[u8]) -> (r: Result<AccountAddress, Error>)
        ensures
            ({
                let a = find(text@, DOT, 0);
                let b = find(text@, DOT, a + 1);
                let shard = text@.subrange(0, a);
                let realm = text@.subrange(a + 1, b);
                if a < text@.len() && b < text@.len() && is_evm_text(
                    text@.subrange(b + 1, text@.len() as int),
                ) {
                    &&& r is Ok <==> is_number_text(shard) && is_number_text(realm)
                    &&& r matches Err(e) ==> e == Error::BasicParse
                    &&& r matches Ok(address) ==> {
                        &&& address matches AccountAddress::EvmAddress {
                            shard: s,
                            realm: m,
                            address: bytes,
                        }
                        &&& s == decimal_value(shard)
                        &&& m == decimal_value(realm)
                        &&& bytes@ == evm_bytes(text@.subrange(b + 1, text@.len() as int))
                    }
                } else {
                    r == match parse_result(text@) {
                        Ok(id) => Ok::<AccountAddress, Error>(AccountAddress::AccountId(id)),
                        Err(e) => Err::<AccountAddress, Error>(e),
                    }
                }
            }),
    {
        let len = text.len();
        let a = find_byte(text, DOT, 0);
        if a < len {
            let b = find_byte(text, DOT, a + 1);
            if b < len {
                match parse_evm_address(text, b + 1) {
                    Some(address) => {
                        return match (parse_number(text, 0, a), parse_number(text, a + 1, b)) {
                            (Some(shard), Some(realm)) => Ok(
                                AccountAddress::EvmAddress { shard, realm, address },
                            ),
                            _ => Err(Error::BasicParse),
                        };
                    },
                    None => {},
                }
            }
        }
        match EntityId::from_bytes(text) {
            Ok(id) => Ok(AccountAddress::AccountId(id)),
            Err(e) => Err(e),
        }
    }

    /// The text of the address.
    pub fn to_bytes(&self) -> (text: Vec<u8>)
        ensures
            text@ == address_text(*self),
    {
        match self {
            AccountAddress::AccountId(id) => id.to_bytes(),
            AccountAddress::EvmAddress { shard, realm, address } => {
                let mut text: Vec<u8> = Vec::new();
                push_decimal(*shard, &mut text);
                text.push(DOT);
                push_decimal(*realm, &mut text);
                text.push(DOT);
                let ghost head = text@;
                let mut i: usize = 0;
                while i < 20
                    invariant
                        i <= 20,
                        text@.len() == head.len() + 2 * i,
                        forall|j: int| 0 <= j < head.len() ==> text@[j] == head[j],
                        forall|j: int|
                            0 <= j < 2 * i ==> text@[head.len() + j] == #[trigger] evm_text(
                                address@,
                            )[j],
                    decreases 20 - i,
                {
                    let b = address[i];
                    text.push(hex_digit_of(b / 16));
                    text.push(hex_digit_of(b % 16));
                    i += 1;
                }
                assert(text@ =~= head + evm_text(address@));
                text
            },
        }
    }
}

} // verus!
