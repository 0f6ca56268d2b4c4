//! Identities and the deterministic addresses of records.
//!
//! A wallet, a token, a payment reference and the place where a record lives
//! are all thirty-two byte values. The place of a record is not chosen: it is
//! derived from the record's seeds, so that a merchant has one record per
//! authority and one session per reference.

use anchor_lang::solana_program::pubkey::Pubkey;
use vstd::prelude::*;
use vstd::std_specs::cmp::PartialEqSpecImpl;

verus! {

/// A thirty-two byte identity.
#[derive(Clone, Copy, Debug, Eq, Hash)]
pub struct Address {
    pub bytes: [u8; 32],
}

impl View for Address {
    type V = Seq<u8>;

    open spec fn view(&self) -> Seq<u8> {
        self.bytes@
    }
}

impl PartialEq for Address {
    fn eq(&self, other: &Address) -> (equal: bool) {
        let mut i: usize = 0;
        while i < 32
            invariant
                i <= 32,
                forall|k: int| 0 <= k < i ==> self.bytes[k] == other.bytes[k],
            decreases 32 - i,
        {
            if self.bytes[i] != other.bytes[i] {
                return false;
            }
            i = i + 1;
        }
        assert(self.bytes =~= other.bytes);
        true
    }
}

impl PartialEqSpecImpl for Address {
    open spec fn obeys_eq_spec() -> bool {
        true
    }

    open spec fn eq_spec(&self, other: &Address) -> bool {
        *self == *other
    }
}

impl Address {
    /// The identity made of `bytes`.
    pub fn new(bytes: [u8; 32]) -> (address: Address)
        ensures
            address.bytes == bytes,
    {
        Address { bytes }
    }

    /// The bytes of the identity, as a seed.
    pub fn to_seed(&self) -> (seed: Vec<u8>)
        ensures
            seed@ == self@,
    {
        let mut seed: Vec<u8> = Vec::new();
        let mut i: usize = 0;
        while i < 32
            invariant
                i <= 32,
                seed@ == self@.take(i as int),
            decreases 32 - i,
        {
            seed.push(self.bytes[i]);
            assert(self@.take(i + 1) == self@.take(i as int).push(self@[i as int]));
            i = i + 1;
        }
        assert(self@.take(32) == self@);
        seed
    }
}

/// Two identities with the same bytes are the same identity.
pub proof fn lemma_address_by_bytes(a: Address, b: Address)
    requires
        a@ == b@,
    ensures
        a == b,
{
    assert(a.bytes =~= b.bytes);
}

/// The first seed of every merchant record: the word `merchant`.
pub open spec fn merchant_tag() -> Seq<u8> {
    seq![109u8, 101u8, 114u8, 99u8, 104u8, 97u8, 110u8, 116u8]
}

/// The first seed of every payment record: the word `payment`.
pub open spec fn payment_tag() -> Seq<u8> {
    seq![112u8, 97u8, 121u8, 109u8, 101u8, 110u8, 116u8]
}

/// The seeds of the merchant record that `authority` controls.
pub open spec fn merchant_seeds(authority: Address) -> Seq<Seq<u8>> {
    seq![merchant_tag(), authority@]
}

/// The seeds of the session that the merchant at `merchant` opened under
/// `reference`.
pub open spec fn payment_seeds(merchant: Address, reference: Address) -> Seq<Seq<u8>> {
    seq![payment_tag(), merchant@, reference@]
}

/// The address and bump seed that the runtime's search for a program derived
/// address yields for `seeds` under the program `program_id`, or `None` where
/// the search finds no address.
pub uninterp spec fn program_address(seeds: Seq<Seq<u8>>, program_id: [u8; 32]) -> Option<
    ([u8; 32], u8),
>;

/// The address derived for `seeds` under `program_id`, with its bump seed.
pub open spec fn derived_address(seeds: Seq<Seq<u8>>, program_id: Address) -> Option<
    (Address, u8),
> {
    match program_address(seeds, program_id.bytes) {
        Some((bytes, bump)) => Some((Address { bytes }, bump)),
        None => None,
    }
}

/// Calls `Pubkey::try_find_program_address`.
///
/// The search is a function of the seeds and the program alone. Nothing is
/// claimed of which address it finds, only that the result is the one the
/// runtime derives for these seeds: `program_address`.
#[verifier::external_body]
fn find_program_address(seeds: &Vec<Vec<u8>>, program_id: &Address) -> (found: Option<
    (Address, u8),
>)
    ensures
        found == match program_address(seeds.deep_view(), program_id.bytes) {
            Some((bytes, bump)) => Some((Address { bytes }, bump)),
            None => None,
        },
{
    let parts: Vec<&[u8]> = seeds.iter().map(|seed| seed.as_slice()).collect();
    let program = Pubkey::new_from_array(program_id.bytes);
    match Pubkey::try_find_program_address(&parts, &program) {
        Some((key, bump)) => Some((Address { bytes: key.to_bytes() }, bump)),
        None => None,
    }
}

/// The address of the merchant record that `authority` controls, with its
/// bump seed.
pub open spec fn merchant_address_of(program_id: Address, authority: Address) -> Option<
    (Address, u8),
> {
    derived_address(merchant_seeds(authority), program_id)
}

/// The address of the session that the merchant at `merchant` opened under
/// `reference`, with its bump seed.
pub open spec fn payment_address_of(
    program_id: Address,
    merchant: Address,
    reference: Address,
) -> Option<(Address, u8)> {
    derived_address(payment_seeds(merchant, reference), program_id)
}

/// Whether `address` with `bump` is what the seeds of `authority`'s merchant
/// record derive under `program_id`.
pub open spec fn is_merchant_address(
    program_id: Address,
    authority: Address,
    address: Address,
    bump: u8,
) -> bool {
    merchant_address_of(program_id, authority) == Some((address, bump))
}

/// Whether `address` with `bump` is what the seeds of the session `reference`
/// of the merchant at `merchant` derive under `program_id`.
pub open spec fn is_payment_address(
    program_id: Address,
    merchant: Address,
    reference: Address,
    address: Address,
    bump: u8,
) -> bool {
    payment_address_of(program_id, merchant, reference) == Some((address, bump))
}

fn tag_merchant() -> (tag: Vec<u8>)
    ensures
        tag@ == merchant_tag(),
{
    let mut tag: Vec<u8> = Vec::new();
    tag.push(109u8);
    tag.push(101u8);
    tag.push(114u8);
    tag.push(99u8);
    tag.push(104u8);
    tag.push(97u8);
    tag.push(110u8);
    tag.push(116u8);
    assert(tag@ =~= merchant_tag());
    tag
}

fn tag_payment() -> (tag: Vec<u8>)
    ensures
        tag@ == payment_tag(),
{
    let mut tag: Vec<u8> = Vec::new();
    tag.push(112u8);
    tag.push(97u8);
    tag.push(121u8);
    tag.push(109u8);
    tag.push(101u8);
    tag.push(110u8);
    tag.push(116u8);
    assert(tag@ =~= payment_tag());
    tag
}

/// Derives the address of the merchant record that `authority` controls, and
/// its bump seed. `None` where no address can be derived for these seeds.
pub fn merchant_address(program_id: &Address, authority: &Address) -> (found: Option<
    (Address, u8),
>)
    ensures
        found == merchant_address_of(*program_id, *authority),
{
    let mut seeds: Vec<Vec<u8>> = Vec::new();
    seeds.push(tag_merchant());
    seeds.push(authority.to_seed());
    assert(seeds.deep_view() =~~= merchant_seeds(*authority));
    find_program_address(&seeds, program_id)
}

/// Derives the address of the session that the merchant at `merchant` opened
/// under `reference`, and its bump seed. `None` where no address can be
/// derived for these seeds.
pub fn payment_address(program_id: &Address, merchant: &Address, reference: &Address) -> (found:
    Option<(Address, u8)>)
    ensures
        found == payment_address_of(*program_id, *merchant, *reference),
{
    let mut seeds: Vec<Vec<u8>> = Vec::new();
    seeds.push(tag_payment());
    seeds.push(merchant.to_seed());
    seeds.push(reference.to_seed());
    assert(seeds.deep_view() =~~= payment_seeds(*merchant, *reference));
    find_program_address(&seeds, program_id)
}

/// Different seed tuples never share their seeds: a merchant's seeds name its
/// authority, a session's seeds name its merchant and its reference, and no
/// merchant's seeds are a session's.
pub proof fn lemma_seeds_are_unique(a: Address, b: Address, c: Address, d: Address)
    ensures
        merchant_seeds(a) == merchant_seeds(b) ==> a == b,
        payment_seeds(a, b) == payment_seeds(c, d) ==> a == c && b == d,
        merchant_seeds(a) != payment_seeds(b, c),
{
    if merchant_seeds(a) == merchant_seeds(b) {
        assert(merchant_seeds(a)[1] == merchant_seeds(b)[1]);
        lemma_address_by_bytes(a, b);
    }
    if payment_seeds(a, b) == payment_seeds(c, d) {
        assert(payment_seeds(a, b)[1] == payment_seeds(c, d)[1]);
        assert(payment_seeds(a, b)[2] == payment_seeds(c, d)[2]);
        lemma_address_by_bytes(a, c);
        lemma_address_by_bytes(b, d);
    }
    assert(merchant_seeds(a).len() != payment_seeds(b, c).len());
}

} // verus!
