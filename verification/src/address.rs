//! Addresses, and the derivation of a record's address from its key fields.
//!
//! A record is stored at the address derived from a namespace tag and the
//! record's key fields. The derivation is the registry's only way to a record:
//! the same tag and fields always lead to the same address.

use anchor_lang::prelude::Pubkey;
use vstd::prelude::*;
use vstd::slice::slice_to_vec;

verus! {

/// A 32-byte address: an external identity, or the place of a record.
#[derive(Clone, Copy, Debug, Eq)]
pub struct Address {
    pub bytes: [u8; 32],
}

impl View for Address {
    type V = Seq<u8>;

    open spec fn view(&self) -> Seq<u8> {
        self.bytes@
    }
}

impl PartialEq for Address {
    fn eq(&self, other: &Address) -> (r: bool) {
        let mut i: usize = 0;
        while i < 32
            invariant
                i <= 32,
                forall|j: int| 0 <= j < i ==> self.bytes[j] == other.bytes[j],
            decreases 32 - i,
        {
            if self.bytes[i] != other.bytes[i] {
                return false;
            }
            i += 1;
        }
        assert(self.bytes =~= other.bytes);
        true
    }
}

impl vstd::std_specs::cmp::PartialEqSpecImpl for Address {
    open spec fn obeys_eq_spec() -> bool {
        true
    }

    open spec fn eq_spec(&self, other: &Address) -> bool {
        *self == *other
    }
}

impl Default for Address {
    fn default() -> (r: Address)
        ensures
            r@ == Seq::new(32, |i: int| 0u8),
    {
        let r = Address { bytes: [0u8; 32] };
        assert(r@ =~= Seq::new(32, |i: int| 0u8));
        r
    }
}

impl Address {
    /// The address with the given bytes, for a sequence of 32 bytes.
    pub open spec fn from_seq(bytes: Seq<u8>) -> Address {
        Address { bytes: choose|b: [u8; 32]| b@ == bytes }
    }

    /// The address with the given bytes.
    pub fn new(bytes: [u8; 32]) -> (r: Address)
        ensures
            r.bytes == bytes,
    {
        Address { bytes }
    }

    /// The address as a vector of its 32 bytes, as a key field of a derivation.
    pub fn to_vec(&self) -> (v: Vec<u8>)
        ensures
            v@ == self@,
    {
        slice_to_vec(self.bytes.as_slice())
    }

    /// Whether the address is a point of the curve on which external identities
    /// lie. No derived address is.
    pub fn is_on_curve(&self) -> (r: bool)
        ensures
            r == on_curve(self@),
    {
        bytes_on_curve(&self.bytes)
    }
}

/// An address is the one that its own bytes stand for.
pub proof fn lemma_from_seq_view(a: Address)
    ensures
        Address::from_seq(a@) == a,
{
    let b = choose|b: [u8; 32]| b@ == a@;
    assert(a.bytes@ == a@);
    assert(b@ == a@);
    assert(b =~= a.bytes);
}

/// The identity under which every address of the registry is derived.
pub const PROGRAM_ID: [u8; 32] = [
    196, 33, 164, 204, 89, 72, 199, 203, 75, 86, 57, 131, 111, 30, 85, 55,
    33, 121, 252, 48, 102, 56, 48, 170, 120, 12, 150, 138, 108, 167, 52, 36,
];

/// Namespace tag of profiles: `object_profile`.
pub const PROFILE_TAG: [u8; 14] = [
    111, 98, 106, 101, 99, 116, 95, 112, 114, 111, 102, 105, 108, 101,
];

/// Namespace tag of attachments on a profile: `object_profile_attachment`.
pub const PROFILE_ATTACHMENT_TAG: [u8; 25] = [
    111, 98, 106, 101, 99, 116, 95, 112, 114, 111, 102, 105, 108, 101, 95,
    97, 116, 116, 97, 99, 104, 109, 101, 110, 116,
];

/// Namespace tag of relations: `objects_relation`.
pub const RELATION_TAG: [u8; 16] = [
    111, 98, 106, 101, 99, 116, 115, 95, 114, 101, 108, 97, 116, 105, 111, 110,
];

/// Namespace tag of attachments on a relation: `objects_relation_attachment`.
pub const RELATION_ATTACHMENT_TAG: [u8; 27] = [
    111, 98, 106, 101, 99, 116, 115, 95, 114, 101, 108, 97, 116, 105, 111, 110, 95,
    97, 116, 116, 97, 99, 104, 109, 101, 110, 116,
];

/// Namespace tag of acknowledgments: `acknowledgement`.
pub const ACKNOWLEDGMENT_TAG: [u8; 15] = [
    97, 99, 107, 110, 111, 119, 108, 101, 100, 103, 101, 109, 101, 110, 116,
];

/// The byte strings that a vector of byte vectors holds, in order.
pub open spec fn byte_strings(v: Seq<Vec<u8>>) -> Seq<Seq<u8>> {
    Seq::new(v.len(), |i: int| v[i]@)
}

/// What `Pubkey::try_find_program_address` returns for the given seeds and
/// program identity: the derived address with its bump seed, or nothing.
pub uninterp spec fn program_address(seeds: Seq<Seq<u8>>, program_id: Seq<u8>) -> Option<
    (Seq<u8>, u8),
>;

/// What `Pubkey::create_program_address` returns for the given seeds and
/// program identity: the address that they hash to, or nothing where it
/// reports an error.
pub uninterp spec fn seeded_address(seeds: Seq<Seq<u8>>, program_id: Seq<u8>) -> Option<Seq<u8>>;

/// What `Pubkey::is_on_curve` returns for the address with the given bytes.
pub uninterp spec fn on_curve(bytes: Seq<u8>) -> bool;

/// Calls `Pubkey::try_find_program_address`. The result is a function of the
/// seeds and the program identity alone, named `program_address`. That function
/// tries bump seeds from 255 downwards and returns the first one, with its
/// address, for which `Pubkey::create_program_address` accepts the seeds
/// followed by the bump seed; and `Pubkey::create_program_address` returns an
/// address only after it has tested that the address is not a point of the
/// curve, with the test that `Pubkey::is_on_curve` makes.
#[verifier::external_body]
fn find_program_address(seeds: &Vec<Vec<u8>>, program_id: &[u8; 32]) -> (r: Option<([u8; 32], u8)>)
    ensures
        program_address(byte_strings(seeds@), program_id@) == match r {
            Some((key, bump)) => Some((key@, bump)),
            None => None,
        },
        r matches Some((key, bump)) ==> seeded_address(
            byte_strings(seeds@).push(seq![bump]),
            program_id@,
        ) == Some(key@),
        r matches Some((key, _)) ==> !on_curve(key@),
{
    let parts: Vec<&[u8]> = seeds.iter().map(|s| s.as_slice()).collect();
    match Pubkey::try_find_program_address(&parts, &Pubkey::new_from_array(*program_id)) {
        Some((key, bump)) => Some((key.to_bytes(), bump)),
        None => None,
    }
}

/// Calls `Pubkey::create_program_address`. The result is a function of the
/// seeds and the program identity alone, named `seeded_address`; an error of
/// either kind, seeds that are too many or too long and seeds that hash to a
/// point of the curve, comes back as `None`. An address that is returned has
/// passed the test that `Pubkey::is_on_curve` makes.
#[verifier::external_body]
fn create_program_address(seeds: &Vec<Vec<u8>>, program_id: &[u8; 32]) -> (r: Option<[u8; 32]>)
    ensures
        seeded_address(byte_strings(seeds@), program_id@) == match r {
            Some(key) => Some(key@),
            None => None,
        },
        r matches Some(key) ==> !on_curve(key@),
{
    let parts: Vec<&[u8]> = seeds.iter().map(|s| s.as_slice()).collect();
    match Pubkey::create_program_address(&parts, &Pubkey::new_from_array(*program_id)) {
        Ok(key) => Some(key.to_bytes()),
        Err(_) => None,
    }
}

/// Calls `Pubkey::is_on_curve` on the address with the given bytes. The result
/// is a function of the bytes alone, named `on_curve`.
#[verifier::external_body]
fn bytes_on_curve(bytes: &[u8; 32]) -> (r: bool)
    ensures
        r == on_curve(bytes@),
{
    Pubkey::new_from_array(*bytes).is_on_curve()
}

/// The address and disambiguator that belong to a namespace tag and a list of
/// key fields, if there are any.
pub open spec fn derived(tag: Seq<u8>, keys: Seq<Seq<u8>>) -> Option<(Address, u8)> {
    match program_address(seq![tag] + keys, PROGRAM_ID@) {
        Some((bytes, bump)) => Some((Address::from_seq(bytes), bump)),
        None => None,
    }
}

/// The address that a namespace tag, a list of key fields and a given
/// disambiguator lead to, if they lead anywhere.
pub open spec fn rederived(tag: Seq<u8>, keys: Seq<Seq<u8>>, bump: u8) -> Option<Address> {
    match seeded_address((seq![tag] + keys).push(seq![bump]), PROGRAM_ID@) {
        Some(bytes) => Some(Address::from_seq(bytes)),
        None => None,
    }
}

/// The record with the given tag and key fields lives at the address, and
/// keeps the disambiguator: the address is the derived one, and the tag, the
/// key fields and the disambiguator lead back to it without a search.
pub open spec fn anchored(tag: Seq<u8>, keys: Seq<Seq<u8>>, address: Address, bump: u8) -> bool {
    &&& derived(tag, keys) == Some((address, bump))
    &&& rederived(tag, keys, bump) == Some(address)
}

/// The tag followed by the key fields, each as a vector of its own.
fn seeds_of(tag: &[u8], keys: &Vec<Vec<u8>>) -> (seeds: Vec<Vec<u8>>)
    ensures
        byte_strings(seeds@) == seq![tag@] + byte_strings(keys@),
{
    let mut seeds: Vec<Vec<u8>> = Vec::new();
    seeds.push(slice_to_vec(tag));
    let mut i: usize = 0;
    while i < keys.len()
        invariant
            i <= keys.len(),
            seeds.len() == i + 1,
            seeds[0]@ == tag@,
            forall|j: int| 0 <= j < i ==> seeds[j + 1]@ == keys[j]@,
        decreases keys.len() - i,
    {
        seeds.push(slice_to_vec(keys[i].as_slice()));
        i += 1;
    }
    assert(byte_strings(seeds@) =~= seq![tag@] + byte_strings(keys@));
    seeds
}

/// Derives the address of the record with the given namespace tag and key
/// fields, together with the disambiguator that makes the address one that no
/// external identity can have.
///
/// The result depends on the tag and the key fields alone: the same arguments
/// give the same address and disambiguator on every call. The disambiguator
/// leads back to the address without a search. Where no disambiguator fits,
/// the result is `None`.
pub fn derive_address(tag: &[u8], keys: &Vec<Vec<u8>>) -> (r: Option<(Address, u8)>)
    ensures
        r == derived(tag@, byte_strings(keys@)),
        r matches Some((address, bump)) ==> anchored(tag@, byte_strings(keys@), address, bump),
        r matches Some((address, _)) ==> !on_curve(address@),
{
    let seeds = seeds_of(tag, keys);
    match find_program_address(&seeds, &PROGRAM_ID) {
        Some((bytes, bump)) => {
            let address = Address { bytes };
            proof {
                lemma_from_seq_view(address);
            }
            Some((address, bump))
        },
        None => None,
    }
}

/// Derives again, from the disambiguator that a record keeps, the address of
/// the record with the given namespace tag and key fields. No search is made:
/// the result is `None` where the key fields with this disambiguator lead to a
/// point of the curve, or are too many or too long to be used.
pub fn rederive_address(tag: &[u8], keys: &Vec<Vec<u8>>, bump: u8) -> (r: Option<Address>)
    ensures
        r == rederived(tag@, byte_strings(keys@), bump),
        r matches Some(address) ==> !on_curve(address@),
{
    let mut seeds = seeds_of(tag, keys);
    let mut last: Vec<u8> = Vec::new();
    last.push(bump);
    assert(last@ =~= seq![bump]);
    seeds.push(last);
    assert(byte_strings(seeds@) =~= (seq![tag@] + byte_strings(keys@)).push(seq![bump]));
    match create_program_address(&seeds, &PROGRAM_ID) {
        Some(bytes) => {
            let address = Address { bytes };
            proof {
                lemma_from_seq_view(address);
            }
            Some(address)
        },
        None => None,
    }
}

} // verus!
