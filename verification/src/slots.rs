//! Where each kind of record lives: the address derived from the kind's
//! namespace tag and the record's key fields.

use crate::address::{
    anchored, byte_strings, derive_address, derived, on_curve, Address, ACKNOWLEDGMENT_TAG,
    PROFILE_ATTACHMENT_TAG, PROFILE_TAG, RELATION_ATTACHMENT_TAG, RELATION_TAG,
};
use vstd::prelude::*;

verus! {

/// Where the profile of an external address lives.
pub open spec fn profile_slot(object_address: Address) -> Option<(Address, u8)> {
    derived(PROFILE_TAG@, seq![object_address@])
}

/// Where the relation from one profile to another lives.
pub open spec fn relation_slot(source: Address, target: Address) -> Option<(Address, u8)> {
    derived(RELATION_TAG@, seq![source@, target@])
}

/// Where the attachment with the given index on a profile lives.
pub open spec fn profile_attachment_slot(profile: Address, index: u8) -> Option<(Address, u8)> {
    derived(PROFILE_ATTACHMENT_TAG@, seq![profile@, seq![index]])
}

/// Where the attachment with the given index on a relation lives.
pub open spec fn relation_attachment_slot(relation: Address, index: u8) -> Option<(Address, u8)> {
    derived(RELATION_ATTACHMENT_TAG@, seq![relation@, seq![index]])
}

/// Where the acknowledgment of an attachment lives.
pub open spec fn acknowledgment_slot(attachment: Address) -> Option<(Address, u8)> {
    derived(ACKNOWLEDGMENT_TAG@, seq![attachment@])
}

/// The profile of the external address lives at the address and keeps the
/// disambiguator.
pub open spec fn profile_lives_at(object_address: Address, address: Address, bump: u8) -> bool {
    anchored(PROFILE_TAG@, seq![object_address@], address, bump)
}

/// The relation from one profile to another lives at the address and keeps
/// the disambiguator.
pub open spec fn relation_lives_at(
    source: Address,
    target: Address,
    address: Address,
    bump: u8,
) -> bool {
    anchored(RELATION_TAG@, seq![source@, target@], address, bump)
}

/// The attachment with the given index on a profile lives at the address and
/// keeps the disambiguator.
pub open spec fn profile_attachment_lives_at(
    profile: Address,
    index: u8,
    address: Address,
    bump: u8,
) -> bool {
    anchored(PROFILE_ATTACHMENT_TAG@, seq![profile@, seq![index]], address, bump)
}

/// The attachment with the given index on a relation lives at the address and
/// keeps the disambiguator.
pub open spec fn relation_attachment_lives_at(
    relation: Address,
    index: u8,
    address: Address,
    bump: u8,
) -> bool {
    anchored(RELATION_ATTACHMENT_TAG@, seq![relation@, seq![index]], address, bump)
}

/// The acknowledgment of an attachment lives at the address and keeps the
/// disambiguator.
pub open spec fn acknowledgment_lives_at(attachment: Address, address: Address, bump: u8) -> bool {
    anchored(ACKNOWLEDGMENT_TAG@, seq![attachment@], address, bump)
}

/// Derives the address of the profile of an external address.
pub fn profile_address(object_address: &Address) -> (r: Option<(Address, u8)>)
    ensures
        r == profile_slot(*object_address),
        r matches Some((address, bump)) ==> profile_lives_at(*object_address, address, bump),
        r matches Some((address, _)) ==> !on_curve(address@),
{
    let mut keys: Vec<Vec<u8>> = Vec::new();
    keys.push(object_address.to_vec());
    assert(byte_strings(keys@) =~= seq![object_address@]);
    derive_address(PROFILE_TAG.as_slice(), &keys)
}

/// Derives the address of the relation from one profile to another, each given
/// by the address of its profile record.
pub fn relation_address(source: &Address, target: &Address) -> (r: Option<(Address, u8)>)
    ensures
        r == relation_slot(*source, *target),
        r matches Some((address, bump)) ==> relation_lives_at(*source, *target, address, bump),
        r matches Some((address, _)) ==> !on_curve(address@),
{
    let mut keys: Vec<Vec<u8>> = Vec::new();
    keys.push(source.to_vec());
    keys.push(target.to_vec());
    assert(byte_strings(keys@) =~= seq![source@, target@]);
    derive_address(RELATION_TAG.as_slice(), &keys)
}

/// The key fields of an attachment: the parent's address and the index.
pub(crate) fn attachment_keys(parent: &Address, index: u8) -> (keys: Vec<Vec<u8>>)
    ensures
        byte_strings(keys@) == seq![parent@, seq![index]],
{
    let mut keys: Vec<Vec<u8>> = Vec::new();
    keys.push(parent.to_vec());
    let mut last: Vec<u8> = Vec::new();
    last.push(index);
    assert(last@ =~= seq![index]);
    keys.push(last);
    assert(byte_strings(keys@) =~= seq![parent@, seq![index]]);
    keys
}

/// Derives the address of the attachment with the given index on a profile.
pub fn profile_attachment_address(profile: &Address, index: u8) -> (r: Option<(Address, u8)>)
    ensures
        r == profile_attachment_slot(*profile, index),
        r matches Some((address, bump)) ==> profile_attachment_lives_at(
            *profile,
            index,
            address,
            bump,
        ),
        r matches Some((address, _)) ==> !on_curve(address@),
{
    let keys = attachment_keys(profile, index);
    derive_address(PROFILE_ATTACHMENT_TAG.as_slice(), &keys)
}

/// Derives the address of the attachment with the given index on a relation.
pub fn relation_attachment_address(relation: &Address, index: u8) -> (r: Option<(Address, u8)>)
    ensures
        r == relation_attachment_slot(*relation, index),
        r matches Some((address, bump)) ==> relation_attachment_lives_at(
            *relation,
            index,
            address,
            bump,
        ),
        r matches Some((address, _)) ==> !on_curve(address@),
{
    let keys = attachment_keys(relation, index);
    derive_address(RELATION_ATTACHMENT_TAG.as_slice(), &keys)
}

/// Derives the address of the acknowledgment of an attachment.
pub fn acknowledgment_address(attachment: &Address) -> (r: Option<(Address, u8)>)
    ensures
        r == acknowledgment_slot(*attachment),
        r matches Some((address, bump)) ==> acknowledgment_lives_at(*attachment, address, bump),
        r matches Some((address, _)) ==> !on_curve(address@),
{
    let mut keys: Vec<Vec<u8>> = Vec::new();
    keys.push(attachment.to_vec());
    assert(byte_strings(keys@) =~= seq![attachment@]);
    derive_address(ACKNOWLEDGMENT_TAG.as_slice(), &keys)
}

} // verus!
