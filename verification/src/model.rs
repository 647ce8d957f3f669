//! The registry as a mathematical object: a map from addresses to records,
//! and what makes such a map a state that the operations can reach.

use crate::address::Address;
use crate::records::{Acknowledgment, Attachment, ObjectProfile, ObjectsRelation, Record};
use crate::slots::{
    acknowledgment_lives_at, profile_attachment_lives_at, profile_attachment_slot,
    profile_lives_at, relation_attachment_lives_at, relation_attachment_slot, relation_lives_at,
};
use vstd::prelude::*;

verus! {

/// The profile at an address, if the address holds one.
pub open spec fn profile_at(s: Map<Address, Record>, address: Address) -> Option<ObjectProfile> {
    if s.contains_key(address) {
        match s[address] {
            Record::Profile(p) => Some(p),
            _ => None,
        }
    } else {
        None
    }
}

/// The relation at an address, if the address holds one.
pub open spec fn relation_at(s: Map<Address, Record>, address: Address) -> Option<ObjectsRelation> {
    if s.contains_key(address) {
        match s[address] {
            Record::Relation(r) => Some(r),
            _ => None,
        }
    } else {
        None
    }
}

/// The attachment at an address, if the address holds one.
pub open spec fn attachment_at(s: Map<Address, Record>, address: Address) -> Option<Attachment> {
    if s.contains_key(address) {
        match s[address] {
            Record::Attachment(t) => Some(t),
            _ => None,
        }
    } else {
        None
    }
}

/// The acknowledgment at an address, if the address holds one.
pub open spec fn acknowledgment_at(s: Map<Address, Record>, address: Address) -> Option<
    Acknowledgment,
> {
    if s.contains_key(address) {
        match s[address] {
            Record::Acknowledgment(k) => Some(k),
            _ => None,
        }
    } else {
        None
    }
}

/// The slot holds the attachment with the given index on the given parent.
pub open spec fn holds_attachment(
    s: Map<Address, Record>,
    slot: Option<(Address, u8)>,
    parent: Address,
    index: u8,
) -> bool {
    &&& slot matches Some((address, bump))
    &&& attachment_at(s, address) matches Some(t)
    &&& t.entity_address == parent
    &&& t.index == index
    &&& t.bump == bump
}

/// The two addresses hold relations that point at one profile, and one of
/// them starts at the given profile.
pub open spec fn links(s: Map<Address, Record>, ac: Address, bc: Address, profile: Address) -> bool {
    &&& relation_at(s, ac) matches Some(relation_ac)
    &&& relation_at(s, bc) matches Some(relation_bc)
    &&& relation_ac.object_b_profile_address == relation_bc.object_b_profile_address
    &&& (relation_ac.object_a_profile_address == profile || relation_bc.object_a_profile_address
        == profile)
}

/// Some pair of relations links the given profile to a common target.
pub open spec fn triangulated(s: Map<Address, Record>, profile: Address) -> bool {
    exists|ac: Address, bc: Address| links(s, ac, bc, profile)
}

/// A profile is in order: it lives where its external address leads, its
/// owner is that address, and its attachments have the indices below its
/// counter, without a gap.
pub open spec fn valid_profile(s: Map<Address, Record>, address: Address, p: ObjectProfile) -> bool {
    &&& profile_lives_at(p.object_address, address, p.bump)
    &&& p.authority == p.object_address
    &&& forall|i: u8|
        i < p.next_attachment_index ==> #[trigger] holds_attachment(
            s,
            profile_attachment_slot(address, i),
            address,
            i,
        )
}

/// A relation is in order: it lives where its two profiles lead, they exist
/// and differ, its creator owns the source, and its attachments have the
/// indices below its counter, without a gap.
pub open spec fn valid_relation(s: Map<Address, Record>, address: Address, r: ObjectsRelation) -> bool {
    &&& relation_lives_at(
        r.object_a_profile_address,
        r.object_b_profile_address,
        address,
        r.bump,
    )
    &&& r.object_a_profile_address != r.object_b_profile_address
    &&& profile_at(s, r.object_a_profile_address) matches Some(source)
    &&& r.created_by == source.authority
    &&& profile_at(s, r.object_b_profile_address) is Some
    &&& forall|i: u8|
        i < r.next_attachment_index ==> #[trigger] holds_attachment(
            s,
            relation_attachment_slot(address, i),
            address,
            i,
        )
}

/// An attachment is in order: its parent exists, it lives where the parent
/// and its index lead, the index is below the parent's counter, and its author
/// is the one who may write on the parent.
pub open spec fn valid_attachment(s: Map<Address, Record>, address: Address, t: Attachment) -> bool {
    if s.contains_key(t.entity_address) {
        match s[t.entity_address] {
            Record::Profile(p) => {
                &&& profile_attachment_lives_at(t.entity_address, t.index, address, t.bump)
                &&& t.index < p.next_attachment_index
                &&& t.created_by == p.authority
            },
            Record::Relation(r) => {
                &&& relation_attachment_lives_at(t.entity_address, t.index, address, t.bump)
                &&& t.index < r.next_attachment_index
                &&& t.created_by == r.created_by
            },
            _ => false,
        }
    } else {
        false
    }
}

/// An acknowledgment is in order: it lives where its attachment leads, the
/// attachment exists and has the same index, the acknowledger is not the
/// attachment's author, and two relations link the attachment's parent to a
/// common target.
pub open spec fn valid_acknowledgment(
    s: Map<Address, Record>,
    address: Address,
    k: Acknowledgment,
) -> bool {
    &&& acknowledgment_lives_at(k.entity_address, address, k.bump)
    &&& attachment_at(s, k.entity_address) matches Some(t)
    &&& k.index == t.index
    &&& k.created_by != t.created_by
    &&& triangulated(s, t.entity_address)
}

/// The record is in order at its address.
pub open spec fn valid_record(s: Map<Address, Record>, address: Address, record: Record) -> bool {
    match record {
        Record::Profile(p) => valid_profile(s, address, p),
        Record::Relation(r) => valid_relation(s, address, r),
        Record::Attachment(t) => valid_attachment(s, address, t),
        Record::Acknowledgment(k) => valid_acknowledgment(s, address, k),
    }
}

/// Every record of the state is in order. The operations start from the empty
/// state and keep this.
pub open spec fn valid_state(s: Map<Address, Record>) -> bool {
    forall|address: Address| #[trigger] s.contains_key(address) ==> valid_record(s, address, s[address])
}

/// The second record is the first, or the first with a counter that has moved on.
pub open spec fn grown(before: Record, after: Record) -> bool {
    match before {
        Record::Profile(p) => after matches Record::Profile(q) && q == (ObjectProfile {
            next_attachment_index: q.next_attachment_index,
            ..p
        }) && p.next_attachment_index <= q.next_attachment_index,
        Record::Relation(r) => after matches Record::Relation(q) && q == (ObjectsRelation {
            next_attachment_index: q.next_attachment_index,
            ..r
        }) && r.next_attachment_index <= q.next_attachment_index,
        _ => after == before,
    }
}

/// The second state keeps every record of the first, up to counters that have
/// moved on.
pub open spec fn extends(before: Map<Address, Record>, after: Map<Address, Record>) -> bool {
    forall|address: Address| #[trigger]
        before.contains_key(address) ==> after.contains_key(address) && grown(
            before[address],
            after[address],
        )
}

/// An attachment that a slot holds is still there in every state that extends
/// the first.
proof fn lemma_holds_attachment_carries(
    before: Map<Address, Record>,
    after: Map<Address, Record>,
    slot: Option<(Address, u8)>,
    parent: Address,
    index: u8,
)
    requires
        extends(before, after),
        holds_attachment(before, slot, parent, index),
    ensures
        holds_attachment(after, slot, parent, index),
{
    let (address, _) = slot.unwrap();
    assert(before.contains_key(address));
}

/// Two relations that link a profile to a common target still do so in every
/// state that extends the first.
proof fn lemma_links_carry(
    before: Map<Address, Record>,
    after: Map<Address, Record>,
    ac: Address,
    bc: Address,
    profile: Address,
)
    requires
        extends(before, after),
        links(before, ac, bc, profile),
    ensures
        links(after, ac, bc, profile),
{
    assert(before.contains_key(ac));
    assert(before.contains_key(bc));
}

/// A record that was in order in a state, and has not changed, is in order in
/// every state that extends it.
proof fn lemma_valid_record_carries(
    before: Map<Address, Record>,
    after: Map<Address, Record>,
    address: Address,
    record: Record,
)
    requires
        extends(before, after),
        valid_record(before, address, record),
    ensures
        valid_record(after, address, record),
{
    match record {
        Record::Profile(p) => {
            assert forall|i: u8| i < p.next_attachment_index implies #[trigger] holds_attachment(
                after,
                profile_attachment_slot(address, i),
                address,
                i,
            ) by {
                lemma_holds_attachment_carries(
                    before,
                    after,
                    profile_attachment_slot(address, i),
                    address,
                    i,
                );
            }
        },
        Record::Relation(r) => {
            assert(before.contains_key(r.object_a_profile_address));
            assert(before.contains_key(r.object_b_profile_address));
            assert forall|i: u8| i < r.next_attachment_index implies #[trigger] holds_attachment(
                after,
                relation_attachment_slot(address, i),
                address,
                i,
            ) by {
                lemma_holds_attachment_carries(
                    before,
                    after,
                    relation_attachment_slot(address, i),
                    address,
                    i,
                );
            }
        },
        Record::Attachment(t) => {
            assert(before.contains_key(t.entity_address));
        },
        Record::Acknowledgment(k) => {
            assert(before.contains_key(k.entity_address));
            let t = attachment_at(before, k.entity_address)->0;
            let (ac, bc) = choose|ac: Address, bc: Address| links(before, ac, bc, t.entity_address);
            lemma_links_carry(before, after, ac, bc, t.entity_address);
        },
    }
}

/// A state that extends a valid one is valid as soon as its new records, and
/// those whose counter has moved, are in order.
pub(crate) proof fn lemma_extension_valid(before: Map<Address, Record>, after: Map<Address, Record>)
    requires
        valid_state(before),
        extends(before, after),
        forall|address: Address| #[trigger]
            after.contains_key(address) && !(before.contains_key(address) && before[address]
                == after[address]) ==> valid_record(after, address, after[address]),
    ensures
        valid_state(after),
{
    assert forall|address: Address| #[trigger] after.contains_key(address) implies valid_record(
        after,
        address,
        after[address],
    ) by {
        if before.contains_key(address) && before[address] == after[address] {
            lemma_valid_record_carries(before, after, address, before[address]);
        }
    }
}

} // verus!
