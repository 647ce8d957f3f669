//! What holds of every valid state of the registry.

use crate::address::Address;
use crate::model::{
    acknowledgment_at, attachment_at, extends, grown, holds_attachment, profile_at, relation_at,
    valid_record, valid_state,
};
use crate::records::Record;
use crate::slots::{profile_attachment_slot, relation_attachment_slot};
use vstd::prelude::*;

verus! {

/// An external address has at most one profile: two profiles of one external
/// address are one record.
pub proof fn lemma_one_profile_per_address(s: Map<Address, Record>, first: Address, second: Address)
    requires
        valid_state(s),
        profile_at(s, first) matches Some(p) && profile_at(s, second) matches Some(q)
            && p.object_address == q.object_address,
    ensures
        first == second,
{
    assert(valid_record(s, first, s[first]));
    assert(valid_record(s, second, s[second]));
}

/// An ordered pair of profiles has at most one relation: two relations with
/// the same source and the same target are one record.
pub proof fn lemma_one_relation_per_pair(s: Map<Address, Record>, first: Address, second: Address)
    requires
        valid_state(s),
        relation_at(s, first) matches Some(p) && relation_at(s, second) matches Some(q)
            && p.object_a_profile_address == q.object_a_profile_address
            && p.object_b_profile_address == q.object_b_profile_address,
    ensures
        first == second,
{
    assert(valid_record(s, first, s[first]));
    assert(valid_record(s, second, s[second]));
}

/// A parent has at most one attachment with a given index: two attachments
/// with the same parent and the same index are one record.
pub proof fn lemma_one_attachment_per_index(s: Map<Address, Record>, first: Address, second: Address)
    requires
        valid_state(s),
        attachment_at(s, first) matches Some(t) && attachment_at(s, second) matches Some(u)
            && t.entity_address == u.entity_address && t.index == u.index,
    ensures
        first == second,
{
    assert(valid_record(s, first, s[first]));
    assert(valid_record(s, second, s[second]));
}

/// An attachment has at most one acknowledgment: two acknowledgments of one
/// attachment are one record.
pub proof fn lemma_one_acknowledgment_per_attachment(
    s: Map<Address, Record>,
    first: Address,
    second: Address,
)
    requires
        valid_state(s),
        acknowledgment_at(s, first) matches Some(k) && acknowledgment_at(s, second) matches Some(
            l,
        ) && k.entity_address == l.entity_address,
    ensures
        first == second,
{
    assert(valid_record(s, first, s[first]));
    assert(valid_record(s, second, s[second]));
}

/// The attachments on a profile have the indices 0, 1, 2, ... up to the
/// profile's counter, without a gap: each index below the counter has its
/// attachment, and that attachment lives where the profile and the index lead.
pub proof fn lemma_profile_attachments_gap_free(s: Map<Address, Record>, profile: Address, index: u8)
    requires
        valid_state(s),
        profile_at(s, profile) matches Some(p) && index < p.next_attachment_index,
    ensures
        holds_attachment(s, profile_attachment_slot(profile, index), profile, index),
{
    assert(valid_record(s, profile, s[profile]));
}

/// The attachments on a relation have the indices 0, 1, 2, ... up to the
/// relation's counter, without a gap.
pub proof fn lemma_relation_attachments_gap_free(
    s: Map<Address, Record>,
    relation: Address,
    index: u8,
)
    requires
        valid_state(s),
        relation_at(s, relation) matches Some(r) && index < r.next_attachment_index,
    ensures
        holds_attachment(s, relation_attachment_slot(relation, index), relation, index),
{
    assert(valid_record(s, relation, s[relation]));
}

/// No attachment has an index that its parent's counter has not passed yet:
/// the counter is the number of attachments that the parent has, and the next
/// one gets the first index that is free.
pub proof fn lemma_attachment_below_counter(s: Map<Address, Record>, attachment: Address)
    requires
        valid_state(s),
        attachment_at(s, attachment) is Some,
    ensures
        ({
            let t = attachment_at(s, attachment).unwrap();
            match (profile_at(s, t.entity_address), relation_at(s, t.entity_address)) {
                (Some(p), _) => t.index < p.next_attachment_index && t.created_by == p.authority,
                (_, Some(r)) => t.index < r.next_attachment_index && t.created_by == r.created_by,
                _ => false,
            }
        }),
{
    assert(valid_record(s, attachment, s[attachment]));
}

/// Whoever created a relation owns its source, and a relation never leads
/// from a profile to itself.
pub proof fn lemma_relation_by_owner(s: Map<Address, Record>, relation: Address)
    requires
        valid_state(s),
        relation_at(s, relation) is Some,
    ensures
        ({
            let r = relation_at(s, relation).unwrap();
            &&& r.object_a_profile_address != r.object_b_profile_address
            &&& profile_at(s, r.object_a_profile_address) matches Some(source)
            &&& r.created_by == source.authority
            &&& profile_at(s, r.object_b_profile_address) is Some
        }),
{
    assert(valid_record(s, relation, s[relation]));
}

/// An acknowledgment never comes from the author of the attachment that it
/// acknowledges, and it carries the attachment's index.
pub proof fn lemma_acknowledgment_by_another(s: Map<Address, Record>, acknowledgment: Address)
    requires
        valid_state(s),
        acknowledgment_at(s, acknowledgment) is Some,
    ensures
        ({
            let k = acknowledgment_at(s, acknowledgment).unwrap();
            &&& attachment_at(s, k.entity_address) matches Some(t)
            &&& k.created_by != t.created_by
            &&& k.index == t.index
        }),
{
    assert(valid_record(s, acknowledgment, s[acknowledgment]));
}

/// Every record keeps the disambiguator of its own address: its key fields
/// and that disambiguator lead back to the address where it lives, without a
/// search.
pub proof fn lemma_record_leads_back(s: Map<Address, Record>, address: Address)
    requires
        valid_state(s),
        s.contains_key(address),
    ensures
        match s[address] {
            Record::Profile(p) => p.leads_to(address),
            Record::Relation(r) => r.leads_to(address),
            Record::Attachment(t) => if profile_at(s, t.entity_address) is Some {
                t.leads_to_on_profile(address)
            } else {
                t.leads_to_on_relation(address)
            },
            Record::Acknowledgment(k) => k.leads_to(address),
        },
{
    assert(valid_record(s, address, s[address]));
}

/// Records are never removed, and never changed but for a counter that
/// moves on: this holds over any number of operations, as it holds over one.
pub proof fn lemma_extends_transitive(
    first: Map<Address, Record>,
    second: Map<Address, Record>,
    third: Map<Address, Record>,
)
    requires
        extends(first, second),
        extends(second, third),
    ensures
        extends(first, third),
{
    assert forall|address: Address| #[trigger] first.contains_key(address) implies third.contains_key(
        address,
    ) && grown(first[address], third[address]) by {
        assert(second.contains_key(address));
    }
}

} // verus!
