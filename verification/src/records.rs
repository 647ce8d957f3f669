//! The four kinds of record that the registry keeps.
//!
//! A record holds plain values only. It refers to another record by that
//! record's address, never by a reference, so records cannot form cycles of
//! ownership.

use crate::address::{
    byte_strings, rederive_address, rederived, Address, ACKNOWLEDGMENT_TAG, PROFILE_ATTACHMENT_TAG, PROFILE_TAG,
    RELATION_ATTACHMENT_TAG, RELATION_TAG,
};
use crate::error::DelinkError;
use crate::slots::attachment_keys;
use vstd::prelude::*;

verus! {

/// The creation time that a record keeps of the ledger's clock, which counts
/// seconds in 64 bits: the low 32 bits of it.
pub open spec fn spec_creation_time(unix_timestamp: i64) -> u32 {
    (unix_timestamp % 0x1_0000_0000) as u32
}

#[verifier::when_used_as_spec(spec_creation_time)]
pub fn creation_time(unix_timestamp: i64) -> (r: u32)
    ensures
        r == spec_creation_time(unix_timestamp),
        0 <= unix_timestamp <= u32::MAX ==> r == unix_timestamp,
{
    assert((unix_timestamp as u32) == (unix_timestamp % 0x1_0000_0000)) by (bit_vector);
    #[verifier::truncate]
    (unix_timestamp as u32)
}

/// The sequence of `n` zero bytes.
pub open spec fn zero_bytes(n: nat) -> Seq<u8> {
    Seq::new(n, |i: int| 0u8)
}

/// Anchors an external address to the identity that owns it.
#[derive(Clone, Copy, Debug, PartialEq, Eq)]
pub struct ObjectProfile {
    /// The external address that the profile stands for.
    pub object_address: Address,
    /// The owner, set at creation and never changed.
    pub authority: Address,
    /// The index that the next attachment on this profile gets.
    pub next_attachment_index: u8,
    pub created_at: u32,
    /// The disambiguator of the profile's own address.
    pub bump: u8,
}

impl Default for ObjectProfile {
    fn default() -> (r: ObjectProfile)
        ensures
            r.object_address@ == zero_bytes(32),
            r.authority@ == zero_bytes(32),
            r.next_attachment_index == 0,
            r.created_at == 0,
            r.bump == 0,
    {
        ObjectProfile {
            object_address: Address::default(),
            authority: Address::default(),
            next_attachment_index: 0,
            created_at: 0,
            bump: 0,
        }
    }
}

impl ObjectProfile {
    /// Fills in a new profile: the counter starts at 0.
    pub fn init(&mut self, object_address: Address, authority: Address, bump: u8, unix_timestamp: i64)
        ensures
            *final(self) == (ObjectProfile {
                object_address,
                authority,
                next_attachment_index: 0,
                created_at: spec_creation_time(unix_timestamp),
                bump,
            }),
    {
        self.object_address = object_address;
        self.authority = authority;
        self.next_attachment_index = 0;
        self.created_at = creation_time(unix_timestamp);
        self.bump = bump;
    }

    /// The profile's external address and the disambiguator that it keeps
    /// lead to the given address.
    pub open spec fn leads_to(self, address: Address) -> bool {
        rederived(PROFILE_TAG@, seq![self.object_address@], self.bump) == Some(address)
    }

    /// Tests, without a search, that the profile belongs at the given address.
    pub fn belongs_at(&self, address: &Address) -> (r: bool)
        ensures
            r == self.leads_to(*address),
    {
        let mut keys: Vec<Vec<u8>> = Vec::new();
        keys.push(self.object_address.to_vec());
        assert(byte_strings(keys@) =~= seq![self.object_address@]);
        match rederive_address(PROFILE_TAG.as_slice(), &keys, self.bump) {
            Some(found) => found == *address,
            None => false,
        }
    }

    /// Moves the counter on by one, after an attachment has taken the index
    /// that it showed. A counter at its last value stays, and the error says so.
    pub fn advance(&mut self) -> (r: Result<(), DelinkError>)
        ensures
            r == if old(self).next_attachment_index < u8::MAX {
                Ok::<(), DelinkError>(())
            } else {
                Err(DelinkError::Overflow)
            },
            r is Ok ==> *final(self) == (ObjectProfile {
                next_attachment_index: (old(self).next_attachment_index + 1) as u8,
                ..*old(self)
            }),
            r is Err ==> *final(self) == *old(self),
    {
        match self.next_attachment_index.checked_add(1) {
            Some(next) => {
                self.next_attachment_index = next;
                Ok(())
            },
            None => Err(DelinkError::Overflow),
        }
    }
}

/// A directed edge from one profile to another. Both are named by the
/// addresses of their profile records.
#[derive(Clone, Copy, Debug, PartialEq, Eq)]
pub struct ObjectsRelation {
    /// The source: the address of the profile that the relation starts at.
    pub object_a_profile_address: Address,
    /// The target: the address of the profile that the relation points at.
    pub object_b_profile_address: Address,
    /// The creator, who owns the source profile.
    pub created_by: Address,
    /// The index that the next attachment on this relation gets.
    pub next_attachment_index: u8,
    pub created_at: u32,
    /// The disambiguator of the relation's own address.
    pub bump: u8,
}

impl Default for ObjectsRelation {
    fn default() -> (r: ObjectsRelation)
        ensures
            r.object_a_profile_address@ == zero_bytes(32),
            r.object_b_profile_address@ == zero_bytes(32),
            r.created_by@ == zero_bytes(32),
            r.next_attachment_index == 0,
            r.created_at == 0,
            r.bump == 0,
    {
        ObjectsRelation {
            object_a_profile_address: Address::default(),
            object_b_profile_address: Address::default(),
            created_by: Address::default(),
            next_attachment_index: 0,
            created_at: 0,
            bump: 0,
        }
    }
}

impl ObjectsRelation {
    /// Fills in a new relation: the counter starts at 0.
    pub fn init(
        &mut self,
        object_a_profile_address: Address,
        object_b_profile_address: Address,
        created_by: Address,
        bump: u8,
        unix_timestamp: i64,
    )
        ensures
            *final(self) == (ObjectsRelation {
                object_a_profile_address,
                object_b_profile_address,
                created_by,
                next_attachment_index: 0,
                created_at: spec_creation_time(unix_timestamp),
                bump,
            }),
    {
        self.object_a_profile_address = object_a_profile_address;
        self.object_b_profile_address = object_b_profile_address;
        self.created_by = created_by;
        self.next_attachment_index = 0;
        self.created_at = creation_time(unix_timestamp);
        self.bump = bump;
    }

    /// The relation's two profiles and the disambiguator that it keeps lead to
    /// the given address.
    pub open spec fn leads_to(self, address: Address) -> bool {
        rederived(
            RELATION_TAG@,
            seq![self.object_a_profile_address@, self.object_b_profile_address@],
            self.bump,
        ) == Some(address)
    }

    /// Tests, without a search, that the relation belongs at the given address.
    pub fn belongs_at(&self, address: &Address) -> (r: bool)
        ensures
            r == self.leads_to(*address),
    {
        let mut keys: Vec<Vec<u8>> = Vec::new();
        keys.push(self.object_a_profile_address.to_vec());
        keys.push(self.object_b_profile_address.to_vec());
        assert(byte_strings(keys@) =~= seq![
            self.object_a_profile_address@,
            self.object_b_profile_address@,
        ]);
        match rederive_address(RELATION_TAG.as_slice(), &keys, self.bump) {
            Some(found) => found == *address,
            None => false,
        }
    }

    /// Moves the counter on by one, after an attachment has taken the index
    /// that it showed. A counter at its last value stays, and the error says so.
    pub fn advance(&mut self) -> (r: Result<(), DelinkError>)
        ensures
            r == if old(self).next_attachment_index < u8::MAX {
                Ok::<(), DelinkError>(())
            } else {
                Err(DelinkError::Overflow)
            },
            r is Ok ==> *final(self) == (ObjectsRelation {
                next_attachment_index: (old(self).next_attachment_index + 1) as u8,
                ..*old(self)
            }),
            r is Err ==> *final(self) == *old(self),
    {
        match self.next_attachment_index.checked_add(1) {
            Some(next) => {
                self.next_attachment_index = next;
                Ok(())
            },
            None => Err(DelinkError::Overflow),
        }
    }
}

/// A piece of evidence under a profile or a relation: a URI and the hash of
/// what it leads to. Never changed once created.
#[derive(Clone, Copy, Debug, PartialEq, Eq)]
pub struct Attachment {
    /// The address of the parent record, a profile or a relation.
    pub entity_address: Address,
    pub uri: [u8; 128],
    pub sha_256_hash: [u8; 64],
    /// The author: the caller that created the attachment.
    pub created_by: Address,
    /// The place among the parent's attachments, counted from 0.
    pub index: u8,
    pub created_at: u32,
    /// The disambiguator of the attachment's own address.
    pub bump: u8,
}

impl Default for Attachment {
    fn default() -> (r: Attachment)
        ensures
            r.entity_address@ == zero_bytes(32),
            r.uri@ == zero_bytes(128),
            r.sha_256_hash@ == zero_bytes(64),
            r.created_by@ == zero_bytes(32),
            r.index == 0,
            r.created_at == 0,
            r.bump == 0,
    {
        let r = Attachment {
            entity_address: Address::default(),
            uri: [0u8; 128],
            sha_256_hash: [0u8; 64],
            created_by: Address::default(),
            index: 0,
            created_at: 0,
            bump: 0,
        };
        assert(r.uri@ =~= zero_bytes(128));
        assert(r.sha_256_hash@ =~= zero_bytes(64));
        r
    }
}

impl Attachment {
    /// Fills in a new attachment with what the caller supplied.
    pub fn init(
        &mut self,
        entity_address: Address,
        uri: [u8; 128],
        sha_256_hash: [u8; 64],
        created_by: Address,
        index: u8,
        bump: u8,
        unix_timestamp: i64,
    )
        ensures
            *final(self) == (Attachment {
                entity_address,
                uri,
                sha_256_hash,
                created_by,
                index,
                created_at: spec_creation_time(unix_timestamp),
                bump,
            }),
    {
        self.entity_address = entity_address;
        self.uri = uri;
        self.sha_256_hash = sha_256_hash;
        self.created_by = created_by;
        self.index = index;
        self.created_at = creation_time(unix_timestamp);
        self.bump = bump;
    }

    /// The attachment's parent, taken as a profile, its index and the
    /// disambiguator that it keeps lead to the given address.
    pub open spec fn leads_to_on_profile(self, address: Address) -> bool {
        rederived(
            PROFILE_ATTACHMENT_TAG@,
            seq![self.entity_address@, seq![self.index]],
            self.bump,
        ) == Some(address)
    }

    /// The attachment's parent, taken as a relation, its index and the
    /// disambiguator that it keeps lead to the given address.
    pub open spec fn leads_to_on_relation(self, address: Address) -> bool {
        rederived(
            RELATION_ATTACHMENT_TAG@,
            seq![self.entity_address@, seq![self.index]],
            self.bump,
        ) == Some(address)
    }

    /// Tests, without a search, that the attachment belongs at the given
    /// address as an attachment on a profile.
    pub fn belongs_on_profile_at(&self, address: &Address) -> (r: bool)
        ensures
            r == self.leads_to_on_profile(*address),
    {
        let keys = attachment_keys(&self.entity_address, self.index);
        match rederive_address(PROFILE_ATTACHMENT_TAG.as_slice(), &keys, self.bump) {
            Some(found) => found == *address,
            None => false,
        }
    }

    /// Tests, without a search, that the attachment belongs at the given
    /// address as an attachment on a relation.
    pub fn belongs_on_relation_at(&self, address: &Address) -> (r: bool)
        ensures
            r == self.leads_to_on_relation(*address),
    {
        let keys = attachment_keys(&self.entity_address, self.index);
        match rederive_address(RELATION_ATTACHMENT_TAG.as_slice(), &keys, self.bump) {
            Some(found) => found == *address,
            None => false,
        }
    }
}

/// The confirmation of an attachment by somebody other than its author.
#[derive(Clone, Copy, Debug, PartialEq, Eq)]
pub struct Acknowledgment {
    /// The address of the attachment that is acknowledged.
    pub entity_address: Address,
    /// The acknowledger.
    pub created_by: Address,
    /// The index of the acknowledged attachment.
    pub index: u8,
    pub created_at: u32,
    /// The disambiguator of the acknowledgment's own address.
    pub bump: u8,
}

impl Default for Acknowledgment {
    fn default() -> (r: Acknowledgment)
        ensures
            r.entity_address@ == zero_bytes(32),
            r.created_by@ == zero_bytes(32),
            r.index == 0,
            r.created_at == 0,
            r.bump == 0,
    {
        Acknowledgment {
            entity_address: Address::default(),
            created_by: Address::default(),
            index: 0,
            created_at: 0,
            bump: 0,
        }
    }
}

impl Acknowledgment {
    /// Fills in a new acknowledgment.
    pub fn init(&mut self, entity_address: Address, created_by: Address, index: u8, bump: u8, unix_timestamp: i64)
        ensures
            *final(self) == (Acknowledgment {
                entity_address,
                created_by,
                index,
                created_at: spec_creation_time(unix_timestamp),
                bump,
            }),
    {
        self.entity_address = entity_address;
        self.created_by = created_by;
        self.index = index;
        self.created_at = creation_time(unix_timestamp);
        self.bump = bump;
    }

    /// The acknowledged attachment and the disambiguator that the
    /// acknowledgment keeps lead to the given address.
    pub open spec fn leads_to(self, address: Address) -> bool {
        rederived(ACKNOWLEDGMENT_TAG@, seq![self.entity_address@], self.bump) == Some(address)
    }

    /// Tests, without a search, that the acknowledgment belongs at the given
    /// address.
    pub fn belongs_at(&self, address: &Address) -> (r: bool)
        ensures
            r == self.leads_to(*address),
    {
        let mut keys: Vec<Vec<u8>> = Vec::new();
        keys.push(self.entity_address.to_vec());
        assert(byte_strings(keys@) =~= seq![self.entity_address@]);
        match rederive_address(ACKNOWLEDGMENT_TAG.as_slice(), &keys, self.bump) {
            Some(found) => found == *address,
            None => false,
        }
    }
}

/// What an address of the registry holds.
#[derive(Clone, Copy, Debug, PartialEq, Eq)]
pub enum Record {
    Profile(ObjectProfile),
    Relation(ObjectsRelation),
    Attachment(Attachment),
    Acknowledgment(Acknowledgment),
}

} // verus!
