//! The operations on the registry.
//!
//! Each operation names the caller, whom the ledger has authenticated, and the
//! existing records it refers to, by address. It checks everything before it
//! writes anything: a rejected operation leaves the registry as it was.

use crate::address::Address;
use crate::error::DelinkError;
use crate::model::{
    attachment_at, extends, holds_attachment, lemma_extension_valid, links, profile_at,
    relation_at, valid_record, valid_state,
};
use crate::records::{
    spec_creation_time, Acknowledgment, Attachment, ObjectProfile, ObjectsRelation, Record,
};
use crate::registry::Registry;
use crate::slots::{
    acknowledgment_address, acknowledgment_slot, profile_address, profile_attachment_address,
    profile_attachment_slot, profile_slot, relation_address, relation_attachment_address,
    relation_attachment_slot, relation_slot,
};
use vstd::prelude::*;

verus! {

/// Who asks for a profile.
#[derive(Clone, Copy, Debug, PartialEq, Eq)]
pub struct CreateObjectProfile {
    /// The caller.
    pub creator: Address,
}

/// Who asks for an attachment on a profile, and on which.
#[derive(Clone, Copy, Debug, PartialEq, Eq)]
pub struct CreateObjectProfileAttachment {
    /// The address of the profile record.
    pub object_profile: Address,
    /// The caller.
    pub creator: Address,
}

/// Who asks for a relation, and between which profiles.
#[derive(Clone, Copy, Debug, PartialEq, Eq)]
pub struct CreateObjectsRelation {
    /// The address of the source's profile record.
    pub object_a_profile: Address,
    /// The address of the target's profile record.
    pub object_b_profile: Address,
    /// The caller.
    pub creator: Address,
}

/// Who asks for an attachment on a relation, and on which.
#[derive(Clone, Copy, Debug, PartialEq, Eq)]
pub struct CreateObjectsRelationAttachment {
    /// The address of the relation record.
    pub objects_relation: Address,
    /// The caller.
    pub creator: Address,
}

/// Who asks for an acknowledgment, and the two relations offered as proof
/// that the attachment's profile is linked to a common target.
#[derive(Clone, Copy, Debug, PartialEq, Eq)]
pub struct CreateAcknowledgment {
    /// The address of the first relation record.
    pub objects_relation_ac: Address,
    /// The address of the second relation record.
    pub objects_relation_bc: Address,
    /// The caller.
    pub creator: Address,
}

/// The result of an operation that is refused for the given reason, or not at all.
pub open spec fn outcome(refusal: Option<DelinkError>) -> Result<(), DelinkError> {
    match refusal {
        Some(e) => Err(e),
        None => Ok(()),
    }
}

impl CreateObjectProfile {
    /// Why the caller may not create the profile of the address, if so: only
    /// the address itself may.
    pub open spec fn refusal(self, object_address: Address) -> Option<DelinkError> {
        if self.creator != object_address {
            Some(DelinkError::AuthorizationError)
        } else {
            None
        }
    }

    /// Tests that the caller may create the profile of the address.
    pub fn authorize(&self, object_address: &Address) -> (r: Result<(), DelinkError>)
        ensures
            r == outcome(self.refusal(*object_address)),
    {
        if self.creator != *object_address {
            return Err(DelinkError::AuthorizationError);
        }
        Ok(())
    }
}

impl CreateObjectsRelation {
    /// Why the caller may not create the relation, given the source profile,
    /// if so: only the owner of the source may, and not to the source itself.
    pub open spec fn refusal(self, source: ObjectProfile) -> Option<DelinkError> {
        if self.creator != source.authority {
            Some(DelinkError::AuthorizationError)
        } else if self.object_a_profile == self.object_b_profile {
            Some(DelinkError::CyclicLinkError)
        } else {
            None
        }
    }

    /// Tests that the caller may create the relation, given the source profile.
    pub fn authorize(&self, source: &ObjectProfile) -> (r: Result<(), DelinkError>)
        ensures
            r == outcome(self.refusal(*source)),
    {
        if self.creator != source.authority {
            return Err(DelinkError::AuthorizationError);
        }
        if self.object_a_profile == self.object_b_profile {
            return Err(DelinkError::CyclicLinkError);
        }
        Ok(())
    }
}

impl CreateObjectProfileAttachment {
    /// Why the caller may not attach to the profile, if so: only its owner may.
    pub open spec fn refusal(self, parent: ObjectProfile) -> Option<DelinkError> {
        if self.creator != parent.authority {
            Some(DelinkError::AuthorizationError)
        } else {
            None
        }
    }

    /// Tests that the caller may attach to the profile.
    pub fn authorize(&self, parent: &ObjectProfile) -> (r: Result<(), DelinkError>)
        ensures
            r == outcome(self.refusal(*parent)),
    {
        if self.creator != parent.authority {
            return Err(DelinkError::AuthorizationError);
        }
        Ok(())
    }
}

impl CreateObjectsRelationAttachment {
    /// Why the caller may not attach to the relation, if so: only its creator
    /// may.
    pub open spec fn refusal(self, parent: ObjectsRelation) -> Option<DelinkError> {
        if self.creator != parent.created_by {
            Some(DelinkError::AuthorizationError)
        } else {
            None
        }
    }

    /// Tests that the caller may attach to the relation.
    pub fn authorize(&self, parent: &ObjectsRelation) -> (r: Result<(), DelinkError>)
        ensures
            r == outcome(self.refusal(*parent)),
    {
        if self.creator != parent.created_by {
            return Err(DelinkError::AuthorizationError);
        }
        Ok(())
    }
}

impl CreateAcknowledgment {
    /// Why the caller may not acknowledge the attachment, which is said to be
    /// on the profile at the given address, on the strength of the two
    /// relations, if so. The caller must not be the attachment's author and the
    /// attachment must be on that profile; the relations must point at one
    /// profile; and one of them must start at the attachment's profile. The
    /// checks are made in this order.
    pub open spec fn refusal(
        self,
        profile_address: Address,
        attachment: Attachment,
        relation_ac: ObjectsRelation,
        relation_bc: ObjectsRelation,
    ) -> Option<DelinkError> {
        if self.creator == attachment.created_by || attachment.entity_address != profile_address {
            Some(DelinkError::AuthorizationError)
        } else if relation_ac.object_b_profile_address != relation_bc.object_b_profile_address {
            Some(DelinkError::ProfilesNotLinkedError)
        } else if relation_ac.object_a_profile_address != profile_address
            && relation_bc.object_a_profile_address != profile_address {
            Some(DelinkError::AuthorizationError)
        } else {
            None
        }
    }

    /// Tests that the caller may acknowledge the attachment on the strength of
    /// the two relations.
    pub fn authorize(
        &self,
        profile_address: &Address,
        attachment: &Attachment,
        relation_ac: &ObjectsRelation,
        relation_bc: &ObjectsRelation,
    ) -> (r: Result<(), DelinkError>)
        ensures
            r == outcome(self.refusal(*profile_address, *attachment, *relation_ac, *relation_bc)),
    {
        if self.creator == attachment.created_by || attachment.entity_address != *profile_address {
            return Err(DelinkError::AuthorizationError);
        }
        if relation_ac.object_b_profile_address != relation_bc.object_b_profile_address {
            return Err(DelinkError::ProfilesNotLinkedError);
        }
        if relation_ac.object_a_profile_address != *profile_address
            && relation_bc.object_a_profile_address != *profile_address {
            return Err(DelinkError::AuthorizationError);
        }
        Ok(())
    }
}

/// Why the creation of a profile is rejected, if it is. The checks are made in
/// this order.
pub open spec fn profile_rejection(
    s: Map<Address, Record>,
    ctx: CreateObjectProfile,
    object_address: Address,
) -> Option<DelinkError> {
    match ctx.refusal(object_address) {
        Some(e) => Some(e),
        None => match profile_slot(object_address) {
            None => Some(DelinkError::AddressNotDerivable),
            Some((address, _)) => if s.contains_key(address) {
                Some(DelinkError::AlreadyExists)
            } else {
                None
            },
        },
    }
}

/// The registry after the creation of a profile that is not rejected.
pub open spec fn with_profile(
    s: Map<Address, Record>,
    ctx: CreateObjectProfile,
    object_address: Address,
    unix_timestamp: i64,
) -> Map<Address, Record> {
    let (address, bump) = profile_slot(object_address).unwrap();
    s.insert(
        address,
        Record::Profile(
            ObjectProfile {
                object_address,
                authority: ctx.creator,
                next_attachment_index: 0,
                created_at: spec_creation_time(unix_timestamp),
                bump,
            },
        ),
    )
}

/// Creates the profile of an external address. Only the address itself may do
/// so, and only once.
pub fn create_object_profile(
    registry: &mut Registry,
    ctx: &CreateObjectProfile,
    object_address: Address,
    unix_timestamp: i64,
) -> (r: Result<(), DelinkError>)
    ensures
        r == outcome(profile_rejection(old(registry)@, *ctx, object_address)),
        r is Ok ==> final(registry)@ == with_profile(
            old(registry)@,
            *ctx,
            object_address,
            unix_timestamp,
        ),
        r is Err ==> final(registry)@ == old(registry)@,
        extends(old(registry)@, final(registry)@),
        valid_state(final(registry)@),
{
    proof {
        use_type_invariant(&*registry);
    }
    match ctx.authorize(&object_address) {
        Err(e) => {
            return Err(e);
        },
        Ok(()) => {},
    }
    let (address, bump) = match profile_address(&object_address) {
        Some(slot) => slot,
        None => {
            return Err(DelinkError::AddressNotDerivable);
        },
    };
    if registry.contains(&address) {
        return Err(DelinkError::AlreadyExists);
    }
    let mut profile = ObjectProfile::default();
    profile.init(object_address, ctx.creator, bump, unix_timestamp);
    proof {
        let before = registry@;
        let after = before.insert(address, Record::Profile(profile));
        assert(valid_record(after, address, Record::Profile(profile)));
        lemma_extension_valid(before, after);
    }
    registry.insert(address, Record::Profile(profile));
    Ok(())
}

/// Why the creation of a relation is rejected, if it is. The checks are made
/// in this order.
pub open spec fn relation_rejection(s: Map<Address, Record>, ctx: CreateObjectsRelation) -> Option<
    DelinkError,
> {
    match (profile_at(s, ctx.object_a_profile), profile_at(s, ctx.object_b_profile)) {
        (Some(source), Some(_)) => match ctx.refusal(source) {
            Some(e) => Some(e),
            None => match relation_slot(ctx.object_a_profile, ctx.object_b_profile) {
                None => Some(DelinkError::AddressNotDerivable),
                Some((address, _)) => if s.contains_key(address) {
                    Some(DelinkError::AlreadyExists)
                } else {
                    None
                },
            },
        },
        _ => Some(DelinkError::NotFound),
    }
}

/// The registry after the creation of a relation that is not rejected.
pub open spec fn with_relation(
    s: Map<Address, Record>,
    ctx: CreateObjectsRelation,
    unix_timestamp: i64,
) -> Map<Address, Record> {
    let (address, bump) = relation_slot(ctx.object_a_profile, ctx.object_b_profile).unwrap();
    s.insert(
        address,
        Record::Relation(
            ObjectsRelation {
                object_a_profile_address: ctx.object_a_profile,
                object_b_profile_address: ctx.object_b_profile,
                created_by: ctx.creator,
                next_attachment_index: 0,
                created_at: spec_creation_time(unix_timestamp),
                bump,
            },
        ),
    )
}

/// Creates the relation from one profile to another. Only the owner of the
/// source may do so, a profile has no relation to itself, and each ordered
/// pair has at most one relation.
pub fn create_objects_relation(
    registry: &mut Registry,
    ctx: &CreateObjectsRelation,
    unix_timestamp: i64,
) -> (r: Result<(), DelinkError>)
    ensures
        r == outcome(relation_rejection(old(registry)@, *ctx)),
        r is Ok ==> final(registry)@ == with_relation(old(registry)@, *ctx, unix_timestamp),
        r is Err ==> final(registry)@ == old(registry)@,
        extends(old(registry)@, final(registry)@),
        // A relation from a profile to itself is refused, whoever owns it.
        profile_at(old(registry)@, ctx.object_a_profile) matches Some(source) && ctx.creator
            == source.authority && ctx.object_a_profile == ctx.object_b_profile ==> r == Err::<
            (),
            DelinkError,
        >(DelinkError::CyclicLinkError),
        // Nobody but the owner of the source gets a relation.
        profile_at(old(registry)@, ctx.object_a_profile) matches Some(source) && profile_at(
            old(registry)@,
            ctx.object_b_profile,
        ) is Some && ctx.creator != source.authority ==> r == Err::<(), DelinkError>(
            DelinkError::AuthorizationError,
        ),
        valid_state(final(registry)@),
{
    proof {
        use_type_invariant(&*registry);
    }
    let source = match registry.profile(&ctx.object_a_profile) {
        Some(p) => p,
        None => {
            return Err(DelinkError::NotFound);
        },
    };
    if registry.profile(&ctx.object_b_profile).is_none() {
        return Err(DelinkError::NotFound);
    }
    match ctx.authorize(&source) {
        Err(e) => {
            return Err(e);
        },
        Ok(()) => {},
    }
    let (address, bump) = match relation_address(&ctx.object_a_profile, &ctx.object_b_profile) {
        Some(slot) => slot,
        None => {
            return Err(DelinkError::AddressNotDerivable);
        },
    };
    if registry.contains(&address) {
        return Err(DelinkError::AlreadyExists);
    }
    let mut relation = ObjectsRelation::default();
    relation.init(ctx.object_a_profile, ctx.object_b_profile, ctx.creator, bump, unix_timestamp);
    proof {
        let before = registry@;
        let after = before.insert(address, Record::Relation(relation));
        assert(valid_record(after, address, Record::Relation(relation)));
        lemma_extension_valid(before, after);
    }
    registry.insert(address, Record::Relation(relation));
    Ok(())
}

/// Why the creation of an attachment on a profile is rejected, if it is. The
/// checks are made in this order.
pub open spec fn profile_attachment_rejection(
    s: Map<Address, Record>,
    ctx: CreateObjectProfileAttachment,
) -> Option<DelinkError> {
    match profile_at(s, ctx.object_profile) {
        None => Some(DelinkError::NotFound),
        Some(parent) => match ctx.refusal(parent) {
            Some(e) => Some(e),
            None => match profile_attachment_slot(
                ctx.object_profile,
                parent.next_attachment_index,
            ) {
                None => Some(DelinkError::AddressNotDerivable),
                Some((address, _)) => if s.contains_key(address) {
                    Some(DelinkError::AlreadyExists)
                } else if parent.next_attachment_index == u8::MAX {
                    Some(DelinkError::Overflow)
                } else {
                    None
                },
            },
        },
    }
}

/// The registry after the creation of an attachment on a profile that is not
/// rejected: the attachment takes the index that the profile's counter shows,
/// and the counter moves on by one.
pub open spec fn with_profile_attachment(
    s: Map<Address, Record>,
    ctx: CreateObjectProfileAttachment,
    uri: [u8; 128],
    sha_256_hash: [u8; 64],
    unix_timestamp: i64,
) -> Map<Address, Record> {
    let parent = profile_at(s, ctx.object_profile).unwrap();
    let index = parent.next_attachment_index;
    let (address, bump) = profile_attachment_slot(ctx.object_profile, index).unwrap();
    s.insert(
        address,
        Record::Attachment(
            Attachment {
                entity_address: ctx.object_profile,
                uri,
                sha_256_hash,
                created_by: ctx.creator,
                index,
                created_at: spec_creation_time(unix_timestamp),
                bump,
            },
        ),
    ).insert(
        ctx.object_profile,
        Record::Profile(ObjectProfile { next_attachment_index: (index + 1) as u8, ..parent }),
    )
}

/// Appends an attachment to a profile. Only the profile's owner may do so.
pub fn create_object_profile_attachment(
    registry: &mut Registry,
    ctx: &CreateObjectProfileAttachment,
    uri: [u8; 128],
    sha_256_hash: [u8; 64],
    unix_timestamp: i64,
) -> (r: Result<(), DelinkError>)
    ensures
        r == outcome(profile_attachment_rejection(old(registry)@, *ctx)),
        r is Ok ==> final(registry)@ == with_profile_attachment(
            old(registry)@,
            *ctx,
            uri,
            sha_256_hash,
            unix_timestamp,
        ),
        r is Err ==> final(registry)@ == old(registry)@,
        extends(old(registry)@, final(registry)@),
        // The new attachment has the index that the counter showed, and the
        // counter has moved on by one.
        r is Ok ==> ({
            let parent = profile_at(old(registry)@, ctx.object_profile).unwrap();
            let index = parent.next_attachment_index;
            &&& holds_attachment(
                final(registry)@,
                profile_attachment_slot(ctx.object_profile, index),
                ctx.object_profile,
                index,
            )
            &&& profile_at(final(registry)@, ctx.object_profile) == Some(
                ObjectProfile { next_attachment_index: (index + 1) as u8, ..parent },
            )
            &&& index + 1 <= u8::MAX
        }),
        valid_state(final(registry)@),
{
    proof {
        use_type_invariant(&*registry);
    }
    let parent = match registry.profile(&ctx.object_profile) {
        Some(p) => p,
        None => {
            return Err(DelinkError::NotFound);
        },
    };
    match ctx.authorize(&parent) {
        Err(e) => {
            return Err(e);
        },
        Ok(()) => {},
    }
    let index = parent.next_attachment_index;
    let (address, bump) = match profile_attachment_address(&ctx.object_profile, index) {
        Some(slot) => slot,
        None => {
            return Err(DelinkError::AddressNotDerivable);
        },
    };
    if registry.contains(&address) {
        return Err(DelinkError::AlreadyExists);
    }
    let mut advanced = parent;
    match advanced.advance() {
        Err(e) => {
            return Err(e);
        },
        Ok(()) => {},
    }
    let ghost next = advanced.next_attachment_index;
    let mut attachment = Attachment::default();
    attachment.init(ctx.object_profile, uri, sha_256_hash, ctx.creator, index, bump, unix_timestamp);
    proof {
        let before = registry@;
        let after = before.insert(address, Record::Attachment(attachment)).insert(
            ctx.object_profile,
            Record::Profile(advanced),
        );
        assert(valid_record(before, ctx.object_profile, Record::Profile(parent)));
        assert(valid_record(after, address, Record::Attachment(attachment)));
        assert forall|i: u8| i < next implies #[trigger] holds_attachment(
            after,
            profile_attachment_slot(ctx.object_profile, i),
            ctx.object_profile,
            i,
        ) by {
            if i < index {
                assert(holds_attachment(
                    before,
                    profile_attachment_slot(ctx.object_profile, i),
                    ctx.object_profile,
                    i,
                ));
                let (a, _) = profile_attachment_slot(ctx.object_profile, i).unwrap();
                assert(before.contains_key(a));
            }
        }
        assert(valid_record(after, ctx.object_profile, Record::Profile(advanced)));
        lemma_extension_valid(before, after);
    }
    registry.insert_under(
        address,
        Record::Attachment(attachment),
        ctx.object_profile,
        Record::Profile(advanced),
    );
    Ok(())
}

/// Why the creation of an attachment on a relation is rejected, if it is. The
/// checks are made in this order.
pub open spec fn relation_attachment_rejection(
    s: Map<Address, Record>,
    ctx: CreateObjectsRelationAttachment,
) -> Option<DelinkError> {
    match relation_at(s, ctx.objects_relation) {
        None => Some(DelinkError::NotFound),
        Some(parent) => match ctx.refusal(parent) {
            Some(e) => Some(e),
            None => match relation_attachment_slot(
                ctx.objects_relation,
                parent.next_attachment_index,
            ) {
                None => Some(DelinkError::AddressNotDerivable),
                Some((address, _)) => if s.contains_key(address) {
                    Some(DelinkError::AlreadyExists)
                } else if parent.next_attachment_index == u8::MAX {
                    Some(DelinkError::Overflow)
                } else {
                    None
                },
            },
        },
    }
}

/// The registry after the creation of an attachment on a relation that is not
/// rejected: the attachment takes the index that the relation's counter shows,
/// and the counter moves on by one.
pub open spec fn with_relation_attachment(
    s: Map<Address, Record>,
    ctx: CreateObjectsRelationAttachment,
    uri: [u8; 128],
    sha_256_hash: [u8; 64],
    unix_timestamp: i64,
) -> Map<Address, Record> {
    let parent = relation_at(s, ctx.objects_relation).unwrap();
    let index = parent.next_attachment_index;
    let (address, bump) = relation_attachment_slot(ctx.objects_relation, index).unwrap();
    s.insert(
        address,
        Record::Attachment(
            Attachment {
                entity_address: ctx.objects_relation,
                uri,
                sha_256_hash,
                created_by: ctx.creator,
                index,
                created_at: spec_creation_time(unix_timestamp),
                bump,
            },
        ),
    ).insert(
        ctx.objects_relation,
        Record::Relation(ObjectsRelation { next_attachment_index: (index + 1) as u8, ..parent }),
    )
}

/// Appends an attachment to a relation. Only the relation's creator may do so.
pub fn create_objects_relation_attachment(
    registry: &mut Registry,
    ctx: &CreateObjectsRelationAttachment,
    uri: [u8; 128],
    sha_256_hash: [u8; 64],
    unix_timestamp: i64,
) -> (r: Result<(), DelinkError>)
    ensures
        r == outcome(relation_attachment_rejection(old(registry)@, *ctx)),
        r is Ok ==> final(registry)@ == with_relation_attachment(
            old(registry)@,
            *ctx,
            uri,
            sha_256_hash,
            unix_timestamp,
        ),
        r is Err ==> final(registry)@ == old(registry)@,
        extends(old(registry)@, final(registry)@),
        // The new attachment has the index that the counter showed, and the
        // counter has moved on by one.
        r is Ok ==> ({
            let parent = relation_at(old(registry)@, ctx.objects_relation).unwrap();
            let index = parent.next_attachment_index;
            &&& holds_attachment(
                final(registry)@,
                relation_attachment_slot(ctx.objects_relation, index),
                ctx.objects_relation,
                index,
            )
            &&& relation_at(final(registry)@, ctx.objects_relation) == Some(
                ObjectsRelation { next_attachment_index: (index + 1) as u8, ..parent },
            )
            &&& index + 1 <= u8::MAX
        }),
        valid_state(final(registry)@),
{
    proof {
        use_type_invariant(&*registry);
    }
    let parent = match registry.relation(&ctx.objects_relation) {
        Some(r) => r,
        None => {
            return Err(DelinkError::NotFound);
        },
    };
    match ctx.authorize(&parent) {
        Err(e) => {
            return Err(e);
        },
        Ok(()) => {},
    }
    let index = parent.next_attachment_index;
    let (address, bump) = match relation_attachment_address(&ctx.objects_relation, index) {
        Some(slot) => slot,
        None => {
            return Err(DelinkError::AddressNotDerivable);
        },
    };
    if registry.contains(&address) {
        return Err(DelinkError::AlreadyExists);
    }
    let mut advanced = parent;
    match advanced.advance() {
        Err(e) => {
            return Err(e);
        },
        Ok(()) => {},
    }
    let ghost next = advanced.next_attachment_index;
    let mut attachment = Attachment::default();
    attachment.init(ctx.objects_relation, uri, sha_256_hash, ctx.creator, index, bump, unix_timestamp);
    proof {
        let before = registry@;
        let after = before.insert(address, Record::Attachment(attachment)).insert(
            ctx.objects_relation,
            Record::Relation(advanced),
        );
        assert(valid_record(before, ctx.objects_relation, Record::Relation(parent)));
        assert(valid_record(after, address, Record::Attachment(attachment)));
        assert(before.contains_key(parent.object_a_profile_address));
        assert(before.contains_key(parent.object_b_profile_address));
        assert forall|i: u8| i < next implies #[trigger] holds_attachment(
            after,
            relation_attachment_slot(ctx.objects_relation, i),
            ctx.objects_relation,
            i,
        ) by {
            if i < index {
                assert(holds_attachment(
                    before,
                    relation_attachment_slot(ctx.objects_relation, i),
                    ctx.objects_relation,
                    i,
                ));
                let (a, _) = relation_attachment_slot(ctx.objects_relation, i).unwrap();
                assert(before.contains_key(a));
            }
        }
        assert(valid_record(after, ctx.objects_relation, Record::Relation(advanced)));
        lemma_extension_valid(before, after);
    }
    registry.insert_under(
        address,
        Record::Attachment(attachment),
        ctx.objects_relation,
        Record::Relation(advanced),
    );
    Ok(())
}

/// Why the creation of an acknowledgment is rejected, if it is. The checks are
/// made in this order.
pub open spec fn acknowledgment_rejection(
    s: Map<Address, Record>,
    ctx: CreateAcknowledgment,
    profile_address: Address,
    attachment_index: u8,
) -> Option<DelinkError> {
    match profile_attachment_slot(profile_address, attachment_index) {
        None => Some(DelinkError::AddressNotDerivable),
        Some((attachment_address, _)) => match (
            attachment_at(s, attachment_address),
            relation_at(s, ctx.objects_relation_ac),
            relation_at(s, ctx.objects_relation_bc),
        ) {
            (Some(attachment), Some(relation_ac), Some(relation_bc)) => match ctx.refusal(
                profile_address,
                attachment,
                relation_ac,
                relation_bc,
            ) {
                Some(e) => Some(e),
                None => match acknowledgment_slot(attachment_address) {
                    None => Some(DelinkError::AddressNotDerivable),
                    Some((address, _)) => if s.contains_key(address) {
                        Some(DelinkError::AlreadyExists)
                    } else {
                        None
                    },
                },
            },
            _ => Some(DelinkError::NotFound),
        },
    }
}

/// The attachment with the given index on the given profile exists, and so do
/// the two relations that the caller offers.
pub open spec fn acknowledgeable(
    s: Map<Address, Record>,
    ctx: CreateAcknowledgment,
    profile_address: Address,
    attachment_index: u8,
) -> bool {
    &&& profile_attachment_slot(profile_address, attachment_index) matches Some(
        (attachment_address, _),
    )
    &&& attachment_at(s, attachment_address) matches Some(attachment)
    &&& attachment.entity_address == profile_address
    &&& relation_at(s, ctx.objects_relation_ac) is Some
    &&& relation_at(s, ctx.objects_relation_bc) is Some
}

/// The registry after the creation of an acknowledgment that is not rejected.
pub open spec fn with_acknowledgment(
    s: Map<Address, Record>,
    ctx: CreateAcknowledgment,
    profile_address: Address,
    attachment_index: u8,
    unix_timestamp: i64,
) -> Map<Address, Record> {
    let (attachment_address, _) = profile_attachment_slot(profile_address, attachment_index).unwrap();
    let attachment = attachment_at(s, attachment_address).unwrap();
    let (address, bump) = acknowledgment_slot(attachment_address).unwrap();
    s.insert(
        address,
        Record::Acknowledgment(
            Acknowledgment {
                entity_address: attachment_address,
                created_by: ctx.creator,
                index: attachment.index,
                created_at: spec_creation_time(unix_timestamp),
                bump,
            },
        ),
    )
}

/// Acknowledges the attachment with the given index on the profile at the
/// given address. The caller must not be the attachment's author, the two
/// relations offered must point at one profile, and one of them must start at
/// the attachment's profile. An attachment is acknowledged at most once.
pub fn create_acknowledgment(
    registry: &mut Registry,
    ctx: &CreateAcknowledgment,
    profile_address: Address,
    attachment_index: u8,
    unix_timestamp: i64,
) -> (r: Result<(), DelinkError>)
    ensures
        r == outcome(
            acknowledgment_rejection(old(registry)@, *ctx, profile_address, attachment_index),
        ),
        r is Ok ==> final(registry)@ == with_acknowledgment(
            old(registry)@,
            *ctx,
            profile_address,
            attachment_index,
            unix_timestamp,
        ),
        r is Err ==> final(registry)@ == old(registry)@,
        extends(old(registry)@, final(registry)@),
        // Where the attachment and both relations exist: its author cannot
        // acknowledge it; anybody else is refused if the relations point at
        // different profiles, and succeeds if they point at one, one of them
        // starts at the attachment's profile, and no acknowledgment is there yet.
        acknowledgeable(old(registry)@, *ctx, profile_address, attachment_index) ==> ({
            let (attachment_address, _) = profile_attachment_slot(
                profile_address,
                attachment_index,
            ).unwrap();
            let attachment = attachment_at(old(registry)@, attachment_address).unwrap();
            let relation_ac = relation_at(old(registry)@, ctx.objects_relation_ac).unwrap();
            let relation_bc = relation_at(old(registry)@, ctx.objects_relation_bc).unwrap();
            let same_target = relation_ac.object_b_profile_address
                == relation_bc.object_b_profile_address;
            let from_profile = relation_ac.object_a_profile_address == profile_address
                || relation_bc.object_a_profile_address == profile_address;
            let free = match acknowledgment_slot(attachment_address) {
                Some((address, _)) => !old(registry)@.contains_key(address),
                None => false,
            };
            &&& ctx.creator == attachment.created_by ==> r == Err::<(), DelinkError>(
                DelinkError::AuthorizationError,
            )
            &&& ctx.creator != attachment.created_by && !same_target ==> r == Err::<
                (),
                DelinkError,
            >(DelinkError::ProfilesNotLinkedError)
            &&& ctx.creator != attachment.created_by && same_target && from_profile && free ==> r
                is Ok
        }),
        valid_state(final(registry)@),
{
    proof {
        use_type_invariant(&*registry);
    }
    let (attachment_address, _) = match profile_attachment_address(
        &profile_address,
        attachment_index,
    ) {
        Some(slot) => slot,
        None => {
            return Err(DelinkError::AddressNotDerivable);
        },
    };
    let attachment = match registry.attachment(&attachment_address) {
        Some(t) => t,
        None => {
            return Err(DelinkError::NotFound);
        },
    };
    let relation_ac = match registry.relation(&ctx.objects_relation_ac) {
        Some(r) => r,
        None => {
            return Err(DelinkError::NotFound);
        },
    };
    let relation_bc = match registry.relation(&ctx.objects_relation_bc) {
        Some(r) => r,
        None => {
            return Err(DelinkError::NotFound);
        },
    };
    match ctx.authorize(&profile_address, &attachment, &relation_ac, &relation_bc) {
        Err(e) => {
            return Err(e);
        },
        Ok(()) => {},
    }
    let (address, bump) = match acknowledgment_address(&attachment_address) {
        Some(slot) => slot,
        None => {
            return Err(DelinkError::AddressNotDerivable);
        },
    };
    if registry.contains(&address) {
        return Err(DelinkError::AlreadyExists);
    }
    let mut acknowledgment = Acknowledgment::default();
    acknowledgment.init(attachment_address, ctx.creator, attachment.index, bump, unix_timestamp);
    proof {
        let before = registry@;
        let after = before.insert(address, Record::Acknowledgment(acknowledgment));
        assert(links(
            after,
            ctx.objects_relation_ac,
            ctx.objects_relation_bc,
            attachment.entity_address,
        ));
        assert(valid_record(after, address, Record::Acknowledgment(acknowledgment)));
        lemma_extension_valid(before, after);
    }
    registry.insert(address, Record::Acknowledgment(acknowledgment));
    Ok(())
}

} // verus!
