use delink::address::Address;
use delink::error::DelinkError;
use delink::instructions::{
    create_acknowledgment, create_object_profile, create_object_profile_attachment,
    create_objects_relation, create_objects_relation_attachment, CreateAcknowledgment,
    CreateObjectProfile, CreateObjectProfileAttachment, CreateObjectsRelation,
    CreateObjectsRelationAttachment,
};
use delink::records::{Acknowledgment, Attachment, ObjectProfile, ObjectsRelation, Record};
use delink::registry::Registry;
use delink::slots::{
    acknowledgment_address, profile_address, profile_attachment_address, relation_address,
    relation_attachment_address,
};

const NOW: i64 = 1_700_000_000;

fn external(byte: u8) -> Address {
    Address::new([byte; 32])
}

fn buffer<const N: usize>(text: &[u8]) -> [u8; N] {
    let mut bytes = [0u8; N];
    bytes[..text.len()].copy_from_slice(text);
    bytes
}

/// Creates the profile of an external address and returns the profile's address.
fn profile(registry: &mut Registry, owner: Address) -> Address {
    let ctx = CreateObjectProfile { creator: owner };
    assert_eq!(create_object_profile(registry, &ctx, owner, NOW), Ok(()));
    profile_address(&owner).unwrap().0
}

/// Creates the relation between two profiles and returns the relation's address.
fn relation(registry: &mut Registry, creator: Address, source: Address, target: Address) -> Address {
    let ctx = CreateObjectsRelation {
        object_a_profile: source,
        object_b_profile: target,
        creator,
    };
    assert_eq!(create_objects_relation(registry, &ctx, NOW), Ok(()));
    relation_address(&source, &target).unwrap().0
}

fn attach(registry: &mut Registry, creator: Address, parent: Address, uri: &[u8]) -> Result<(), DelinkError> {
    let ctx = CreateObjectProfileAttachment { object_profile: parent, creator };
    create_object_profile_attachment(registry, &ctx, buffer(uri), buffer(b"h"), NOW)
}

#[test]
fn new_registry_is_empty() {
    let registry = Registry::new();
    assert_eq!(registry.get(&external(1)), None);
    assert!(!registry.contains(&profile_address(&external(1)).unwrap().0));
}

#[test]
fn owner_creates_own_profile() {
    let a = external(1);
    let mut registry = Registry::new();
    let ctx = CreateObjectProfile { creator: a };
    assert_eq!(create_object_profile(&mut registry, &ctx, a, NOW), Ok(()));
    let (address, bump) = profile_address(&a).unwrap();
    assert_eq!(
        registry.get(&address),
        Some(Record::Profile(ObjectProfile {
            object_address: a,
            authority: a,
            next_attachment_index: 0,
            created_at: 1_700_000_000,
            bump,
        }))
    );
    assert_eq!(registry.profile(&address).unwrap().next_attachment_index, 0);
    assert!(registry.contains(&address));
    assert_eq!(registry.relation(&address), None);
    assert_eq!(registry.attachment(&address), None);
    assert_eq!(registry.acknowledgment(&address), None);
    assert_eq!(registry.get(&a), None);
}

#[test]
fn second_profile_of_one_address_is_refused() {
    let a = external(1);
    let mut registry = Registry::new();
    let address = profile(&mut registry, a);
    let before = registry.get(&address);
    let ctx = CreateObjectProfile { creator: a };
    assert_eq!(
        create_object_profile(&mut registry, &ctx, a, NOW + 1),
        Err(DelinkError::AlreadyExists)
    );
    assert_eq!(registry.get(&address), before);
    assert_eq!(registry.profile(&address).unwrap().created_at, 1_700_000_000);
}

#[test]
fn profile_of_another_address_is_refused() {
    let a = external(1);
    let b = external(2);
    let mut registry = Registry::new();
    let ctx = CreateObjectProfile { creator: b };
    assert_eq!(
        create_object_profile(&mut registry, &ctx, a, NOW),
        Err(DelinkError::AuthorizationError)
    );
    assert!(!registry.contains(&profile_address(&a).unwrap().0));
    assert!(!registry.contains(&profile_address(&b).unwrap().0));
    // Also where the profile exists already: the caller is tested first.
    profile(&mut registry, a);
    assert_eq!(
        create_object_profile(&mut registry, &ctx, a, NOW),
        Err(DelinkError::AuthorizationError)
    );
}

#[test]
fn owner_creates_relation() {
    let a = external(1);
    let b = external(2);
    let mut registry = Registry::new();
    let pa = profile(&mut registry, a);
    let pb = profile(&mut registry, b);
    let ctx = CreateObjectsRelation { object_a_profile: pa, object_b_profile: pb, creator: a };
    assert_eq!(create_objects_relation(&mut registry, &ctx, NOW), Ok(()));
    let (address, bump) = relation_address(&pa, &pb).unwrap();
    assert_eq!(
        registry.get(&address),
        Some(Record::Relation(ObjectsRelation {
            object_a_profile_address: pa,
            object_b_profile_address: pb,
            created_by: a,
            next_attachment_index: 0,
            created_at: 1_700_000_000,
            bump,
        }))
    );
    assert_eq!(registry.relation(&address).unwrap().next_attachment_index, 0);
    // The other direction is another relation, and still free.
    assert!(!registry.contains(&relation_address(&pb, &pa).unwrap().0));
}

#[test]
fn relation_to_itself_is_refused() {
    let a = external(1);
    let mut registry = Registry::new();
    let pa = profile(&mut registry, a);
    let ctx = CreateObjectsRelation { object_a_profile: pa, object_b_profile: pa, creator: a };
    assert_eq!(
        create_objects_relation(&mut registry, &ctx, NOW),
        Err(DelinkError::CyclicLinkError)
    );
    assert!(!registry.contains(&relation_address(&pa, &pa).unwrap().0));
}

#[test]
fn relation_by_a_stranger_is_refused() {
    let a = external(1);
    let b = external(2);
    let mut registry = Registry::new();
    let pa = profile(&mut registry, a);
    let pb = profile(&mut registry, b);
    let ctx = CreateObjectsRelation { object_a_profile: pa, object_b_profile: pb, creator: b };
    assert_eq!(
        create_objects_relation(&mut registry, &ctx, NOW),
        Err(DelinkError::AuthorizationError)
    );
    assert!(!registry.contains(&relation_address(&pa, &pb).unwrap().0));
    // A stranger is refused as such also where the relation exists, and where
    // it would lead from the profile to itself.
    relation(&mut registry, a, pa, pb);
    assert_eq!(
        create_objects_relation(&mut registry, &ctx, NOW),
        Err(DelinkError::AuthorizationError)
    );
    let own = CreateObjectsRelation { object_a_profile: pa, object_b_profile: pa, creator: b };
    assert_eq!(
        create_objects_relation(&mut registry, &own, NOW),
        Err(DelinkError::AuthorizationError)
    );
}

#[test]
fn second_relation_of_one_pair_is_refused() {
    let a = external(1);
    let b = external(2);
    let mut registry = Registry::new();
    let pa = profile(&mut registry, a);
    let pb = profile(&mut registry, b);
    let address = relation(&mut registry, a, pa, pb);
    let before = registry.get(&address);
    let ctx = CreateObjectsRelation { object_a_profile: pa, object_b_profile: pb, creator: a };
    assert_eq!(
        create_objects_relation(&mut registry, &ctx, NOW + 5),
        Err(DelinkError::AlreadyExists)
    );
    assert_eq!(registry.get(&address), before);
}

#[test]
fn relation_needs_both_profiles() {
    let a = external(1);
    let b = external(2);
    let mut registry = Registry::new();
    let pa = profile(&mut registry, a);
    let pb = profile_address(&b).unwrap().0;
    let ctx = CreateObjectsRelation { object_a_profile: pa, object_b_profile: pb, creator: a };
    assert_eq!(create_objects_relation(&mut registry, &ctx, NOW), Err(DelinkError::NotFound));
    let ctx = CreateObjectsRelation { object_a_profile: pb, object_b_profile: pa, creator: a };
    assert_eq!(create_objects_relation(&mut registry, &ctx, NOW), Err(DelinkError::NotFound));
    // An external address is not the address of its profile.
    let ctx = CreateObjectsRelation { object_a_profile: a, object_b_profile: pa, creator: a };
    assert_eq!(create_objects_relation(&mut registry, &ctx, NOW), Err(DelinkError::NotFound));
    // A relation is not a profile.
    let pb = profile(&mut registry, b);
    let rab = relation(&mut registry, a, pa, pb);
    let ctx = CreateObjectsRelation { object_a_profile: pa, object_b_profile: rab, creator: a };
    assert_eq!(create_objects_relation(&mut registry, &ctx, NOW), Err(DelinkError::NotFound));
}

#[test]
fn attachments_take_the_indices_in_order() {
    let a = external(1);
    let mut registry = Registry::new();
    let pa = profile(&mut registry, a);
    let ctx = CreateObjectProfileAttachment { object_profile: pa, creator: a };
    let h1: [u8; 64] = buffer(b"h1");
    let h2: [u8; 64] = buffer(b"h2");
    assert_eq!(
        create_object_profile_attachment(&mut registry, &ctx, buffer(b"doc1"), h1, NOW),
        Ok(())
    );
    let (first, first_bump) = profile_attachment_address(&pa, 0).unwrap();
    assert_eq!(
        registry.get(&first),
        Some(Record::Attachment(Attachment {
            entity_address: pa,
            uri: buffer(b"doc1"),
            sha_256_hash: h1,
            created_by: a,
            index: 0,
            created_at: 1_700_000_000,
            bump: first_bump,
        }))
    );
    assert_eq!(registry.profile(&pa).unwrap().next_attachment_index, 1);
    assert_eq!(
        create_object_profile_attachment(&mut registry, &ctx, buffer(b"doc2"), h2, NOW + 1),
        Ok(())
    );
    let (second, second_bump) = profile_attachment_address(&pa, 1).unwrap();
    assert_eq!(
        registry.attachment(&second),
        Some(Attachment {
            entity_address: pa,
            uri: buffer(b"doc2"),
            sha_256_hash: h2,
            created_by: a,
            index: 1,
            created_at: 1_700_000_001,
            bump: second_bump,
        })
    );
    let parent = registry.profile(&pa).unwrap();
    assert_eq!(parent.next_attachment_index, 2);
    assert_eq!(parent.object_address, a);
    assert_eq!(parent.authority, a);
    assert_eq!(parent.created_at, 1_700_000_000);
    // The first attachment is as it was.
    assert_eq!(registry.attachment(&first).unwrap().uri, buffer::<128>(b"doc1"));
    assert!(!registry.contains(&profile_attachment_address(&pa, 2).unwrap().0));
}

#[test]
fn attachment_by_a_stranger_is_refused() {
    let a = external(1);
    let b = external(2);
    let mut registry = Registry::new();
    let pa = profile(&mut registry, a);
    assert_eq!(attach(&mut registry, b, pa, b"doc"), Err(DelinkError::AuthorizationError));
    assert_eq!(registry.profile(&pa).unwrap().next_attachment_index, 0);
    assert!(!registry.contains(&profile_attachment_address(&pa, 0).unwrap().0));
}

#[test]
fn attachment_needs_its_parent() {
    let a = external(1);
    let mut registry = Registry::new();
    let pa = profile_address(&a).unwrap().0;
    assert_eq!(attach(&mut registry, a, pa, b"doc"), Err(DelinkError::NotFound));
    let ctx = CreateObjectsRelationAttachment { objects_relation: pa, creator: a };
    assert_eq!(
        create_objects_relation_attachment(&mut registry, &ctx, [0u8; 128], [0u8; 64], NOW),
        Err(DelinkError::NotFound)
    );
    // A profile is no relation, and a relation no profile.
    let pa = profile(&mut registry, a);
    let pb = profile(&mut registry, external(2));
    let rab = relation(&mut registry, a, pa, pb);
    let ctx = CreateObjectsRelationAttachment { objects_relation: pa, creator: a };
    assert_eq!(
        create_objects_relation_attachment(&mut registry, &ctx, [0u8; 128], [0u8; 64], NOW),
        Err(DelinkError::NotFound)
    );
    assert_eq!(attach(&mut registry, a, rab, b"doc"), Err(DelinkError::NotFound));
}

#[test]
fn relation_attachments_take_the_indices_in_order() {
    let a = external(1);
    let b = external(2);
    let mut registry = Registry::new();
    let pa = profile(&mut registry, a);
    let pb = profile(&mut registry, b);
    let rab = relation(&mut registry, a, pa, pb);
    let ctx = CreateObjectsRelationAttachment { objects_relation: rab, creator: a };
    for index in 0u8..3 {
        let uri: [u8; 128] = buffer(&[b'd', index]);
        assert_eq!(
            create_objects_relation_attachment(&mut registry, &ctx, uri, [index; 64], NOW),
            Ok(())
        );
        let (address, bump) = relation_attachment_address(&rab, index).unwrap();
        assert_eq!(
            registry.attachment(&address),
            Some(Attachment {
                entity_address: rab,
                uri,
                sha_256_hash: [index; 64],
                created_by: a,
                index,
                created_at: 1_700_000_000,
                bump,
            })
        );
        assert_eq!(registry.relation(&rab).unwrap().next_attachment_index, index + 1);
    }
    // The target's owner did not create the relation.
    let ctx = CreateObjectsRelationAttachment { objects_relation: rab, creator: b };
    assert_eq!(
        create_objects_relation_attachment(&mut registry, &ctx, [0u8; 128], [0u8; 64], NOW),
        Err(DelinkError::AuthorizationError)
    );
    assert_eq!(registry.relation(&rab).unwrap().next_attachment_index, 3);
    // The profiles' own counters have not moved.
    assert_eq!(registry.profile(&pa).unwrap().next_attachment_index, 0);
    assert_eq!(registry.profile(&pb).unwrap().next_attachment_index, 0);
}

#[test]
fn counter_does_not_wrap() {
    let a = external(1);
    let mut registry = Registry::new();
    let pa = profile(&mut registry, a);
    for index in 0u8..255 {
        assert_eq!(registry.profile(&pa).unwrap().next_attachment_index, index);
        assert_eq!(attach(&mut registry, a, pa, &[index]), Ok(()));
        let address = profile_attachment_address(&pa, index).unwrap().0;
        assert_eq!(registry.attachment(&address).unwrap().index, index);
    }
    assert_eq!(registry.profile(&pa).unwrap().next_attachment_index, 255);
    assert_eq!(attach(&mut registry, a, pa, b"last"), Err(DelinkError::Overflow));
    assert_eq!(registry.profile(&pa).unwrap().next_attachment_index, 255);
    assert!(!registry.contains(&profile_attachment_address(&pa, 255).unwrap().0));
    for index in 0u8..255 {
        let address = profile_attachment_address(&pa, index).unwrap().0;
        let attachment = registry.attachment(&address).unwrap();
        assert_eq!(attachment.entity_address, pa);
        assert_eq!(attachment.uri, buffer::<128>(&[index]));
    }
}

struct Triangle {
    registry: Registry,
    a: Address,
    b: Address,
    d: Address,
    pa: Address,
    pb: Address,
    pc: Address,
    pd: Address,
    ac: Address,
    bc: Address,
}

/// Profiles A, B, C and D, the relations A to C and B to C, and one attachment
/// by A on A's profile.
fn triangle() -> Triangle {
    let (a, b, c, d) = (external(1), external(2), external(3), external(4));
    let mut registry = Registry::new();
    let pa = profile(&mut registry, a);
    let pb = profile(&mut registry, b);
    let pc = profile(&mut registry, c);
    let pd = profile(&mut registry, d);
    let ac = relation(&mut registry, a, pa, pc);
    let bc = relation(&mut registry, b, pb, pc);
    assert_eq!(attach(&mut registry, a, pa, b"doc1"), Ok(()));
    Triangle { registry, a, b, d, pa, pb, pc, pd, ac, bc }
}

#[test]
fn linked_profile_acknowledges() {
    let mut t = triangle();
    let ctx = CreateAcknowledgment {
        objects_relation_ac: t.ac,
        objects_relation_bc: t.bc,
        creator: t.b,
    };
    assert_eq!(create_acknowledgment(&mut t.registry, &ctx, t.pa, 0, NOW + 9), Ok(()));
    let attachment = profile_attachment_address(&t.pa, 0).unwrap().0;
    let (address, bump) = acknowledgment_address(&attachment).unwrap();
    assert_eq!(
        t.registry.get(&address),
        Some(Record::Acknowledgment(Acknowledgment {
            entity_address: attachment,
            created_by: t.b,
            index: 0,
            created_at: 1_700_000_009,
            bump,
        }))
    );
    // Neither the attachment nor its profile has changed.
    assert_eq!(t.registry.attachment(&attachment).unwrap().created_by, t.a);
    assert_eq!(t.registry.profile(&t.pa).unwrap().next_attachment_index, 1);
}

#[test]
fn relations_may_be_given_in_either_order() {
    let mut t = triangle();
    let ctx = CreateAcknowledgment {
        objects_relation_ac: t.bc,
        objects_relation_bc: t.ac,
        creator: t.b,
    };
    assert_eq!(create_acknowledgment(&mut t.registry, &ctx, t.pa, 0, NOW), Ok(()));
}

#[test]
fn author_cannot_acknowledge() {
    let mut t = triangle();
    let ctx = CreateAcknowledgment {
        objects_relation_ac: t.ac,
        objects_relation_bc: t.bc,
        creator: t.a,
    };
    assert_eq!(
        create_acknowledgment(&mut t.registry, &ctx, t.pa, 0, NOW),
        Err(DelinkError::AuthorizationError)
    );
    let attachment = profile_attachment_address(&t.pa, 0).unwrap().0;
    assert!(!t.registry.contains(&acknowledgment_address(&attachment).unwrap().0));
    // The same after somebody else has acknowledged.
    let other = CreateAcknowledgment { creator: t.b, ..ctx };
    assert_eq!(create_acknowledgment(&mut t.registry, &other, t.pa, 0, NOW), Ok(()));
    assert_eq!(
        create_acknowledgment(&mut t.registry, &ctx, t.pa, 0, NOW),
        Err(DelinkError::AuthorizationError)
    );
}

#[test]
fn unlinked_profiles_cannot_acknowledge() {
    let mut t = triangle();
    // D is related to B only: no relation leads from D to C.
    let db = relation(&mut t.registry, t.d, t.pd, t.pb);
    let ctx = CreateAcknowledgment {
        objects_relation_ac: t.ac,
        objects_relation_bc: db,
        creator: t.d,
    };
    assert_eq!(
        create_acknowledgment(&mut t.registry, &ctx, t.pa, 0, NOW),
        Err(DelinkError::ProfilesNotLinkedError)
    );
    let attachment = profile_attachment_address(&t.pa, 0).unwrap().0;
    assert!(!t.registry.contains(&acknowledgment_address(&attachment).unwrap().0));
}

#[test]
fn no_common_target_no_acknowledgment() {
    let (a, b, c, d) = (external(1), external(2), external(3), external(4));
    let mut registry = Registry::new();
    let pa = profile(&mut registry, a);
    let pb = profile(&mut registry, b);
    let pc = profile(&mut registry, c);
    let pd = profile(&mut registry, d);
    let ac = relation(&mut registry, a, pa, pc);
    let bd = relation(&mut registry, b, pb, pd);
    assert_eq!(attach(&mut registry, a, pa, b"doc1"), Ok(()));
    let ctx = CreateAcknowledgment { objects_relation_ac: ac, objects_relation_bc: bd, creator: b };
    assert_eq!(
        create_acknowledgment(&mut registry, &ctx, pa, 0, NOW),
        Err(DelinkError::ProfilesNotLinkedError)
    );
    let attachment = profile_attachment_address(&pa, 0).unwrap().0;
    assert!(!registry.contains(&acknowledgment_address(&attachment).unwrap().0));
}

#[test]
fn relations_must_start_at_the_attachments_profile() {
    let mut t = triangle();
    // B to C and D to C point at one profile, but neither starts at A.
    let dc = relation(&mut t.registry, t.d, t.pd, t.pc);
    let ctx = CreateAcknowledgment {
        objects_relation_ac: t.bc,
        objects_relation_bc: dc,
        creator: t.b,
    };
    assert_eq!(
        create_acknowledgment(&mut t.registry, &ctx, t.pa, 0, NOW),
        Err(DelinkError::AuthorizationError)
    );
}

#[test]
fn second_acknowledgment_is_refused() {
    let mut t = triangle();
    let ctx = CreateAcknowledgment {
        objects_relation_ac: t.ac,
        objects_relation_bc: t.bc,
        creator: t.b,
    };
    assert_eq!(create_acknowledgment(&mut t.registry, &ctx, t.pa, 0, NOW), Ok(()));
    let attachment = profile_attachment_address(&t.pa, 0).unwrap().0;
    let address = acknowledgment_address(&attachment).unwrap().0;
    let before = t.registry.get(&address);
    assert_eq!(
        create_acknowledgment(&mut t.registry, &ctx, t.pa, 0, NOW + 1),
        Err(DelinkError::AlreadyExists)
    );
    let by_d = CreateAcknowledgment { creator: t.d, ..ctx };
    assert_eq!(
        create_acknowledgment(&mut t.registry, &by_d, t.pa, 0, NOW + 1),
        Err(DelinkError::AlreadyExists)
    );
    assert_eq!(t.registry.get(&address), before);
}

#[test]
fn acknowledgment_needs_attachment_and_relations() {
    let mut t = triangle();
    let ctx = CreateAcknowledgment {
        objects_relation_ac: t.ac,
        objects_relation_bc: t.bc,
        creator: t.b,
    };
    // No attachment has the index 1, and B's profile has none at all.
    assert_eq!(
        create_acknowledgment(&mut t.registry, &ctx, t.pa, 1, NOW),
        Err(DelinkError::NotFound)
    );
    assert_eq!(
        create_acknowledgment(&mut t.registry, &ctx, t.pb, 0, NOW),
        Err(DelinkError::NotFound)
    );
    // A profile is no relation.
    let ctx = CreateAcknowledgment { objects_relation_bc: t.pc, ..ctx };
    assert_eq!(
        create_acknowledgment(&mut t.registry, &ctx, t.pa, 0, NOW),
        Err(DelinkError::NotFound)
    );
    let ctx = CreateAcknowledgment {
        objects_relation_ac: relation_address(&t.pa, &t.pb).unwrap().0,
        objects_relation_bc: t.bc,
        creator: t.b,
    };
    assert_eq!(
        create_acknowledgment(&mut t.registry, &ctx, t.pa, 0, NOW),
        Err(DelinkError::NotFound)
    );
}

#[test]
fn acknowledgment_copies_the_attachments_index() {
    let mut t = triangle();
    assert_eq!(attach(&mut t.registry, t.a, t.pa, b"doc2"), Ok(()));
    assert_eq!(attach(&mut t.registry, t.a, t.pa, b"doc3"), Ok(()));
    let ctx = CreateAcknowledgment {
        objects_relation_ac: t.ac,
        objects_relation_bc: t.bc,
        creator: t.d,
    };
    assert_eq!(create_acknowledgment(&mut t.registry, &ctx, t.pa, 2, NOW), Ok(()));
    let attachment = profile_attachment_address(&t.pa, 2).unwrap().0;
    let address = acknowledgment_address(&attachment).unwrap().0;
    let acknowledgment = t.registry.acknowledgment(&address).unwrap();
    assert_eq!(acknowledgment.index, 2);
    assert_eq!(acknowledgment.entity_address, attachment);
    assert_eq!(acknowledgment.created_by, t.d);
    // The attachments 0 and 1 are not acknowledged by that.
    for index in 0u8..2 {
        let other = profile_attachment_address(&t.pa, index).unwrap().0;
        assert!(!t.registry.contains(&acknowledgment_address(&other).unwrap().0));
    }
}

#[test]
fn failed_operations_change_nothing() {
    let mut t = triangle();
    let addresses = vec![
        t.pa,
        t.pb,
        t.pc,
        t.pd,
        t.ac,
        t.bc,
        profile_attachment_address(&t.pa, 0).unwrap().0,
        profile_attachment_address(&t.pa, 1).unwrap().0,
        relation_address(&t.pa, &t.pb).unwrap().0,
        relation_address(&t.pa, &t.pa).unwrap().0,
        relation_attachment_address(&t.ac, 0).unwrap().0,
        acknowledgment_address(&profile_attachment_address(&t.pa, 0).unwrap().0).unwrap().0,
        profile_address(&external(9)).unwrap().0,
    ];
    let before: Vec<Option<Record>> = addresses.iter().map(|a| t.registry.get(a)).collect();

    let ctx = CreateObjectProfile { creator: t.a };
    assert!(create_object_profile(&mut t.registry, &ctx, t.a, NOW).is_err());
    assert!(create_object_profile(&mut t.registry, &ctx, external(9), NOW).is_err());
    let ctx = CreateObjectsRelation { object_a_profile: t.pa, object_b_profile: t.pb, creator: t.b };
    assert!(create_objects_relation(&mut t.registry, &ctx, NOW).is_err());
    let ctx = CreateObjectsRelation { object_a_profile: t.pa, object_b_profile: t.pa, creator: t.a };
    assert!(create_objects_relation(&mut t.registry, &ctx, NOW).is_err());
    assert!(attach(&mut t.registry, t.b, t.pa, b"doc").is_err());
    let ctx = CreateObjectsRelationAttachment { objects_relation: t.ac, creator: t.b };
    assert!(
        create_objects_relation_attachment(&mut t.registry, &ctx, [1u8; 128], [1u8; 64], NOW)
            .is_err()
    );
    let ctx = CreateAcknowledgment {
        objects_relation_ac: t.ac,
        objects_relation_bc: t.bc,
        creator: t.a,
    };
    assert!(create_acknowledgment(&mut t.registry, &ctx, t.pa, 0, NOW).is_err());

    let after: Vec<Option<Record>> = addresses.iter().map(|a| t.registry.get(a)).collect();
    assert_eq!(before, after);
}

#[test]
fn each_key_has_one_record() {
    let t = triangle();
    // Whichever way a record's address is reached, it is the one derived from
    // the record's own key fields.
    for address in [t.pa, t.pb, t.pc, t.pd] {
        let p = t.registry.profile(&address).unwrap();
        assert_eq!(profile_address(&p.object_address).unwrap(), (address, p.bump));
        assert_eq!(p.authority, p.object_address);
    }
    for address in [t.ac, t.bc] {
        let r = t.registry.relation(&address).unwrap();
        assert_eq!(
            relation_address(&r.object_a_profile_address, &r.object_b_profile_address).unwrap(),
            (address, r.bump)
        );
        assert_ne!(r.object_a_profile_address, r.object_b_profile_address);
    }
    let address = profile_attachment_address(&t.pa, 0).unwrap().0;
    let a = t.registry.attachment(&address).unwrap();
    assert_eq!(
        profile_attachment_address(&a.entity_address, a.index).unwrap(),
        (address, a.bump)
    );
}

#[test]
fn every_record_keeps_the_disambiguator_of_its_address() {
    let mut t = triangle();
    let rab = relation(&mut t.registry, t.a, t.pa, t.pb);
    let ctx = CreateObjectsRelationAttachment { objects_relation: rab, creator: t.a };
    assert_eq!(
        create_objects_relation_attachment(&mut t.registry, &ctx, [0u8; 128], [0u8; 64], NOW),
        Ok(())
    );
    let ctx = CreateAcknowledgment {
        objects_relation_ac: t.ac,
        objects_relation_bc: t.bc,
        creator: t.b,
    };
    assert_eq!(create_acknowledgment(&mut t.registry, &ctx, t.pa, 0, NOW), Ok(()));
    for address in [t.pa, t.pb, t.pc, t.pd] {
        assert!(t.registry.profile(&address).unwrap().belongs_at(&address));
    }
    for address in [t.ac, t.bc, rab] {
        assert!(t.registry.relation(&address).unwrap().belongs_at(&address));
    }
    let on_profile = profile_attachment_address(&t.pa, 0).unwrap().0;
    assert!(t.registry.attachment(&on_profile).unwrap().belongs_on_profile_at(&on_profile));
    let on_relation = relation_attachment_address(&rab, 0).unwrap().0;
    assert!(t.registry.attachment(&on_relation).unwrap().belongs_on_relation_at(&on_relation));
    let acknowledged = acknowledgment_address(&on_profile).unwrap().0;
    assert!(t.registry.acknowledgment(&acknowledged).unwrap().belongs_at(&acknowledged));
}

#[test]
fn only_the_address_itself_is_authorized_for_its_profile() {
    let ctx = CreateObjectProfile { creator: external(1) };
    assert_eq!(ctx.authorize(&external(1)), Ok(()));
    assert_eq!(ctx.authorize(&external(2)), Err(DelinkError::AuthorizationError));
}

#[test]
fn relation_is_authorized_for_the_owner_of_the_source() {
    let mut source = ObjectProfile::default();
    source.init(external(1), external(1), 255, NOW);
    let ctx = CreateObjectsRelation {
        object_a_profile: external(10),
        object_b_profile: external(20),
        creator: external(1),
    };
    assert_eq!(ctx.authorize(&source), Ok(()));
    let stranger = CreateObjectsRelation { creator: external(2), ..ctx };
    assert_eq!(stranger.authorize(&source), Err(DelinkError::AuthorizationError));
    let own = CreateObjectsRelation { object_b_profile: external(10), ..ctx };
    assert_eq!(own.authorize(&source), Err(DelinkError::CyclicLinkError));
    let both = CreateObjectsRelation { object_b_profile: external(10), ..stranger };
    assert_eq!(both.authorize(&source), Err(DelinkError::AuthorizationError));
}

#[test]
fn attachment_is_authorized_for_the_owner_of_the_parent() {
    let mut profile = ObjectProfile::default();
    profile.init(external(1), external(1), 255, NOW);
    let ctx = CreateObjectProfileAttachment { object_profile: external(10), creator: external(1) };
    assert_eq!(ctx.authorize(&profile), Ok(()));
    let ctx = CreateObjectProfileAttachment { object_profile: external(10), creator: external(2) };
    assert_eq!(ctx.authorize(&profile), Err(DelinkError::AuthorizationError));

    let mut relation = ObjectsRelation::default();
    relation.init(external(10), external(20), external(1), 255, NOW);
    let ctx = CreateObjectsRelationAttachment {
        objects_relation: external(30),
        creator: external(1),
    };
    assert_eq!(ctx.authorize(&relation), Ok(()));
    let ctx = CreateObjectsRelationAttachment {
        objects_relation: external(30),
        creator: external(2),
    };
    assert_eq!(ctx.authorize(&relation), Err(DelinkError::AuthorizationError));
}

#[test]
fn acknowledgment_is_authorized_by_triangulation() {
    let (a, b) = (external(1), external(2));
    let (pa, pb, pc, pd) = (external(10), external(20), external(30), external(40));
    let mut attachment = Attachment::default();
    attachment.init(pa, [0u8; 128], [0u8; 64], a, 0, 255, NOW);
    let mut ac = ObjectsRelation::default();
    ac.init(pa, pc, a, 255, NOW);
    let mut bc = ObjectsRelation::default();
    bc.init(pb, pc, b, 255, NOW);
    let mut bd = ObjectsRelation::default();
    bd.init(pb, pd, b, 255, NOW);
    let mut dc = ObjectsRelation::default();
    dc.init(pd, pc, external(4), 255, NOW);
    let ctx = CreateAcknowledgment {
        objects_relation_ac: external(50),
        objects_relation_bc: external(60),
        creator: b,
    };
    assert_eq!(ctx.authorize(&pa, &attachment, &ac, &bc), Ok(()));
    assert_eq!(ctx.authorize(&pa, &attachment, &bc, &ac), Ok(()));
    assert_eq!(ctx.authorize(&pa, &attachment, &ac, &ac), Ok(()));
    assert_eq!(
        ctx.authorize(&pa, &attachment, &ac, &bd),
        Err(DelinkError::ProfilesNotLinkedError)
    );
    assert_eq!(
        ctx.authorize(&pa, &attachment, &bc, &dc),
        Err(DelinkError::AuthorizationError)
    );
    assert_eq!(
        ctx.authorize(&pb, &attachment, &ac, &bc),
        Err(DelinkError::AuthorizationError)
    );
    let author = CreateAcknowledgment { creator: a, ..ctx };
    assert_eq!(
        author.authorize(&pa, &attachment, &ac, &bc),
        Err(DelinkError::AuthorizationError)
    );
    // The author is refused as such, whatever the relations are.
    assert_eq!(
        author.authorize(&pa, &attachment, &ac, &bd),
        Err(DelinkError::AuthorizationError)
    );
}
