//! Wire codes of the entity and resource kinds, and the identifier types.

use cyrel::celcat::entity::{EntityType, Unknown, WrapEntityType};
use cyrel::celcat::resource::{
    Group, Module, ModuleId, ResourceId, ResourceType, Room, Student, TeacherId, WrapResourceType,
};

#[test]
fn entity_serialize_entity_type() {
    assert_eq!(WrapEntityType(Unknown).encode(), 0);
    assert_eq!(WrapEntityType(Room).encode(), 102);
}

#[test]
fn entity_deserialize_entity_type() {
    assert!(WrapEntityType::<Unknown>::decode(0).is_some());
    assert!(WrapEntityType::<Group>::decode(103).is_some());
    assert!(WrapEntityType::<Group>::decode(101).is_none());
    assert!(WrapEntityType::<Unknown>::decode(99).is_none());
}

#[test]
fn mod_serialize_entity_type() {
    assert_eq!(EntityType::Unknown.to_u8(), 0);
    assert_eq!(EntityType::Resource(ResourceType::Student).to_u8(), 104);
}

#[test]
fn mod_deserialize_entity_type() {
    assert_eq!(EntityType::from_u8(0), Some(EntityType::Unknown));
    assert_eq!(
        EntityType::from_u8(101),
        Some(EntityType::Resource(ResourceType::Teacher))
    );
    assert_eq!(EntityType::from_u8(99), None);
}

#[test]
fn resource_serialize_resource_type() {
    assert_eq!(WrapResourceType(Room).encode(), 102);
    assert_eq!(ResourceType::Module.to_u8(), 100);
    assert_eq!(ResourceType::Student.to_u8(), 104);
}

#[test]
fn resource_deserialize_resource_type() {
    assert!(WrapResourceType::<Group>::decode(103).is_some());
    assert!(WrapResourceType::<Student>::decode(102).is_none());
    assert_eq!(ResourceType::from_u8(101), Some(ResourceType::Teacher));
    assert_eq!(ResourceType::from_u8(103), Some(ResourceType::Group));
    assert_eq!(ResourceType::from_u8(99), None);
    assert_eq!(ResourceType::from_u8(0), None);
}

#[test]
fn serialize_formation_id() {
    let id = ModuleId("DIHB3PRF".to_owned());
    assert_eq!(id.0.as_str(), "DIHB3PRF");
}

#[test]
fn deserialize_formation_id() {
    assert_eq!(
        <ModuleId as ResourceId>::from_str("2FSA31BU"),
        ModuleId("2FSA31BU".to_owned())
    );
}

#[test]
fn serialize_teacher_id() {
    let id = TeacherId("92144".to_owned());
    assert_eq!(id.0.as_str(), "92144");
}

#[test]
fn deserialize_teacher_id() {
    assert_eq!(
        <TeacherId as ResourceId>::from_str("92624"),
        TeacherId("92624".to_owned())
    );
}

#[test]
fn round_trip_all_resource_codes() {
    for rt in [
        ResourceType::Module,
        ResourceType::Teacher,
        ResourceType::Room,
        ResourceType::Group,
        ResourceType::Student,
    ] {
        assert_eq!(ResourceType::from_u8(rt.to_u8()), Some(rt));
    }
    assert_eq!(WrapResourceType(Module).encode(), 100);
}
