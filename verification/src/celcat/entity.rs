//! Entities known to the remote calendar service: either a resource of one
//! of the known kinds, or the unknown entity (wire code 0).

use vstd::prelude::*;

use crate::celcat::resource::{ResourceId, ResourceType, ResourceTypeTrait};

verus! {

/// Runtime representation of the kind of an entity.
#[derive(Clone, Copy, PartialEq, Eq, Structural, Debug)]
pub enum EntityType {
    Unknown,
    Resource(ResourceType),
}

impl EntityType {
    /// The wire code of this entity kind: 0 for the unknown entity, the
    /// resource kind's own code otherwise.
    pub open spec fn spec_to_u8(self) -> u8 {
        match self {
            EntityType::Unknown => 0,
            EntityType::Resource(rt) => rt.spec_to_u8(),
        }
    }

    /// The entity kind a wire code stands for, if any.
    pub open spec fn spec_from_u8(n: u8) -> Option<EntityType> {
        if n == 0 {
            Some(EntityType::Unknown)
        } else {
            match ResourceType::spec_from_u8(n) {
                Some(rt) => Some(EntityType::Resource(rt)),
                None => None,
            }
        }
    }

    pub fn to_u8(self) -> (n: u8)
        ensures
            n == self.spec_to_u8(),
    {
        match self {
            EntityType::Unknown => 0,
            EntityType::Resource(rt) => rt.to_u8(),
        }
    }

    pub fn from_u8(n: u8) -> (r: Option<EntityType>)
        ensures
            r == Self::spec_from_u8(n),
    {
        if n == 0 {
            Some(EntityType::Unknown)
        } else {
            match ResourceType::from_u8(n) {
                Some(rt) => Some(EntityType::Resource(rt)),
                None => None,
            }
        }
    }
}

/// Decoding an entity kind's own wire code gives that kind back, and a code
/// that decodes at all re-encodes to itself.
pub proof fn lemma_entity_type_code_round_trip()
    ensures
        forall|et: EntityType|
            EntityType::spec_from_u8(#[trigger] et.spec_to_u8()) == Some(et),
        forall|n: u8|
            (#[trigger] EntityType::spec_from_u8(n)) is Some
                ==> EntityType::spec_from_u8(n)->0.spec_to_u8() == n,
{
}

/// The identifier of an entity of some kind.
pub trait EntityId: Sized {
    /// The characters of the identifier; the unknown entity has none.
    spec fn entity_id_view(&self) -> Seq<char>;
}

impl<T: ResourceId> EntityId for T {
    open spec fn entity_id_view(&self) -> Seq<char> {
        self.id_view()
    }
}

/// The identifier of the unknown entity: it carries nothing.
#[derive(Debug, Default, Clone, Copy, PartialEq, Eq, Structural)]
pub struct UnknownId;

impl EntityId for UnknownId {
    open spec fn entity_id_view(&self) -> Seq<char> {
        Seq::empty()
    }
}

/// Compile-time representation of an entity kind: one marker type per kind,
/// naming its identifier type and its [`EntityType`] value.
pub trait EntityTypeTrait: Sized {
    type Id: EntityId;

    /// The kind this marker stands for.
    spec fn spec_entity_tag() -> EntityType;

    /// The runtime value of the kind.
    fn entity_tag() -> (t: EntityType)
        ensures
            t == Self::spec_entity_tag(),
    ;

    /// The marker value itself.
    fn entity_marker() -> Self;
}

impl<T: ResourceTypeTrait> EntityTypeTrait for T {
    type Id = T::Id;

    open spec fn spec_entity_tag() -> EntityType {
        EntityType::Resource(T::spec_tag())
    }

    fn entity_tag() -> EntityType {
        EntityType::Resource(T::type_tag())
    }

    fn entity_marker() -> Self {
        T::marker()
    }
}

/// Marker for the unknown entity kind.
#[derive(Debug, Default, Clone, Copy, PartialEq, Eq, Structural)]
pub struct Unknown;

impl EntityTypeTrait for Unknown {
    type Id = UnknownId;

    open spec fn spec_entity_tag() -> EntityType {
        EntityType::Unknown
    }

    fn entity_tag() -> EntityType {
        EntityType::Unknown
    }

    fn entity_marker() -> Self {
        Unknown
    }
}

/// Wrapper that carries an entity-kind marker where a value is needed.
#[derive(Debug)]
pub struct WrapEntityType<T: EntityTypeTrait>(pub T);

impl<T: EntityTypeTrait> WrapEntityType<T> {
    /// The wire code this marker serializes to.
    pub fn encode(&self) -> (n: u8)
        ensures
            n == T::spec_entity_tag().spec_to_u8(),
    {
        T::entity_tag().to_u8()
    }

    /// Accepts exactly the wire code of this marker's kind; any other code
    /// is rejected, as the service's typed endpoints do.
    pub fn decode(n: u8) -> (r: Option<WrapEntityType<T>>)
        ensures
            r is Some <==> EntityType::spec_from_u8(n) == Some(T::spec_entity_tag()),
    {
        match EntityType::from_u8(n) {
            Some(et) => {
                if et.to_u8() == T::entity_tag().to_u8() {
                    proof {
                        lemma_entity_type_code_round_trip();
                    }
                    Some(WrapEntityType(T::entity_marker()))
                } else {
                    proof {
                        lemma_entity_type_code_round_trip();
                    }
                    None
                }
            },
            None => None,
        }
    }
}

} // verus!
