//! Kinds of resources known to the remote calendar service, the numeric
//! codes they travel as on the wire, and the identifier type of each kind.

use vstd::prelude::*;

verus! {

/// Runtime representation of the kind of a resource.
///
/// On the wire each kind is a small number; the mapping in both directions
/// is given by [`ResourceType::to_u8`] and [`ResourceType::from_u8`].
#[derive(Clone, Copy, PartialEq, Eq, Structural, Debug, Hash)]
pub enum ResourceType {
    Module,
    Teacher,
    Room,
    Group,
    Student,
}

impl ResourceType {
    /// The wire code of this resource kind.
    pub open spec fn spec_to_u8(self) -> u8 {
        match self {
            ResourceType::Module => 100,
            ResourceType::Teacher => 101,
            ResourceType::Room => 102,
            ResourceType::Group => 103,
            ResourceType::Student => 104,
        }
    }

    /// The resource kind a wire code stands for, if any.
    pub open spec fn spec_from_u8(n: u8) -> Option<ResourceType> {
        if n == 100 {
            Some(ResourceType::Module)
        } else if n == 101 {
            Some(ResourceType::Teacher)
        } else if n == 102 {
            Some(ResourceType::Room)
        } else if n == 103 {
            Some(ResourceType::Group)
        } else if n == 104 {
            Some(ResourceType::Student)
        } else {
            None
        }
    }

    pub fn to_u8(self) -> (n: u8)
        ensures
            n == self.spec_to_u8(),
    {
        match self {
            ResourceType::Module => 100,
            ResourceType::Teacher => 101,
            ResourceType::Room => 102,
            ResourceType::Group => 103,
            ResourceType::Student => 104,
        }
    }

    pub fn from_u8(n: u8) -> (r: Option<ResourceType>)
        ensures
            r == Self::spec_from_u8(n),
    {
        if n == 100 {
            Some(ResourceType::Module)
        } else if n == 101 {
            Some(ResourceType::Teacher)
        } else if n == 102 {
            Some(ResourceType::Room)
        } else if n == 103 {
            Some(ResourceType::Group)
        } else if n == 104 {
            Some(ResourceType::Student)
        } else {
            None
        }
    }
}

/// Decoding a resource kind's own wire code gives that kind back, and a code
/// that decodes at all re-encodes to itself: the two directions of the wire
/// mapping agree exactly.
pub proof fn lemma_resource_type_code_round_trip()
    ensures
        forall|rt: ResourceType|
            ResourceType::spec_from_u8(#[trigger] rt.spec_to_u8()) == Some(rt),
        forall|n: u8|
            (#[trigger] ResourceType::spec_from_u8(n)) is Some
                ==> ResourceType::spec_from_u8(n)->0.spec_to_u8() == n,
{
}

/// An identifier of one resource of some kind: a thin wrapper over the
/// string the remote service uses.
pub trait ResourceId: Sized {
    /// The characters of the identifier.
    spec fn id_view(&self) -> Seq<char>;

    /// Wraps a raw identifier string.
    fn from_str(s: &str) -> (r: Self)
        ensures
            r.id_view() == s@,
    ;
}

/// ID of a formation (a module of study).
#[derive(Debug, Clone, PartialEq, Eq)]
pub struct ModuleId(pub String);

impl ResourceId for ModuleId {
    open spec fn id_view(&self) -> Seq<char> {
        self.0@
    }

    fn from_str(s: &str) -> (r: Self) {
        ModuleId(s.to_owned())
    }
}

/// ID of a teacher.
#[derive(Debug, Clone, PartialEq, Eq)]
pub struct TeacherId(pub String);

impl ResourceId for TeacherId {
    open spec fn id_view(&self) -> Seq<char> {
        self.0@
    }

    fn from_str(s: &str) -> (r: Self) {
        TeacherId(s.to_owned())
    }
}

/// ID of a room.
#[derive(Debug, Clone, PartialEq, Eq)]
pub struct RoomId(pub String);

impl ResourceId for RoomId {
    open spec fn id_view(&self) -> Seq<char> {
        self.0@
    }

    fn from_str(s: &str) -> (r: Self) {
        RoomId(s.to_owned())
    }
}

/// ID of a group.
#[derive(Debug, Clone, PartialEq, Eq)]
pub struct GroupId(pub String);

impl ResourceId for GroupId {
    open spec fn id_view(&self) -> Seq<char> {
        self.0@
    }

    fn from_str(s: &str) -> (r: Self) {
        GroupId(s.to_owned())
    }
}

/// ID of a student: the number on the student id card, as a string.
#[derive(Debug, Clone, PartialEq, Eq)]
pub struct StudentId(pub String);

impl ResourceId for StudentId {
    open spec fn id_view(&self) -> Seq<char> {
        self.0@
    }

    fn from_str(s: &str) -> (r: Self) {
        StudentId(s.to_owned())
    }
}

/// Compile-time representation of a resource kind: one marker type per kind,
/// each naming its identifier type and its [`ResourceType`] value.
pub trait ResourceTypeTrait: Sized {
    type Id: ResourceId;

    /// The kind this marker stands for.
    spec fn spec_tag() -> ResourceType;

    /// The runtime value of the kind.
    fn type_tag() -> (t: ResourceType)
        ensures
            t == Self::spec_tag(),
    ;

    /// The marker value itself.
    fn marker() -> Self;
}

/// Wrapper that carries a resource-kind marker where a value is needed.
#[derive(Debug, PartialEq, Eq)]
pub struct WrapResourceType<T: ResourceTypeTrait>(pub T);

impl<T: ResourceTypeTrait> WrapResourceType<T> {
    /// The wire code this marker serializes to.
    pub fn encode(&self) -> (n: u8)
        ensures
            n == T::spec_tag().spec_to_u8(),
    {
        T::type_tag().to_u8()
    }

    /// Accepts exactly the wire code of this marker's kind, as the service's
    /// typed endpoints do: any other code is rejected.
    pub fn decode(n: u8) -> (r: Option<WrapResourceType<T>>)
        ensures
            r is Some <==> ResourceType::spec_from_u8(n) == Some(T::spec_tag()),
    {
        match ResourceType::from_u8(n) {
            Some(rt) => {
                if rt.to_u8() == T::type_tag().to_u8() {
                    Some(WrapResourceType(T::marker()))
                } else {
                    None
                }
            },
            None => None,
        }
    }
}

/// Marker for the module (formation) resource kind.
#[derive(Debug, Clone, Copy, PartialEq, Eq, Structural)]
pub struct Module;

impl ResourceTypeTrait for Module {
    type Id = ModuleId;

    open spec fn spec_tag() -> ResourceType {
        ResourceType::Module
    }

    fn type_tag() -> ResourceType {
        ResourceType::Module
    }

    fn marker() -> Self {
        Module
    }
}

/// Marker for the teacher resource kind.
#[derive(Debug, Clone, Copy, PartialEq, Eq, Structural)]
pub struct Teacher;

impl ResourceTypeTrait for Teacher {
    type Id = TeacherId;

    open spec fn spec_tag() -> ResourceType {
        ResourceType::Teacher
    }

    fn type_tag() -> ResourceType {
        ResourceType::Teacher
    }

    fn marker() -> Self {
        Teacher
    }
}

/// Marker for the room resource kind.
#[derive(Debug, Clone, Copy, PartialEq, Eq, Structural)]
pub struct Room;

impl ResourceTypeTrait for Room {
    type Id = RoomId;

    open spec fn spec_tag() -> ResourceType {
        ResourceType::Room
    }

    fn type_tag() -> ResourceType {
        ResourceType::Room
    }

    fn marker() -> Self {
        Room
    }
}

/// Marker for the group resource kind.
#[derive(Debug, Clone, Copy, PartialEq, Eq, Structural)]
pub struct Group;

impl ResourceTypeTrait for Group {
    type Id = GroupId;

    open spec fn spec_tag() -> ResourceType {
        ResourceType::Group
    }

    fn type_tag() -> ResourceType {
        ResourceType::Group
    }

    fn marker() -> Self {
        Group
    }
}

/// Marker for the student resource kind.
#[derive(Debug, Clone, Copy, PartialEq, Eq, Structural)]
pub struct Student;

impl ResourceTypeTrait for Student {
    type Id = StudentId;

    open spec fn spec_tag() -> ResourceType {
        ResourceType::Student
    }

    fn type_tag() -> ResourceType {
        ResourceType::Student
    }

    fn marker() -> Self {
        Student
    }
}

} // verus!
