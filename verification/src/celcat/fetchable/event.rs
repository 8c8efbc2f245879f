//! Side bar events: the labeled detail elements the remote service attaches
//! to one course occurrence. Only a fixed subset of labels is meaningful;
//! everything else is carried but ignored by the import.

use vstd::prelude::*;

use crate::celcat::entity::{EntityTypeTrait, Unknown, UnknownId, WrapEntityType};
use crate::celcat::fetchable::calendar::CourseId;
use crate::celcat::fetchable::Fetchable;
use crate::celcat::resource;

verus! {

/// The body of one labeled detail element.
#[derive(Debug)]
pub struct RawSideBarEventElement<T: EntityTypeTrait> {
    pub content: Option<String>,
    pub federation_id: T::Id,
    pub entity_type: WrapEntityType<T>,
    pub assignment_context: Option<String>,
    pub contains_hyperlinks: bool,
    pub is_notes: bool,
    pub is_student_specific: bool,
}

/// One labeled detail element: a closed sum over the labels the remote
/// service emits. The import reads `Category`, `Module`, `Room`, `Teacher`
/// and `Name`; `Time` and `Grades` are carried but ignored.
#[derive(Debug)]
pub enum SideBarEventElement {
    Time(RawSideBarEventElement<Unknown>),
    Category(RawSideBarEventElement<Unknown>),
    Module(RawSideBarEventElement<resource::Module>),
    Room(RawSideBarEventElement<resource::Room>),
    Teacher(RawSideBarEventElement<resource::Teacher>),
    Grades(RawSideBarEventElement<Unknown>),
    Name(RawSideBarEventElement<Unknown>),
}

/// The label of a detail element, as a plain value.
#[derive(Clone, Copy, PartialEq, Eq, Structural, Debug)]
pub enum Label {
    Time,
    Category,
    Module,
    Room,
    Teacher,
    Grades,
    Name,
}

impl SideBarEventElement {
    /// The label of this element.
    pub open spec fn spec_label(&self) -> Label {
        match self {
            SideBarEventElement::Time(_) => Label::Time,
            SideBarEventElement::Category(_) => Label::Category,
            SideBarEventElement::Module(_) => Label::Module,
            SideBarEventElement::Room(_) => Label::Room,
            SideBarEventElement::Teacher(_) => Label::Teacher,
            SideBarEventElement::Grades(_) => Label::Grades,
            SideBarEventElement::Name(_) => Label::Name,
        }
    }

    /// The label of this element.
    pub fn label(&self) -> (l: Label)
        ensures
            l == self.spec_label(),
    {
        match self {
            SideBarEventElement::Time(_) => Label::Time,
            SideBarEventElement::Category(_) => Label::Category,
            SideBarEventElement::Module(_) => Label::Module,
            SideBarEventElement::Room(_) => Label::Room,
            SideBarEventElement::Teacher(_) => Label::Teacher,
            SideBarEventElement::Grades(_) => Label::Grades,
            SideBarEventElement::Name(_) => Label::Name,
        }
    }

    /// The free-text content of the element, whatever its label.
    pub open spec fn spec_content(&self) -> Option<Seq<char>> {
        match self {
            SideBarEventElement::Time(e) => spec_content_of(&e.content),
            SideBarEventElement::Category(e) => spec_content_of(&e.content),
            SideBarEventElement::Module(e) => spec_content_of(&e.content),
            SideBarEventElement::Room(e) => spec_content_of(&e.content),
            SideBarEventElement::Teacher(e) => spec_content_of(&e.content),
            SideBarEventElement::Grades(e) => spec_content_of(&e.content),
            SideBarEventElement::Name(e) => spec_content_of(&e.content),
        }
    }
}

/// The characters of an optional string.
pub open spec fn spec_content_of(c: &Option<String>) -> Option<Seq<char>> {
    match c {
        Some(s) => Some(s@),
        None => None,
    }
}

/// The detail record of one course occurrence: an ordered list of labeled
/// elements.
#[derive(Debug)]
pub struct SideBarEvent {
    pub federation_id: UnknownId,
    pub entity_type: WrapEntityType<Unknown>,
    pub elements: Vec<SideBarEventElement>,
}

/// The request for the side bar event of one course.
#[derive(Debug)]
pub struct SideBarEventRequest {
    pub event_id: CourseId,
}

impl Fetchable for SideBarEvent {
    type Request = SideBarEventRequest;

    fn method_name() -> &'static str {
        "GetSideBarEvent"
    }
}

} // verus!
