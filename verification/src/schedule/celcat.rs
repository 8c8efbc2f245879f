//! Decoding of the remote service's labeled detail elements into the
//! persisted course record.
//!
//! Only a fixed subset of labels maps to record fields — category, module,
//! room, teacher, and the name, which becomes the description — and where a
//! label occurs more than once, the last occurrence wins, as the elements
//! are applied in order. Every other label is ignored.

use vstd::prelude::*;

use crate::celcat::fetchable::calendar;
use crate::celcat::fetchable::event::{spec_content_of, Label, SideBarEvent, SideBarEventElement};
use crate::schedule::Course;

verus! {

/// The record field a labeled element list yields for label `l`: the
/// content of the last element carrying that label, or nothing if no
/// element does. A last matching element whose content is empty leaves the
/// field empty too.
pub open spec fn field_for(elems: Seq<SideBarEventElement>, l: Label) -> Option<Seq<char>>
    decreases elems.len(),
{
    if elems.len() == 0 {
        None
    } else {
        let e = elems[elems.len() - 1];
        if e.spec_label() == l {
            e.spec_content()
        } else {
            field_for(elems.drop_last(), l)
        }
    }
}

/// Copies the content of an element, preserving its characters.
fn clone_content(o: &Option<String>) -> (r: Option<String>)
    ensures
        spec_content_of(&r) == spec_content_of(o),
{
    match o {
        Some(s) => Some(s.clone()),
        None => None,
    }
}

/// Builds the persisted course record from one raw calendar entry and its
/// side bar event: identifier and times come from the calendar entry, the
/// descriptive fields from the labeled elements, each field taking the
/// content of the last element with its label.
pub fn side_bar_event_to_course(c: calendar::Course, s: SideBarEvent) -> (r: Course)
    ensures
        r.id@ == c.id@,
        r.start_time == c.start,
        r.end_time == Some(c.end),
        spec_content_of(&r.category) == field_for(s.elements@, Label::Category),
        spec_content_of(&r.module) == field_for(s.elements@, Label::Module),
        spec_content_of(&r.room) == field_for(s.elements@, Label::Room),
        spec_content_of(&r.teacher) == field_for(s.elements@, Label::Teacher),
        spec_content_of(&r.description) == field_for(s.elements@, Label::Name),
{
    let mut category: Option<String> = None;
    let mut module: Option<String> = None;
    let mut room: Option<String> = None;
    let mut teacher: Option<String> = None;
    let mut description: Option<String> = None;

    let n = s.elements.len();
    let mut i: usize = 0;
    while i < n
        invariant
            i <= n,
            n == s.elements@.len(),
            spec_content_of(&category) == field_for(s.elements@.subrange(0, i as int), Label::Category),
            spec_content_of(&module) == field_for(s.elements@.subrange(0, i as int), Label::Module),
            spec_content_of(&room) == field_for(s.elements@.subrange(0, i as int), Label::Room),
            spec_content_of(&teacher) == field_for(s.elements@.subrange(0, i as int), Label::Teacher),
            spec_content_of(&description) == field_for(s.elements@.subrange(0, i as int), Label::Name),
        decreases n - i,
    {
        let e = &s.elements[i];
        match e {
            SideBarEventElement::Category(raw) => {
                category = clone_content(&raw.content);
            },
            SideBarEventElement::Module(raw) => {
                module = clone_content(&raw.content);
            },
            SideBarEventElement::Room(raw) => {
                room = clone_content(&raw.content);
            },
            SideBarEventElement::Teacher(raw) => {
                teacher = clone_content(&raw.content);
            },
            SideBarEventElement::Name(raw) => {
                description = clone_content(&raw.content);
            },
            SideBarEventElement::Time(_) => {},
            SideBarEventElement::Grades(_) => {},
        }
        proof {
            let pre = s.elements@.subrange(0, i as int);
            let post = s.elements@.subrange(0, i + 1 as int);
            assert(post.drop_last() =~= pre);
            assert(post[post.len() - 1] == s.elements@[i as int]);
        }
        i = i + 1;
    }
    proof {
        assert(s.elements@.subrange(0, s.elements@.len() as int) =~= s.elements@);
    }
    Course {
        id: c.id.0,
        start_time: c.start,
        end_time: Some(c.end),
        category,
        module,
        room,
        teacher,
        description,
    }
}

} // verus!
