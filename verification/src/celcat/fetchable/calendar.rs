//! Calendar data as served by the remote service: one raw course entry per
//! event in the requested window.

use vstd::prelude::*;

use crate::celcat::fetchable::Fetchable;
use crate::celcat::resource::{ModuleId, ResourceTypeTrait, WrapResourceType};
use crate::datetime::DateTime;

verus! {

/// Opaque identifier of one course occurrence in the remote system: the
/// deduplication key of the synchronization run.
#[derive(Debug, Clone, PartialEq, Eq)]
pub struct CourseId(pub String);

impl View for CourseId {
    type V = Seq<char>;

    open spec fn view(&self) -> Seq<char> {
        self.0@
    }
}

impl CourseId {
    pub fn eq_id(&self, other: &CourseId) -> (r: bool)
        ensures
            r == (self@ == other@),
    {
        self.0 == other.0
    }
}

/// One raw calendar entry, as the calendar-data endpoint returns it.
#[derive(Debug, PartialEq, Eq)]
pub struct Course {
    pub id: CourseId,
    pub start: DateTime,
    pub end: DateTime,
    pub all_day: bool,
    pub description: String,
    pub background_color: String,
    pub text_color: String,
    pub department: Option<String>,
    pub faculty: Option<String>,
    pub event_category: Option<String>,
    pub sites: Option<Vec<String>>,
    pub modules: Option<Vec<ModuleId>>,
    pub register_status: i64,
    pub student_mark: i64,
}

/// The calendar views the service can be asked for.
#[derive(Debug, Clone, Copy, PartialEq, Eq, Structural)]
pub enum CalView {
    Month,
    AgendaWeek,
    AgendaDay,
    ListWeek,
}

/// The request for calendar data of one resource over one time window.
#[derive(Debug)]
pub struct CalendarDataRequest<T: ResourceTypeTrait> {
    pub start: DateTime,
    pub end: DateTime,
    pub res_type: WrapResourceType<T>,
    pub cal_view: CalView,
    pub federation_ids: T::Id,
    pub colour_scheme: i64,
}

/// The calendar-data reply: the courses of the requested window.
#[derive(Debug)]
pub struct CalendarData<T: ResourceTypeTrait> {
    pub courses: Vec<Course>,
    pub request: WrapResourceType<T>,
}

impl<T: ResourceTypeTrait> Fetchable for CalendarData<T> {
    type Request = CalendarDataRequest<T>;

    fn method_name() -> &'static str {
        "GetCalendarData"
    }
}

} // verus!
