//! The fetch-and-persist worker's policy: what to do with each reply of the
//! remote event fetcher, and how long to back off before another attempt.
//!
//! Transient failures (network and remote server errors) are retried with
//! exponential backoff, starting at 100 milliseconds and capped at one
//! minute, with no bound on the number of attempts. A permanent failure
//! stops the retries; the worker then still opens the course's gate, with a
//! failure outcome, so that no duplicate request is left blocked forever —
//! the explicit remediation this crate chooses for the
//! gate-never-opens defect class.

use vstd::prelude::*;

use crate::celcat::fetchable::calendar;
use crate::celcat::fetchable::event::{spec_content_of, Label, SideBarEvent};
use crate::schedule::celcat::{field_for, side_bar_event_to_course};
use crate::schedule::Course;
use crate::wait::Outcome;

verus! {

/// How one attempt of the remote event fetcher ended.
#[derive(Debug)]
pub enum FetchReply {
    /// The detail record arrived.
    Detail(SideBarEvent),
    /// A retryable failure: a network or transport error, or a remote
    /// server error.
    Transient,
    /// A failure no retry can mend: a malformed response, or a response
    /// that does not denote an event.
    Permanent,
}

/// What the worker does next after one attempt.
#[derive(Debug)]
pub enum WorkerAction {
    /// Upsert this record, then open the course's gate with a success outcome.
    Persist(Course),
    /// Suspend for this many milliseconds, then attempt the fetch again.
    Retry(u64),
    /// Stop retrying and open the course's gate with a failure outcome.
    Abandon,
}

/// The backoff delay, in milliseconds, before retry number `attempt`:
/// 100 ms doubled each attempt, capped at 60 s.
pub open spec fn spec_backoff_ms(attempt: nat) -> nat
    decreases attempt,
{
    if attempt == 0 {
        100
    } else {
        let d = 2 * spec_backoff_ms((attempt - 1) as nat);
        if d > 60000 {
            60000
        } else {
            d
        }
    }
}

/// The backoff delay never exceeds the one-minute cap.
pub proof fn lemma_backoff_capped(attempt: nat)
    ensures
        100 <= spec_backoff_ms(attempt) <= 60000,
    decreases attempt,
{
    if attempt > 0 {
        lemma_backoff_capped((attempt - 1) as nat);
    }
}

/// Computes the backoff delay before retry number `attempt`.
pub fn backoff_ms(attempt: u32) -> (d: u64)
    ensures
        d == spec_backoff_ms(attempt as nat),
{
    let mut d: u64 = 100;
    let mut i: u32 = 0;
    while i < attempt
        invariant
            i <= attempt,
            d == spec_backoff_ms(i as nat),
            100 <= d <= 60000,
        decreases attempt - i,
    {
        proof {
            lemma_backoff_capped((i + 1) as nat);
        }
        let next = 2 * d;
        d = if next > 60000 {
            60000
        } else {
            next
        };
        i = i + 1;
    }
    d
}

impl WorkerAction {
    /// The outcome the course's gate is opened with once the worker stops: success
    /// after a persist, failure after abandoning. While a retry is
    /// scheduled the course's gate stays pending.
    pub open spec fn spec_outcome(&self) -> Option<Outcome> {
        match self {
            WorkerAction::Persist(_) => Some(Outcome::Success),
            WorkerAction::Retry(_) => None,
            WorkerAction::Abandon => Some(Outcome::Failure),
        }
    }
}

/// Decides the worker's next step from the reply of attempt number
/// `attempt` for the calendar entry `c`.
///
/// A detail record is decoded field by field into the course record to
/// upsert; a transient failure schedules one more attempt after the
/// backoff delay; a permanent failure abandons the course, which still
/// opens its gate — with a failure outcome — so no waiter deadlocks.
pub fn worker_step(c: calendar::Course, reply: FetchReply, attempt: u32) -> (a: WorkerAction)
    ensures
        reply matches FetchReply::Detail(s) ==> (a matches WorkerAction::Persist(r)
            && r.id@ == c.id@
            && r.start_time == c.start
            && r.end_time == Some(c.end)
            && spec_content_of(&r.category) == field_for(s.elements@, Label::Category)
            && spec_content_of(&r.module) == field_for(s.elements@, Label::Module)
            && spec_content_of(&r.room) == field_for(s.elements@, Label::Room)
            && spec_content_of(&r.teacher) == field_for(s.elements@, Label::Teacher)
            && spec_content_of(&r.description) == field_for(s.elements@, Label::Name)),
        reply is Transient ==> a == WorkerAction::Retry(spec_backoff_ms(attempt as nat) as u64),
        reply is Permanent ==> a is Abandon,
{
    match reply {
        FetchReply::Detail(s) => WorkerAction::Persist(side_bar_event_to_course(c, s)),
        FetchReply::Transient => WorkerAction::Retry(backoff_ms(attempt)),
        FetchReply::Permanent => WorkerAction::Abandon,
    }
}

} // verus!
