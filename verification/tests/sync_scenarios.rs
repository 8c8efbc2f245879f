//! The synchronization subsystem end to end: the completion gates, the bounded
//! channel, the coordinator's dedup decisions, the worker policy, and the
//! scenarios the design must survive.

use cyrel::celcat::fetchable::calendar::{self, CourseId};
use cyrel::celcat::entity::{Unknown, UnknownId, WrapEntityType};
use cyrel::celcat::resource::{self, RoomId};
use cyrel::celcat::fetchable::event::{RawSideBarEventElement, SideBarEvent, SideBarEventElement};
use cyrel::datetime::DateTime;
use cyrel::db::Db;
use cyrel::schedule::celcat::side_bar_event_to_course;
use cyrel::sync::channel::{Request, RequestChannel, SendResult};
use cyrel::sync::coordinator::{Action, Coordinator};
use cyrel::sync::producer::GroupImport;
use cyrel::sync::worker::{backoff_ms, worker_step, FetchReply, WorkerAction};
use cyrel::wait::{Outcome, Wait};

fn course_id(s: &str) -> CourseId {
    CourseId(s.to_owned())
}

fn raw_unknown(content: Option<&str>) -> RawSideBarEventElement<Unknown> {
    RawSideBarEventElement {
        content: content.map(|s| s.to_owned()),
        federation_id: UnknownId,
        entity_type: WrapEntityType(Unknown),
        assignment_context: None,
        contains_hyperlinks: false,
        is_notes: false,
        is_student_specific: false,
    }
}

fn calendar_course(id: &str) -> calendar::Course {
    calendar::Course {
        id: course_id(id),
        start: DateTime::new(2021, 9, 22, 14, 30, 0),
        end: DateTime::new(2021, 9, 22, 17, 45, 0),
        all_day: false,
        description: "Some description".to_owned(),
        background_color: "#FF0000".to_owned(),
        text_color: "#ffffff".to_owned(),
        department: Some("1 : UFR DROIT".to_owned()),
        faculty: None,
        event_category: Some("CM".to_owned()),
        sites: Some(vec!["CHENES".to_owned()]),
        modules: None,
        register_status: 2,
        student_mark: 0,
    }
}

#[test]
fn gate_opens_once_and_stays_open() {
    let mut w = Wait::new();
    assert_eq!(w.wait(), None);
    let g = w.update();
    assert_eq!(w.wait(), None);
    w.open(g, Outcome::Success);
    assert_eq!(w.wait(), Some(Outcome::Success));
    // a later observer sees the same resolution
    assert_eq!(w.wait(), Some(Outcome::Success));
}

#[test]
fn channel_is_fifo_and_refuses_when_full() {
    let mut ch = RequestChannel::new(2);
    assert_eq!(ch.capacity(), 2);
    assert_eq!(ch.send(Request { course: course_id("a"), reply: 1 }), SendResult::Sent);
    assert_eq!(ch.send(Request { course: course_id("b"), reply: 2 }), SendResult::Sent);
    // full: the sender is pushed back, nothing is dropped or reordered
    assert_eq!(ch.send(Request { course: course_id("c"), reply: 3 }), SendResult::Full);
    assert_eq!(ch.len(), 2);
    let first = ch.recv().unwrap();
    assert_eq!(first.course, course_id("a"));
    assert_eq!(first.reply, 1);
    assert_eq!(ch.send(Request { course: course_id("c"), reply: 3 }), SendResult::Sent);
    assert_eq!(ch.recv().unwrap().reply, 2);
    assert_eq!(ch.recv().unwrap().reply, 3);
    assert!(ch.recv().is_none());
}

#[test]
fn coordinator_deduplicates_requests() {
    let mut c = Coordinator::new();
    let c1 = course_id("C1");
    assert_eq!(c.handle_request(&c1, 10), Action::StartWorker);
    assert_eq!(c.handle_request(&c1, 11), Action::Registered);
    assert_eq!(c.handle_request(&c1, 12), Action::Registered);
    let ws = c.handle_worker_done(&c1, Outcome::Success);
    assert_eq!(ws, vec![10, 11, 12]);
    // a request after completion resolves immediately, with the same outcome
    assert_eq!(c.handle_request(&c1, 13), Action::Reply(Outcome::Success));
}

#[test]
fn two_groups_share_one_course_fetch() {
    // Two producers, for groups 1 and 2, both reference course "C1".
    let mut db = Db::new();
    let mut coord = Coordinator::new();
    let c1 = course_id("C1");
    let mut import_a = GroupImport::begin(1);
    let mut import_b = GroupImport::begin(2);

    let a1 = coord.handle_request(&c1, 100);
    let a2 = coord.handle_request(&c1, 200);
    // exactly one fetch of "C1"
    assert_eq!(a1, Action::StartWorker);
    assert_eq!(a2, Action::Registered);

    // the one worker fetches, decodes and persists
    let reply = FetchReply::Detail(SideBarEvent {
        federation_id: UnknownId,
        entity_type: WrapEntityType(Unknown),
        elements: vec![SideBarEventElement::Name(raw_unknown(Some("Course one")))],
    });
    match worker_step(calendar_course("C1"), reply, 0) {
        WorkerAction::Persist(record) => db.upsert_course(record),
        _ => panic!("a fetched detail record must be persisted"),
    }
    let notified = coord.handle_worker_done(&c1, Outcome::Success);
    assert_eq!(notified, vec![100, 200]);

    import_a.record_outcome(&c1, Outcome::Success);
    import_b.record_outcome(&c1, Outcome::Success);
    assert!(import_a.commit(&mut db).is_ok());
    assert!(import_b.commit(&mut db).is_ok());

    // both groups' association rows for "C1" are visible, and the record is
    // persisted once
    assert!(db.has_association(1, "C1"));
    assert!(db.has_association(2, "C1"));
    let stored = db.course_of("C1").unwrap();
    assert_eq!(stored.description.as_deref(), Some("Course one"));
}

#[test]
fn permanent_failure_still_opens_the_gate() {
    // "C2" fails permanently: the worker stops retrying and its gate opens
    // with a failure outcome, so no duplicate request can deadlock.
    let mut coord = Coordinator::new();
    let c2 = course_id("C2");
    assert_eq!(coord.handle_request(&c2, 1), Action::StartWorker);
    assert_eq!(coord.handle_request(&c2, 2), Action::Registered);

    let decision = worker_step(calendar_course("C2"), FetchReply::Permanent, 3);
    assert!(matches!(decision, WorkerAction::Abandon));

    let notified = coord.handle_worker_done(&c2, Outcome::Failure);
    assert_eq!(notified, vec![1, 2]);
    // a duplicate request arriving later is answered at once, not deadlocked
    assert_eq!(coord.handle_request(&c2, 3), Action::Reply(Outcome::Failure));

    // and the producer that asked aborts its transaction rather than commit
    let mut db = Db::new();
    let mut import = GroupImport::begin(7);
    import.record_outcome(&c2, Outcome::Failure);
    assert!(import.commit(&mut db).is_err());
    assert!(!db.has_association(7, "C2"));
}

#[test]
fn fifty_courses_through_a_channel_of_ten() {
    // 50 distinct courses with a request-channel capacity of 10: all 50
    // complete, none is lost, and never more than 10 sit queued.
    let mut ch = RequestChannel::new(10);
    let mut coord = Coordinator::new();
    let ids: Vec<String> = (0..50).map(|i| format!("course-{}", i)).collect();
    let mut next: usize = 0;
    let mut started: Vec<u64> = Vec::new();
    loop {
        let mut progressed = false;
        if next < ids.len() {
            match ch.send(Request { course: course_id(&ids[next]), reply: next as u64 }) {
                SendResult::Sent => {
                    next += 1;
                    progressed = true;
                }
                SendResult::Full => {
                    // the sender suspends until the coordinator drains
                    assert_eq!(ch.len(), 10);
                }
            }
        }
        assert!(ch.len() <= 10);
        if let Some(req) = ch.recv() {
            match coord.handle_request(&req.course, req.reply) {
                Action::StartWorker => started.push(req.reply),
                other => panic!("distinct courses never coalesce: {:?}", other),
            }
            progressed = true;
        }
        if !progressed && next == ids.len() {
            break;
        }
    }
    assert_eq!(started.len(), 50);
    let mut resolved: Vec<u64> = Vec::new();
    for (i, id) in ids.iter().enumerate() {
        let ws = coord.handle_worker_done(&course_id(id), Outcome::Success);
        assert_eq!(ws, vec![i as u64]);
        resolved.extend(ws);
    }
    assert_eq!(resolved.len(), 50);
}

#[test]
fn backoff_doubles_and_caps_at_one_minute() {
    assert_eq!(backoff_ms(0), 100);
    assert_eq!(backoff_ms(1), 200);
    assert_eq!(backoff_ms(2), 400);
    assert_eq!(backoff_ms(9), 51200);
    assert_eq!(backoff_ms(10), 60000);
    assert_eq!(backoff_ms(30), 60000);
}

#[test]
fn transient_failures_retry_with_backoff() {
    let d = worker_step(calendar_course("C3"), FetchReply::Transient, 0);
    match d {
        WorkerAction::Retry(ms) => assert_eq!(ms, 100),
        _ => panic!("a transient failure must be retried"),
    }
    let d = worker_step(calendar_course("C3"), FetchReply::Transient, 10);
    match d {
        WorkerAction::Retry(ms) => assert_eq!(ms, 60000),
        _ => panic!("a transient failure must be retried"),
    }
}

#[test]
fn element_decoding_takes_the_last_label() {
    let event = SideBarEvent {
        federation_id: UnknownId,
        entity_type: WrapEntityType(Unknown),
        elements: vec![
            SideBarEventElement::Time(raw_unknown(Some("9/6/2021 8:30 AM-11:45 AM"))),
            SideBarEventElement::Category(raw_unknown(Some("CM"))),
            SideBarEventElement::Name(raw_unknown(Some("First name"))),
            SideBarEventElement::Name(raw_unknown(Some("Second name"))),
            SideBarEventElement::Category(raw_unknown(None)),
        ],
    };
    let course = side_bar_event_to_course(calendar_course("C9"), event);
    assert_eq!(course.id.as_str(), "C9");
    assert_eq!(course.start_time, DateTime::new(2021, 9, 22, 14, 30, 0));
    assert_eq!(course.end_time, Some(DateTime::new(2021, 9, 22, 17, 45, 0)));
    // the last occurrence of a label wins, even when its content is empty
    assert_eq!(course.category, None);
    assert_eq!(course.description.as_deref(), Some("Second name"));
    // unmentioned labels stay empty; the time label is ignored
    assert_eq!(course.module, None);
    assert_eq!(course.room, None);
    assert_eq!(course.teacher, None);
}

#[test]
fn element_decoding_reads_typed_labels() {
    let room = RawSideBarEventElement {
        content: Some("CHE2 Larousse haut AMPHITHÉÂTRE 673p".to_owned()),
        federation_id: RoomId("1042721".to_owned()),
        entity_type: WrapEntityType(resource::Room),
        assignment_context: Some("a-start-end".to_owned()),
        contains_hyperlinks: false,
        is_notes: false,
        is_student_specific: false,
    };
    let event = SideBarEvent {
        federation_id: UnknownId,
        entity_type: WrapEntityType(Unknown),
        elements: vec![SideBarEventElement::Room(room)],
    };
    let course = side_bar_event_to_course(calendar_course("C10"), event);
    assert_eq!(
        course.room.as_deref(),
        Some("CHE2 Larousse haut AMPHITHÉÂTRE 673p")
    );
}
