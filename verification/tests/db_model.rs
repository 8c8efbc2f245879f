//! The relational-store model: lookups, updates, the course upsert, and
//! the transactional group import.

use cyrel::datetime::DateTime;
use cyrel::db::Db;
use cyrel::models::{CelcatStudent, Department, Group, User};
use cyrel::rpc::error::RpcError;
use cyrel::schedule::Course;
use cyrel::sync::producer::GroupImport;
use cyrel::wait::Outcome;
use cyrel::celcat::fetchable::calendar::CourseId;

fn user(id: i64, email: &str) -> User {
    User {
        id,
        firstname: "Ada".to_owned(),
        lastname: "Lovelace".to_owned(),
        email: email.to_owned(),
        password: String::new(),
    }
}

fn record(id: &str, start: DateTime) -> Course {
    Course {
        id: id.to_owned(),
        start_time: start,
        end_time: None,
        category: Some("CM".to_owned()),
        module: None,
        room: None,
        teacher: None,
        description: None,
    }
}

#[test]
fn users_are_unique_by_id() {
    let mut db = Db::new();
    assert!(db.insert_user(user(1, "a@x")).is_ok());
    assert_eq!(db.insert_user(user(1, "b@x")), Err(RpcError::UnknownError));
    assert!(db.insert_user(user(2, "b@x")).is_ok());
    assert_eq!(db.match_user_by_id(1).unwrap().email.as_str(), "a@x");
    assert_eq!(db.match_user_by_email("b@x").unwrap().id, 2);
    assert!(db.match_user_by_id(3).is_none());
    assert!(db.match_user_by_email("c@x").is_none());
}

#[test]
fn update_user_overwrites_the_row() {
    let mut db = Db::new();
    db.insert_user(user(1, "a@x")).unwrap();
    let mut u = user(1, "a@x");
    u.password = "h".to_owned();
    db.update_user(u);
    assert_eq!(db.match_user_by_id(1).unwrap().password.as_str(), "h");
    // updating an unknown user is tolerated and changes nothing
    db.update_user(user(9, "z@x"));
    assert!(db.match_user_by_id(9).is_none());
}

#[test]
fn group_membership_rules() {
    let mut db = Db::new();
    db.insert_user(user(1, "a@x")).unwrap();
    db.insert_group(Group { id: 10, name: "L1".to_owned(), referent: None, parent: None, private: false }).unwrap();
    db.insert_group(Group { id: 11, name: "L1-A".to_owned(), referent: None, parent: Some(10), private: true }).unwrap();

    // joining an unknown group, a private group, or twice, is refused
    assert!(db.insert_user_in_group(1, 99).is_err());
    assert!(db.insert_user_in_group(1, 11).is_err());
    assert!(db.insert_user_in_group(99, 10).is_err());
    assert!(db.insert_user_in_group(1, 10).is_ok());
    assert!(db.insert_user_in_group(1, 10).is_err());

    assert!(db.is_user_in_group(1, 10));
    assert!(!db.is_user_in_group(1, 11));
    // the brother-group rule: membership of the parent opens the child
    assert!(db.is_user_in_group_or_brother_group(1, 11));

    let groups = db.get_user_groups(1).unwrap();
    assert_eq!(groups.len(), 1);
    assert_eq!(groups[0].id, 10);

    let public = db.get_all_groups();
    assert_eq!(public.len(), 1);
    assert_eq!(public[0].id, 10);
}

#[test]
fn course_upsert_is_idempotent() {
    let mut db = Db::new();
    let start = DateTime::new(2021, 9, 22, 14, 30, 0);
    db.upsert_course(record("C1", start));
    db.upsert_course(record("C1", start));
    let stored = db.course_of("C1").unwrap();
    assert_eq!(stored.start_time, start);
    assert_eq!(stored.category.as_deref(), Some("CM"));
    assert!(db.course_of("C2").is_none());
    // a new record for the same key replaces the old one
    let later = DateTime::new(2021, 9, 23, 8, 0, 0);
    db.upsert_course(record("C1", later));
    assert_eq!(db.course_of("C1").unwrap().start_time, later);
}

#[test]
fn group_courses_filter_by_window() {
    let mut db = Db::new();
    let sept = DateTime::new(2021, 9, 22, 14, 30, 0);
    let oct = DateTime::new(2021, 10, 5, 9, 0, 0);
    db.upsert_course(record("C1", sept));
    db.upsert_course(record("C2", oct));
    let mut import = GroupImport::begin(1);
    import.record_outcome(&CourseId("C1".to_owned()), Outcome::Success);
    import.record_outcome(&CourseId("C2".to_owned()), Outcome::Success);
    import.commit(&mut db).unwrap();

    let window_start = DateTime::new(2021, 9, 1, 0, 0, 0);
    let window_end = DateTime::new(2021, 9, 30, 23, 59, 59);
    let sel = db.get_group_courses(1, window_start, window_end).unwrap();
    assert_eq!(sel.len(), 1);
    assert_eq!(sel[0].id.as_str(), "C1");

    let all = db
        .get_group_courses(1, window_start, DateTime::new(2022, 9, 1, 0, 0, 0))
        .unwrap();
    assert_eq!(all.len(), 2);
}

#[test]
fn commit_replaces_the_previous_import() {
    let mut db = Db::new();
    let start = DateTime::new(2021, 9, 22, 14, 30, 0);
    db.upsert_course(record("OLD", start));
    db.upsert_course(record("NEW", start));
    let mut first = GroupImport::begin(1);
    first.record_outcome(&CourseId("OLD".to_owned()), Outcome::Success);
    first.commit(&mut db).unwrap();
    assert!(db.has_association(1, "OLD"));

    // an unrelated group's associations survive the next import of group 1
    let mut other = GroupImport::begin(2);
    other.record_outcome(&CourseId("OLD".to_owned()), Outcome::Success);
    other.commit(&mut db).unwrap();

    let mut second = GroupImport::begin(1);
    second.record_outcome(&CourseId("NEW".to_owned()), Outcome::Success);
    second.commit(&mut db).unwrap();

    assert!(!db.has_association(1, "OLD"));
    assert!(db.has_association(1, "NEW"));
    assert!(db.has_association(2, "OLD"));
}

#[test]
fn failed_import_commits_nothing() {
    let mut db = Db::new();
    let mut import = GroupImport::begin(1);
    import.record_outcome(&CourseId("C1".to_owned()), Outcome::Success);
    import.record_outcome(&CourseId("C2".to_owned()), Outcome::Failure);
    assert_eq!(import.commit(&mut db), Err(RpcError::UnknownError));
    // not even the confirmed course was committed: all or nothing
    assert!(!db.has_association(1, "C1"));
    assert!(!db.has_association(1, "C2"));
}

#[test]
fn client_configuration_is_upserted_per_user() {
    let mut db = Db::new();
    db.insert_user(user(1, "a@x")).unwrap();
    // the user must exist
    assert!(db.set_client_user_config(5, 9, "{}".to_owned()).is_err());
    assert!(db.get_client_user_config(5, 1).is_none());
    db.set_client_user_config(5, 1, "dark".to_owned()).unwrap();
    assert_eq!(db.get_client_user_config(5, 1).unwrap().as_str(), "dark");
    db.set_client_user_config(5, 1, "light".to_owned()).unwrap();
    assert_eq!(db.get_client_user_config(5, 1).unwrap().as_str(), "light");
}

#[test]
fn departments_and_students_feed_registration() {
    let mut db = Db::new();
    db.insert_department(Department {
        id: "1".to_owned(),
        name: "UFR DROIT".to_owned(),
        domain: "u-cergy.fr".to_owned(),
    })
    .unwrap();
    assert!(db
        .insert_department(Department {
            id: "1".to_owned(),
            name: "again".to_owned(),
            domain: "x".to_owned(),
        })
        .is_err());
    assert_eq!(db.match_department("1").unwrap().domain.as_str(), "u-cergy.fr");
    assert!(db.match_department("2").is_none());

    db.insert_celcat_student(CelcatStudent {
        id: 42,
        firstname: "Ada".to_owned(),
        lastname: "Lovelace".to_owned(),
        department: Some("1".to_owned()),
    });
    // the upsert overwrites the row of an already-listed student
    db.insert_celcat_student(CelcatStudent {
        id: 42,
        firstname: "Augusta".to_owned(),
        lastname: "King".to_owned(),
        department: Some("1".to_owned()),
    });
    let s = db.match_celcat_student(42, "1").unwrap();
    assert_eq!(s.firstname.as_str(), "Augusta");
    assert!(db.match_celcat_student(42, "2").is_none());
    assert!(db.match_celcat_student(7, "1").is_none());
}

#[test]
fn datetime_order_is_lexicographic() {
    let a = DateTime::new(2021, 9, 22, 14, 30, 0);
    let b = DateTime::new(2021, 9, 22, 17, 45, 0);
    let c = DateTime::new(2022, 1, 1, 0, 0, 0);
    assert!(a.le(&b));
    assert!(!b.le(&a));
    assert!(b.le(&c));
    assert!(a.le(&a));
}
