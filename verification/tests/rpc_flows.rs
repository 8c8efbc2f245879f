//! The registration, reset, schedule and configuration flows, end to end
//! against the store model and the real hashing crates.

use cyrel::authentication::{verify_password, Register};
use cyrel::datetime::DateTime;
use cyrel::db::Db;
use cyrel::models::{CelcatStudent, Department, Group, User};
use cyrel::rpc::error::RpcError;
use cyrel::rpc::{
    all_groups_get, client_configs_get, client_configs_set, my_groups_get, register_1, register_3,
    reset_password, schedule_get, send_password_reset_code,
};
use cyrel::schedule::Course;
use cyrel::sync::producer::GroupImport;
use cyrel::wait::Outcome;
use cyrel::celcat::fetchable::calendar::CourseId;

fn seeded_db() -> Db {
    let mut db = Db::new();
    db.insert_department(Department {
        id: "1".to_owned(),
        name: "UFR DROIT".to_owned(),
        domain: "u-cergy.fr".to_owned(),
    })
    .unwrap();
    db.insert_celcat_student(CelcatStudent {
        id: 1042,
        firstname: "Jean".to_owned(),
        lastname: "Valjean".to_owned(),
        department: Some("1".to_owned()),
    });
    db
}

#[test]
fn registration_runs_to_an_account() {
    let mut db = seeded_db();
    let mut reg = Register::new();

    // unknown department
    assert_eq!(
        register_1(&db, &mut reg, 1042, "9", "jean", "tok-1".to_owned()),
        Err(RpcError::UnknownDepartment)
    );
    // a student the directory does not list
    assert_eq!(
        register_1(&db, &mut reg, 7, "1", "nobody", "tok-1".to_owned()),
        Err(RpcError::IncorrectLoginInfo)
    );
    // the happy path completes the address from the department's domain
    let email = register_1(&db, &mut reg, 1042, "1", "jean.valjean", "tok-1".to_owned()).unwrap();
    assert_eq!(email, "jean.valjean@u-cergy.fr");
    assert!(reg.contains("tok-1"));

    // the third step spends the token and creates the account
    register_3(
        &mut reg,
        &mut db,
        "tok-1",
        "Jean".to_owned(),
        "Valjean".to_owned(),
        "24601",
    )
    .unwrap();
    assert!(!reg.contains("tok-1"));
    let u = db.match_user_by_id(1042).unwrap();
    assert_eq!(u.email.as_str(), "jean.valjean@u-cergy.fr");
    assert_eq!(verify_password("24601", &u.password).unwrap(), true);

    // registering the same id again is refused
    assert_eq!(
        register_1(&db, &mut reg, 1042, "1", "jean.valjean", "tok-2".to_owned()),
        Err(RpcError::AlreadyRegistered)
    );
    // a spent token is refused
    assert_eq!(
        register_3(&mut reg, &mut db, "tok-1", "J".to_owned(), "V".to_owned(), "x"),
        Err(RpcError::RegistrationTokenUsed)
    );
}

#[test]
fn password_reset_runs_to_a_new_password() {
    let mut db = seeded_db();
    let mut reg = Register::new();
    register_1(&db, &mut reg, 1042, "1", "jean.valjean", "t".to_owned()).unwrap();
    register_3(&mut reg, &mut db, "t", "Jean".to_owned(), "Valjean".to_owned(), "old-pw").unwrap();

    let mut reset = Register::new();
    // the address must be the user's own
    assert_eq!(
        send_password_reset_code(&db, &mut reset, 1042, "other@u-cergy.fr", "c1".to_owned()),
        Err(RpcError::IncorrectLoginInfo)
    );
    assert_eq!(
        send_password_reset_code(&db, &mut reset, 9, "x@y", "c1".to_owned()),
        Err(RpcError::IncorrectLoginInfo)
    );
    send_password_reset_code(&db, &mut reset, 1042, "jean.valjean@u-cergy.fr", "c1".to_owned())
        .unwrap();

    // an unknown code resets nothing
    assert_eq!(
        reset_password(&mut reset, &mut db, "c9", "new-pw"),
        Err(RpcError::Unimplemented)
    );
    reset_password(&mut reset, &mut db, "c1", "new-pw").unwrap();
    let u = db.match_user_by_id(1042).unwrap();
    assert_eq!(verify_password("new-pw", &u.password).unwrap(), true);
    assert_eq!(verify_password("old-pw", &u.password).unwrap(), false);
    // the code is spent
    assert_eq!(
        reset_password(&mut reset, &mut db, "c1", "again"),
        Err(RpcError::Unimplemented)
    );
}

fn logged_in_db() -> (Db, User) {
    let mut db = Db::new();
    db.insert_user(User {
        id: 5,
        firstname: "Ada".to_owned(),
        lastname: "Lovelace".to_owned(),
        email: "ada@x".to_owned(),
        password: String::new(),
    })
    .unwrap();
    db.insert_group(Group {
        id: 10,
        name: "L1".to_owned(),
        referent: None,
        parent: None,
        private: false,
    })
    .unwrap();
    db.insert_group(Group {
        id: 11,
        name: "hidden".to_owned(),
        referent: None,
        parent: None,
        private: true,
    })
    .unwrap();
    db.insert_user_in_group(5, 10).unwrap();
    let user = User {
        id: 5,
        firstname: "Ada".to_owned(),
        lastname: "Lovelace".to_owned(),
        email: "ada@x".to_owned(),
        password: String::new(),
    };
    (db, user)
}

#[test]
fn group_calls_demand_a_login() {
    let (db, user) = logged_in_db();
    assert!(my_groups_get(&db, None).is_err());
    assert!(all_groups_get(&db, None).is_err());
    let mine = my_groups_get(&db, Some(&user)).unwrap();
    assert_eq!(mine.len(), 1);
    assert_eq!(mine[0].id, 10);
    let all = all_groups_get(&db, Some(&user)).unwrap();
    assert_eq!(all.len(), 1);
    assert_eq!(all[0].id, 10);
}

#[test]
fn schedule_is_served_to_members_only() {
    let (mut db, user) = logged_in_db();
    db.upsert_course(Course {
        id: "C1".to_owned(),
        start_time: DateTime::new(2021, 9, 22, 14, 30, 0),
        end_time: None,
        category: None,
        module: None,
        room: None,
        teacher: None,
        description: None,
    });
    let mut import = GroupImport::begin(10);
    import.record_outcome(&CourseId("C1".to_owned()), Outcome::Success);
    import.commit(&mut db).unwrap();

    let start = DateTime::new(2021, 9, 1, 0, 0, 0);
    let end = DateTime::new(2021, 9, 30, 0, 0, 0);
    assert!(schedule_get(&db, None, 10, start, end).is_err());
    // not a member of group 11
    assert!(schedule_get(&db, Some(&user), 11, start, end).is_err());
    let courses = schedule_get(&db, Some(&user), 10, start, end).unwrap();
    assert_eq!(courses.len(), 1);
    assert_eq!(courses[0].id.as_str(), "C1");
}

#[test]
fn client_configs_demand_login_and_a_known_client() {
    let (mut db, user) = logged_in_db();
    db.insert_client(cyrel::db::Client { id: 3, name: "web".to_owned() }).unwrap();

    assert!(client_configs_get(&db, None, 3).is_err());
    assert_eq!(
        client_configs_get(&db, Some(&user), 9),
        Err(RpcError::UnknownClient)
    );
    assert_eq!(client_configs_get(&db, Some(&user), 3).unwrap(), None);

    assert_eq!(
        client_configs_set(&mut db, None, 3, "{}".to_owned()),
        Err(RpcError::IncorrectLoginInfo)
    );
    assert_eq!(
        client_configs_set(&mut db, Some(5), 9, "{}".to_owned()),
        Err(RpcError::UnknownClient)
    );
    client_configs_set(&mut db, Some(5), 3, "dark".to_owned()).unwrap();
    assert_eq!(
        client_configs_get(&db, Some(&user), 3).unwrap().unwrap().as_str(),
        "dark"
    );
}
