//! A model of the relational store the service persists into: its tables
//! as plain values, and the queries and updates the service makes, each
//! with an exact contract. The SQL that realizes them runs outside this
//! crate against the same shapes.

use vstd::prelude::*;
use vstd::hash_map::StringHashMap;
use vstd::pervasive::VecAdditionalExecFns;

use crate::datetime::DateTime;
use crate::models::{CelcatStudent, Department, Group, User};
use crate::rpc::error::RpcError;
use crate::schedule::Course;
use crate::text::str_eq;

verus! {

/// One group-course association row: recorded once the group's import has
/// confirmed that the course's detail record is persisted.
#[derive(Debug)]
pub struct GroupCourse {
    pub group_id: i32,
    pub course_id: String,
}

/// One client application row.
#[derive(Debug)]
pub struct Client {
    pub id: i32,
    pub name: String,
}

/// The stored configuration of one client for one user.
#[derive(Debug)]
pub struct ClientConfig {
    pub client_id: i32,
    pub user_id: i64,
    pub config: String,
}

/// Whether some user row carries this id.
pub open spec fn spec_has_user(users: Seq<User>, id: i64) -> bool {
    exists|i: int| 0 <= i < users.len() && users[i].id == id
}

/// Whether some group row carries this id.
pub open spec fn spec_has_group(groups: Seq<Group>, id: i32) -> bool {
    exists|i: int| 0 <= i < groups.len() && groups[i].id == id
}

/// Whether some client row carries this id.
pub open spec fn spec_has_client(clients: Seq<Client>, id: i32) -> bool {
    exists|i: int| 0 <= i < clients.len() && clients[i].id == id
}

/// Whether the membership rows record this user in this group.
pub open spec fn spec_in_group(rows: Seq<(i64, i32)>, user_id: i64, group_id: i32) -> bool {
    exists|i: int| 0 <= i < rows.len() && rows[i].0 == user_id && rows[i].1 == group_id
}

/// The ids of the groups this user belongs to, in row order.
pub open spec fn spec_user_group_ids(rows: Seq<(i64, i32)>, user_id: i64) -> Seq<i32>
    decreases rows.len(),
{
    if rows.len() == 0 {
        Seq::empty()
    } else {
        let last = rows[rows.len() - 1];
        spec_user_group_ids(rows.drop_last(), user_id) + (if last.0 == user_id {
            seq![last.1]
        } else {
            Seq::empty()
        })
    }
}

/// The groups open to everyone, in row order.
pub open spec fn spec_public_groups(groups: Seq<Group>) -> Seq<Group>
    decreases groups.len(),
{
    if groups.len() == 0 {
        Seq::empty()
    } else {
        let last = groups[groups.len() - 1];
        spec_public_groups(groups.drop_last()) + (if !last.private {
            seq![last]
        } else {
            Seq::empty()
        })
    }
}

/// The association rows that survive clearing one group.
pub open spec fn spec_remove_group(rows: Seq<GroupCourse>, group_id: i32) -> Seq<GroupCourse>
    decreases rows.len(),
{
    if rows.len() == 0 {
        Seq::empty()
    } else {
        (if rows[0].group_id != group_id {
            seq![rows[0]]
        } else {
            Seq::empty()
        }) + spec_remove_group(rows.drop_first(), group_id)
    }
}

/// The course ids associated with one group, in row order.
pub open spec fn spec_group_course_ids(rows: Seq<GroupCourse>, group_id: i32) -> Seq<Seq<char>>
    decreases rows.len(),
{
    if rows.len() == 0 {
        Seq::empty()
    } else {
        let last = rows[rows.len() - 1];
        spec_group_course_ids(rows.drop_last(), group_id) + (if last.group_id == group_id {
            seq![last.course_id@]
        } else {
            Seq::empty()
        })
    }
}

/// Whether the association rows record this course for this group.
pub open spec fn spec_has_association(rows: Seq<GroupCourse>, group_id: i32, course: Seq<char>) -> bool {
    exists|i: int| 0 <= i < rows.len() && rows[i].group_id == group_id && rows[i].course_id@
        == course
}

/// Whether a course's start time falls inside a closed window.
pub open spec fn spec_in_window(c: Course, start: DateTime, end: DateTime) -> bool {
    DateTime::spec_le(start, c.start_time) && DateTime::spec_le(c.start_time, end)
}

/// The detail records of one group's courses whose start falls inside the
/// window, in association-row order.
pub open spec fn spec_courses_in_window(
    rows: Seq<GroupCourse>,
    courses: Map<Seq<char>, Course>,
    group_id: i32,
    start: DateTime,
    end: DateTime,
) -> Seq<Course>
    decreases rows.len(),
{
    if rows.len() == 0 {
        Seq::empty()
    } else {
        let last = rows[rows.len() - 1];
        spec_courses_in_window(rows.drop_last(), courses, group_id, start, end) + (if last.group_id
            == group_id && courses.contains_key(last.course_id@) && spec_in_window(
            courses[last.course_id@],
            start,
            end,
        ) {
            seq![courses[last.course_id@]]
        } else {
            Seq::empty()
        })
    }
}

/// The relational store: one field per table.
pub struct Db {
    users: Vec<User>,
    departments: Vec<Department>,
    celcat_students: Vec<CelcatStudent>,
    groups: Vec<Group>,
    users_groups: Vec<(i64, i32)>,
    courses: StringHashMap<Course>,
    groups_courses: Vec<GroupCourse>,
    clients: Vec<Client>,
    clients_users_config: Vec<ClientConfig>,
}

impl Db {
    pub closed spec fn spec_users(&self) -> Seq<User> {
        self.users@
    }

    pub closed spec fn spec_departments(&self) -> Seq<Department> {
        self.departments@
    }

    pub closed spec fn spec_celcat_students(&self) -> Seq<CelcatStudent> {
        self.celcat_students@
    }

    pub closed spec fn spec_groups(&self) -> Seq<Group> {
        self.groups@
    }

    pub closed spec fn spec_users_groups(&self) -> Seq<(i64, i32)> {
        self.users_groups@
    }

    /// The persisted course records, keyed by course id: the Persistence
    /// Sink of the synchronization run.
    pub closed spec fn spec_courses(&self) -> Map<Seq<char>, Course> {
        self.courses@
    }

    pub closed spec fn spec_groups_courses(&self) -> Seq<GroupCourse> {
        self.groups_courses@
    }

    pub closed spec fn spec_clients(&self) -> Seq<Client> {
        self.clients@
    }

    pub closed spec fn spec_clients_users_config(&self) -> Seq<ClientConfig> {
        self.clients_users_config@
    }

    /// The store's key discipline: every table's primary key is unique.
    pub open spec fn wf(&self) -> bool {
        &&& forall|i: int, j: int|
            0 <= i < j < self.spec_users().len() ==> self.spec_users()[i].id
                != self.spec_users()[j].id
        &&& forall|i: int, j: int|
            0 <= i < j < self.spec_departments().len() ==> self.spec_departments()[i].id@
                != self.spec_departments()[j].id@
        &&& forall|i: int, j: int|
            0 <= i < j < self.spec_celcat_students().len() ==> self.spec_celcat_students()[i].id
                != self.spec_celcat_students()[j].id
        &&& forall|i: int, j: int|
            0 <= i < j < self.spec_groups().len() ==> self.spec_groups()[i].id
                != self.spec_groups()[j].id
        &&& forall|i: int, j: int|
            0 <= i < j < self.spec_users_groups().len() ==> self.spec_users_groups()[i]
                != self.spec_users_groups()[j]
        &&& forall|i: int, j: int|
            0 <= i < j < self.spec_clients().len() ==> self.spec_clients()[i].id
                != self.spec_clients()[j].id
        &&& forall|i: int, j: int|
            0 <= i < j < self.spec_clients_users_config().len() ==> !(
            self.spec_clients_users_config()[i].client_id
                == self.spec_clients_users_config()[j].client_id
                && self.spec_clients_users_config()[i].user_id
                == self.spec_clients_users_config()[j].user_id)
    }

    /// An empty store.
    pub fn new() -> (db: Db)
        ensures
            db.wf(),
            db.spec_users() == Seq::<User>::empty(),
            db.spec_departments() == Seq::<Department>::empty(),
            db.spec_celcat_students() == Seq::<CelcatStudent>::empty(),
            db.spec_groups() == Seq::<Group>::empty(),
            db.spec_users_groups() == Seq::<(i64, i32)>::empty(),
            db.spec_courses() == Map::<Seq<char>, Course>::empty(),
            db.spec_groups_courses() == Seq::<GroupCourse>::empty(),
            db.spec_clients() == Seq::<Client>::empty(),
            db.spec_clients_users_config() == Seq::<ClientConfig>::empty(),
    {
        Db {
            users: Vec::new(),
            departments: Vec::new(),
            celcat_students: Vec::new(),
            groups: Vec::new(),
            users_groups: Vec::new(),
            courses: StringHashMap::new(),
            groups_courses: Vec::new(),
            clients: Vec::new(),
            clients_users_config: Vec::new(),
        }
    }

    /// The user row with this id, if one exists.
    pub fn match_user_by_id(&self, id: i64) -> (r: Option<&User>)
        ensures
            match r {
                Some(u) => u.id == id && exists|i: int|
                    0 <= i < self.spec_users().len() && self.spec_users()[i] == *u,
                None => !spec_has_user(self.spec_users(), id),
            },
    {
        let n = self.users.len();
        let mut i: usize = 0;
        while i < n
            invariant
                i <= n,
                n == self.spec_users().len(),
                forall|j: int| 0 <= j < i ==> self.spec_users()[j].id != id,
            decreases n - i,
        {
            if self.users[i].id == id {
                return Some(&self.users[i]);
            }
            i = i + 1;
        }
        None
    }

    /// The user row with this mail address, if one exists.
    pub fn match_user_by_email(&self, email: &str) -> (r: Option<&User>)
        ensures
            match r {
                Some(u) => u.email@ == email@ && exists|i: int|
                    0 <= i < self.spec_users().len() && self.spec_users()[i] == *u,
                None => forall|i: int|
                    0 <= i < self.spec_users().len() ==> self.spec_users()[i].email@ != email@,
            },
    {
        let n = self.users.len();
        let mut i: usize = 0;
        while i < n
            invariant
                i <= n,
                n == self.spec_users().len(),
                forall|j: int| 0 <= j < i ==> self.spec_users()[j].email@ != email@,
            decreases n - i,
        {
            if str_eq(self.users[i].email.as_str(), email) {
                return Some(&self.users[i]);
            }
            i = i + 1;
        }
        None
    }

    /// The department row with this id, if one exists.
    pub fn match_department(&self, id: &str) -> (r: Option<&Department>)
        ensures
            match r {
                Some(d) => d.id@ == id@ && exists|i: int|
                    0 <= i < self.spec_departments().len() && self.spec_departments()[i] == *d,
                None => forall|i: int|
                    0 <= i < self.spec_departments().len() ==> self.spec_departments()[i].id@
                        != id@,
            },
    {
        let n = self.departments.len();
        let mut i: usize = 0;
        while i < n
            invariant
                i <= n,
                n == self.spec_departments().len(),
                forall|j: int| 0 <= j < i ==> self.spec_departments()[j].id@ != id@,
            decreases n - i,
        {
            if str_eq(self.departments[i].id.as_str(), id) {
                return Some(&self.departments[i]);
            }
            i = i + 1;
        }
        None
    }

    /// The imported student row with this id in this department, if one
    /// exists.
    pub fn match_celcat_student(&self, id: i64, department: &str) -> (r: Option<&CelcatStudent>)
        ensures
            match r {
                Some(s) => {
                    &&& s.id == id
                    &&& s.department matches Some(d) && d@ == department@
                    &&& exists|i: int|
                        0 <= i < self.spec_celcat_students().len()
                            && self.spec_celcat_students()[i] == *s
                },
                None => forall|i: int|
                    0 <= i < self.spec_celcat_students().len() ==> !(
                    self.spec_celcat_students()[i].id == id
                        && (self.spec_celcat_students()[i].department matches Some(d) && d@
                        == department@)),
            },
    {
        let n = self.celcat_students.len();
        let mut i: usize = 0;
        while i < n
            invariant
                i <= n,
                n == self.spec_celcat_students().len(),
                forall|j: int|
                    0 <= j < i ==> !(self.spec_celcat_students()[j].id == id
                        && (self.spec_celcat_students()[j].department matches Some(d) && d@
                        == department@)),
            decreases n - i,
        {
            let s = &self.celcat_students[i];
            if s.id == id {
                match &s.department {
                    Some(d) => {
                        if str_eq(d.as_str(), department) {
                            return Some(s);
                        }
                    },
                    None => {},
                }
            }
            i = i + 1;
        }
        None
    }

    /// The group row with this id, if one exists.
    pub fn match_group(&self, group: i32) -> (r: Option<&Group>)
        ensures
            match r {
                Some(g) => g.id == group && exists|i: int|
                    0 <= i < self.spec_groups().len() && self.spec_groups()[i] == *g,
                None => !spec_has_group(self.spec_groups(), group),
            },
    {
        let n = self.groups.len();
        let mut i: usize = 0;
        while i < n
            invariant
                i <= n,
                n == self.spec_groups().len(),
                forall|j: int| 0 <= j < i ==> self.spec_groups()[j].id != group,
            decreases n - i,
        {
            if self.groups[i].id == group {
                return Some(&self.groups[i]);
            }
            i = i + 1;
        }
        None
    }

    /// Whether this user is recorded as a member of this group.
    pub fn is_user_in_group(&self, user_id: i64, group_id: i32) -> (r: bool)
        ensures
            r == spec_in_group(self.spec_users_groups(), user_id, group_id),
    {
        let n = self.users_groups.len();
        let mut i: usize = 0;
        while i < n
            invariant
                i <= n,
                n == self.spec_users_groups().len(),
                forall|j: int|
                    0 <= j < i ==> !(self.spec_users_groups()[j].0 == user_id
                        && self.spec_users_groups()[j].1 == group_id),
            decreases n - i,
        {
            let row = &self.users_groups[i];
            if row.0 == user_id && row.1 == group_id {
                return true;
            }
            i = i + 1;
        }
        false
    }

    /// Whether this user is a member of this group, or of its parent
    /// group, the "brother group" rule: members of a parent group may read
    /// the schedules of its children.
    pub fn is_user_in_group_or_brother_group(&self, user_id: i64, group_id: i32) -> (r: bool)
        requires
            self.wf(),
        ensures
            r == (spec_in_group(self.spec_users_groups(), user_id, group_id) || exists|i: int|
                0 <= i < self.spec_groups().len() && self.spec_groups()[i].id == group_id
                    && (self.spec_groups()[i].parent matches Some(p) && spec_in_group(
                    self.spec_users_groups(),
                    user_id,
                    p,
                ))),
    {
        if self.is_user_in_group(user_id, group_id) {
            return true;
        }
        match self.match_group(group_id) {
            None => false,
            Some(g) => match g.parent {
                None => false,
                Some(p) => self.is_user_in_group(user_id, p),
            },
        }
    }

    /// Whether a client application with this id is known.
    pub fn is_client_exist(&self, client_id: i32) -> (r: bool)
        ensures
            r == spec_has_client(self.spec_clients(), client_id),
    {
        let n = self.clients.len();
        let mut i: usize = 0;
        while i < n
            invariant
                i <= n,
                n == self.spec_clients().len(),
                forall|j: int| 0 <= j < i ==> self.spec_clients()[j].id != client_id,
            decreases n - i,
        {
            if self.clients[i].id == client_id {
                return true;
            }
            i = i + 1;
        }
        false
    }

    /// The stored configuration of this client for this user, if any.
    pub fn get_client_user_config(&self, client_id: i32, user_id: i64) -> (r: Option<&String>)
        ensures
            match r {
                Some(c) => exists|i: int|
                    0 <= i < self.spec_clients_users_config().len()
                        && self.spec_clients_users_config()[i].client_id == client_id
                        && self.spec_clients_users_config()[i].user_id == user_id
                        && self.spec_clients_users_config()[i].config@ == c@,
                None => forall|i: int|
                    0 <= i < self.spec_clients_users_config().len() ==> !(
                    self.spec_clients_users_config()[i].client_id == client_id
                        && self.spec_clients_users_config()[i].user_id == user_id),
            },
    {
        let n = self.clients_users_config.len();
        let mut i: usize = 0;
        while i < n
            invariant
                i <= n,
                n == self.spec_clients_users_config().len(),
                forall|j: int|
                    0 <= j < i ==> !(self.spec_clients_users_config()[j].client_id == client_id
                        && self.spec_clients_users_config()[j].user_id == user_id),
            decreases n - i,
        {
            let row = &self.clients_users_config[i];
            if row.client_id == client_id && row.user_id == user_id {
                return Some(&row.config);
            }
            i = i + 1;
        }
        None
    }

    /// The persisted detail record of one course, if any.
    pub fn course_of(&self, course_id: &str) -> (r: Option<&Course>)
        ensures
            match r {
                Some(c) => self.spec_courses().contains_key(course_id@) && *c
                    == self.spec_courses()[course_id@],
                None => !self.spec_courses().contains_key(course_id@),
            },
    {
        self.courses.get(course_id)
    }

    /// Whether this course is associated with this group.
    pub fn has_association(&self, group_id: i32, course_id: &str) -> (r: bool)
        ensures
            r == spec_has_association(self.spec_groups_courses(), group_id, course_id@),
    {
        let n = self.groups_courses.len();
        let mut i: usize = 0;
        while i < n
            invariant
                i <= n,
                n == self.spec_groups_courses().len(),
                forall|j: int|
                    0 <= j < i ==> !(self.spec_groups_courses()[j].group_id == group_id
                        && self.spec_groups_courses()[j].course_id@ == course_id@),
            decreases n - i,
        {
            let row = &self.groups_courses[i];
            if row.group_id == group_id && str_eq(row.course_id.as_str(), course_id) {
                return true;
            }
            i = i + 1;
        }
        false
    }
}


/// All tables but the users agree between two store states.
pub open spec fn spec_same_but_users(pre: Db, post: Db) -> bool {
    &&& post.spec_departments() == pre.spec_departments()
    &&& post.spec_celcat_students() == pre.spec_celcat_students()
    &&& post.spec_groups() == pre.spec_groups()
    &&& post.spec_users_groups() == pre.spec_users_groups()
    &&& post.spec_courses() == pre.spec_courses()
    &&& post.spec_groups_courses() == pre.spec_groups_courses()
    &&& post.spec_clients() == pre.spec_clients()
    &&& post.spec_clients_users_config() == pre.spec_clients_users_config()
}

/// All tables but the group memberships agree between two store states.
pub open spec fn spec_same_but_memberships(pre: Db, post: Db) -> bool {
    &&& post.spec_users() == pre.spec_users()
    &&& post.spec_departments() == pre.spec_departments()
    &&& post.spec_celcat_students() == pre.spec_celcat_students()
    &&& post.spec_groups() == pre.spec_groups()
    &&& post.spec_courses() == pre.spec_courses()
    &&& post.spec_groups_courses() == pre.spec_groups_courses()
    &&& post.spec_clients() == pre.spec_clients()
    &&& post.spec_clients_users_config() == pre.spec_clients_users_config()
}

/// All tables but the course records agree between two store states.
pub open spec fn spec_same_but_courses(pre: Db, post: Db) -> bool {
    &&& post.spec_users() == pre.spec_users()
    &&& post.spec_departments() == pre.spec_departments()
    &&& post.spec_celcat_students() == pre.spec_celcat_students()
    &&& post.spec_groups() == pre.spec_groups()
    &&& post.spec_users_groups() == pre.spec_users_groups()
    &&& post.spec_groups_courses() == pre.spec_groups_courses()
    &&& post.spec_clients() == pre.spec_clients()
    &&& post.spec_clients_users_config() == pre.spec_clients_users_config()
}

/// All tables but the group-course associations agree between two store
/// states.
pub open spec fn spec_same_but_associations(pre: Db, post: Db) -> bool {
    &&& post.spec_users() == pre.spec_users()
    &&& post.spec_departments() == pre.spec_departments()
    &&& post.spec_celcat_students() == pre.spec_celcat_students()
    &&& post.spec_groups() == pre.spec_groups()
    &&& post.spec_users_groups() == pre.spec_users_groups()
    &&& post.spec_courses() == pre.spec_courses()
    &&& post.spec_clients() == pre.spec_clients()
    &&& post.spec_clients_users_config() == pre.spec_clients_users_config()
}

/// All tables but the client configurations agree between two store
/// states.
pub open spec fn spec_same_but_configs(pre: Db, post: Db) -> bool {
    &&& post.spec_users() == pre.spec_users()
    &&& post.spec_departments() == pre.spec_departments()
    &&& post.spec_celcat_students() == pre.spec_celcat_students()
    &&& post.spec_groups() == pre.spec_groups()
    &&& post.spec_users_groups() == pre.spec_users_groups()
    &&& post.spec_courses() == pre.spec_courses()
    &&& post.spec_groups_courses() == pre.spec_groups_courses()
    &&& post.spec_clients() == pre.spec_clients()
}

/// All tables but the imported students agree between two store states.
pub open spec fn spec_same_but_students(pre: Db, post: Db) -> bool {
    &&& post.spec_users() == pre.spec_users()
    &&& post.spec_departments() == pre.spec_departments()
    &&& post.spec_groups() == pre.spec_groups()
    &&& post.spec_users_groups() == pre.spec_users_groups()
    &&& post.spec_courses() == pre.spec_courses()
    &&& post.spec_groups_courses() == pre.spec_groups_courses()
    &&& post.spec_clients() == pre.spec_clients()
    &&& post.spec_clients_users_config() == pre.spec_clients_users_config()
}

impl Db {
    /// Creates the account row of a new user. A second row with the same
    /// id is refused, as the store's key discipline demands.
    pub fn insert_user(&mut self, user: User) -> (r: Result<(), RpcError>)
        requires
            old(self).wf(),
        ensures
            final(self).wf(),
            spec_has_user(old(self).spec_users(), user.id) ==> r == Err::<(), RpcError>(
                RpcError::UnknownError,
            ) && *final(self) == *old(self),
            !spec_has_user(old(self).spec_users(), user.id) ==> r == Ok::<(), RpcError>(())
                && final(self).spec_users() == old(self).spec_users().push(user)
                && spec_same_but_users(*old(self), *final(self)),
    {
        if self.match_user_by_id(user.id).is_some() {
            Err(RpcError::UnknownError)
        } else {
            self.users.push(user);
            proof {
                let pre = old(self).spec_users();
                let post = self.spec_users();
                assert forall|i: int, j: int|
                    0 <= i < j < post.len() implies post[i].id != post[j].id by {
                    if j == post.len() - 1 {
                        assert(post[i] == pre[i]);
                        if pre[i].id == user.id {
                            assert(spec_has_user(pre, user.id));
                        }
                    }
                };
                assert(spec_same_but_users(*old(self), *self));
            }
            Ok(())
        }
    }

    /// Overwrites the account row of an existing user with fresh fields; a
    /// user the store does not know is left as absent, which the
    /// relational update also tolerates.
    pub fn update_user(&mut self, user: User)
        requires
            old(self).wf(),
        ensures
            final(self).wf(),
            !spec_has_user(old(self).spec_users(), user.id) ==> *final(self) == *old(self),
            spec_has_user(old(self).spec_users(), user.id) ==> exists|i: int|
                0 <= i < old(self).spec_users().len() && old(self).spec_users()[i].id == user.id
                    && final(self).spec_users() == old(self).spec_users().update(i, user)
                    && spec_same_but_users(*old(self), *final(self)),
    {
        let n = self.users.len();
        let mut i: usize = 0;
        while i < n
            invariant
                i <= n,
                old(self).wf(),
                *self == *old(self),
                n == self.spec_users().len(),
                forall|j: int| 0 <= j < i ==> self.spec_users()[j].id != user.id,
            decreases n - i,
        {
            if self.users[i].id == user.id {
                proof {
                    assert(old(self).spec_users()[i as int].id == user.id);
                }
                self.users.set(i, user);
                proof {
                    assert(spec_same_but_users(*old(self), *self));
                    let pre = old(self).spec_users();
                    let post = self.spec_users();
                    assert forall|a: int, b: int|
                        0 <= a < b < post.len() implies post[a].id != post[b].id by {
                        assert(pre[a].id != pre[b].id);
                        if a == i as int {
                            assert(post[b] == pre[b]);
                        } else if b == i as int {
                            assert(post[a] == pre[a]);
                        }
                    };
                }
                return ;
            }
            i = i + 1;
        }
    }

    /// Records this user as a member of this group, after the checks the
    /// join flow makes: the user and the group must exist, the group must
    /// be public, and the membership must be new.
    pub fn insert_user_in_group(&mut self, user_id: i64, group_id: i32) -> (r: Result<
        (),
        RpcError,
    >)
        requires
            old(self).wf(),
        ensures
            final(self).wf(),
            r is Err ==> *final(self) == *old(self),
            ({
                let users = old(self).spec_users();
                let groups = old(self).spec_groups();
                let rows = old(self).spec_users_groups();
                if !spec_has_user(users, user_id) {
                    r == Err::<(), RpcError>(RpcError::Unimplemented)
                } else if !spec_has_group(groups, group_id) {
                    r == Err::<(), RpcError>(RpcError::Unimplemented)
                } else if exists|i: int|
                    0 <= i < groups.len() && groups[i].id == group_id && groups[i].private {
                    r == Err::<(), RpcError>(RpcError::Unimplemented)
                } else if spec_in_group(rows, user_id, group_id) {
                    r == Err::<(), RpcError>(RpcError::Unimplemented)
                } else {
                    r == Ok::<(), RpcError>(()) && final(self).spec_users_groups() == rows.push(
                        (user_id, group_id),
                    ) && spec_same_but_memberships(*old(self), *final(self))
                }
            }),
    {
        if self.match_user_by_id(user_id).is_none() {
            return Err(RpcError::Unimplemented);
        }
        let private = match self.match_group(group_id) {
            None => {
                return Err(RpcError::Unimplemented);
            },
            Some(g) => g.private,
        };
        if private {
            return Err(RpcError::Unimplemented);
        }
        if self.is_user_in_group(user_id, group_id) {
            return Err(RpcError::Unimplemented);
        }
        self.users_groups.push((user_id, group_id));
        proof {
            assert(spec_same_but_memberships(*old(self), *self));
            let pre = old(self).spec_users_groups();
            let post = self.spec_users_groups();
            assert forall|a: int, b: int|
                0 <= a < b < post.len() implies post[a] != post[b] by {
                if b == post.len() - 1 {
                    assert(post[a] == pre[a]);
                    if pre[a].0 == user_id && pre[a].1 == group_id {
                        assert(spec_in_group(pre, user_id, group_id));
                    }
                }
            };
        }
        Ok(())
    }

    /// The groups this user belongs to, in membership-row order. A
    /// membership row that points to no group row is a store fault and is
    /// reported as an error.
    pub fn get_user_groups(&self, user_id: i64) -> (r: Result<Vec<&Group>, RpcError>)
        ensures
            ({
                let ids = spec_user_group_ids(self.spec_users_groups(), user_id);
                match r {
                    Ok(v) => v@.len() == ids.len() && forall|i: int|
                        0 <= i < ids.len() ==> (#[trigger] v@[i]).id == ids[i] && exists|j: int|
                            0 <= j < self.spec_groups().len() && self.spec_groups()[j] == *v@[i],
                    Err(e) => e == RpcError::Unimplemented && exists|i: int|
                        0 <= i < self.spec_users_groups().len()
                            && self.spec_users_groups()[i].0 == user_id && !spec_has_group(
                            self.spec_groups(),
                            self.spec_users_groups()[i].1,
                        ),
                }
            }),
    {
        let n = self.users_groups.len();
        let mut v: Vec<&Group> = Vec::new();
        let mut i: usize = 0;
        while i < n
            invariant
                i <= n,
                n == self.spec_users_groups().len(),
                ({
                    let ids = spec_user_group_ids(
                        self.spec_users_groups().subrange(0, i as int),
                        user_id,
                    );
                    v@.len() == ids.len() && forall|k: int|
                        0 <= k < ids.len() ==> (#[trigger] v@[k]).id == ids[k] && exists|j: int|
                            0 <= j < self.spec_groups().len() && self.spec_groups()[j] == *v@[k]
                }),
            decreases n - i,
        {
            let ghost held = v@;
            let row = self.users_groups[i];
            if row.0 == user_id {
                match self.match_group(row.1) {
                    None => {
                        return Err(RpcError::Unimplemented);
                    },
                    Some(g) => {
                        v.push(g);
                    },
                }
            }
            proof {
                let pre = self.spec_users_groups().subrange(0, i as int);
                let post = self.spec_users_groups().subrange(0, i + 1 as int);
                assert(post.drop_last() =~= pre);
                assert(post[post.len() - 1] == self.spec_users_groups()[i as int]);
                let ids_pre = spec_user_group_ids(pre, user_id);
                let ids_post = spec_user_group_ids(post, user_id);
                assert forall|k: int|
                    0 <= k < ids_post.len() implies v@[k].id == ids_post[k] && exists|j: int|
                        0 <= j < self.spec_groups().len() && self.spec_groups()[j] == *v@[k] by {
                    if k < ids_pre.len() {
                        assert(v@[k] == held[k]);
                        assert(held[k].id == ids_pre[k] && exists|j: int|
                            0 <= j < self.spec_groups().len() && self.spec_groups()[j] == *held[k]);
                    } else {
                        assert(v@[k] == v@.last());
                    }
                };
            }
            i = i + 1;
        }
        proof {
            assert(self.spec_users_groups().subrange(0, self.spec_users_groups().len() as int)
                =~= self.spec_users_groups());
        }
        Ok(v)
    }

    /// The groups open to everyone, in row order.
    pub fn get_all_groups(&self) -> (r: Vec<&Group>)
        ensures
            ({
                let pubs = spec_public_groups(self.spec_groups());
                r@.len() == pubs.len() && forall|i: int| 0 <= i < pubs.len() ==> *r@[i] == pubs[i]
            }),
    {
        let n = self.groups.len();
        let mut v: Vec<&Group> = Vec::new();
        let mut i: usize = 0;
        while i < n
            invariant
                i <= n,
                n == self.spec_groups().len(),
                ({
                    let pubs = spec_public_groups(self.spec_groups().subrange(0, i as int));
                    v@.len() == pubs.len() && forall|k: int|
                        0 <= k < pubs.len() ==> *v@[k] == pubs[k]
                }),
            decreases n - i,
        {
            if !self.groups[i].private {
                v.push(&self.groups[i]);
            }
            proof {
                let pre = self.spec_groups().subrange(0, i as int);
                let post = self.spec_groups().subrange(0, i + 1 as int);
                assert(post.drop_last() =~= pre);
                assert(post[post.len() - 1] == self.spec_groups()[i as int]);
            }
            i = i + 1;
        }
        proof {
            assert(self.spec_groups().subrange(0, self.spec_groups().len() as int)
                =~= self.spec_groups());
        }
        v
    }

    /// The detail records of one group's courses whose start time falls in
    /// the window, in association-row order. An association row whose
    /// course record is missing from the store is a fault and is reported
    /// as an error.
    pub fn get_group_courses(&self, group_id: i32, start: DateTime, end: DateTime) -> (r: Result<
        Vec<&Course>,
        RpcError,
    >)
        ensures
            ({
                let sel = spec_courses_in_window(
                    self.spec_groups_courses(),
                    self.spec_courses(),
                    group_id,
                    start,
                    end,
                );
                match r {
                    Ok(v) => v@.len() == sel.len() && forall|i: int|
                        0 <= i < sel.len() ==> *v@[i] == sel[i],
                    Err(e) => e == RpcError::Unimplemented && exists|i: int|
                        0 <= i < self.spec_groups_courses().len()
                            && self.spec_groups_courses()[i].group_id == group_id
                            && !self.spec_courses().contains_key(
                            self.spec_groups_courses()[i].course_id@,
                        ),
                }
            }),
    {
        let n = self.groups_courses.len();
        let mut v: Vec<&Course> = Vec::new();
        let mut i: usize = 0;
        while i < n
            invariant
                i <= n,
                n == self.spec_groups_courses().len(),
                ({
                    let sel = spec_courses_in_window(
                        self.spec_groups_courses().subrange(0, i as int),
                        self.spec_courses(),
                        group_id,
                        start,
                        end,
                    );
                    v@.len() == sel.len() && forall|k: int|
                        0 <= k < sel.len() ==> *v@[k] == sel[k]
                }),
            decreases n - i,
        {
            let row = &self.groups_courses[i];
            if row.group_id == group_id {
                match self.courses.get(row.course_id.as_str()) {
                    None => {
                        return Err(RpcError::Unimplemented);
                    },
                    Some(c) => {
                        if start.le(&c.start_time) && c.start_time.le(&end) {
                            v.push(c);
                        }
                    },
                }
            }
            proof {
                let pre = self.spec_groups_courses().subrange(0, i as int);
                let post = self.spec_groups_courses().subrange(0, i + 1 as int);
                assert(post.drop_last() =~= pre);
                assert(post[post.len() - 1] == self.spec_groups_courses()[i as int]);
            }
            i = i + 1;
        }
        proof {
            assert(self.spec_groups_courses().subrange(0, self.spec_groups_courses().len() as int)
                =~= self.spec_groups_courses());
        }
        Ok(v)
    }

    /// Stores one client's configuration for one user, after the check the
    /// configuration flow makes: the user must exist. An existing
    /// configuration for the pair is overwritten, a new one is added.
    pub fn set_client_user_config(&mut self, client_id: i32, user_id: i64, config: String) -> (r:
        Result<(), RpcError>)
        requires
            old(self).wf(),
        ensures
            final(self).wf(),
            r is Err ==> *final(self) == *old(self),
            ({
                let cfgs = old(self).spec_clients_users_config();
                if !spec_has_user(old(self).spec_users(), user_id) {
                    r == Err::<(), RpcError>(RpcError::Unimplemented)
                } else if !(exists|i: int|
                    0 <= i < cfgs.len() && cfgs[i].client_id == client_id && cfgs[i].user_id
                        == user_id) {
                    r == Ok::<(), RpcError>(()) && spec_same_but_configs(*old(self), *final(self))
                        && final(self).spec_clients_users_config().len() == cfgs.len() + 1
                        && final(self).spec_clients_users_config().subrange(0, cfgs.len() as int)
                        == cfgs && final(self).spec_clients_users_config()[cfgs.len() as int].client_id
                        == client_id && final(self).spec_clients_users_config()[cfgs.len() as int].user_id
                        == user_id && final(self).spec_clients_users_config()[cfgs.len() as int].config@
                        == config@
                } else {
                    r == Ok::<(), RpcError>(()) && spec_same_but_configs(*old(self), *final(self))
                        && exists|i: int|
                        0 <= i < cfgs.len() && cfgs[i].client_id == client_id && cfgs[i].user_id
                            == user_id && final(self).spec_clients_users_config().len()
                            == cfgs.len() && (forall|j: int|
                            0 <= j < cfgs.len() && j != i
                                ==> final(self).spec_clients_users_config()[j] == cfgs[j])
                            && final(self).spec_clients_users_config()[i].client_id == client_id
                            && final(self).spec_clients_users_config()[i].user_id == user_id
                            && final(self).spec_clients_users_config()[i].config@ == config@
                }
            }),
    {
        if self.match_user_by_id(user_id).is_none() {
            return Err(RpcError::Unimplemented);
        }
        let n = self.clients_users_config.len();
        let mut i: usize = 0;
        while i < n
            invariant
                i <= n,
                old(self).wf(),
                *self == *old(self),
                spec_has_user(old(self).spec_users(), user_id),
                n == self.spec_clients_users_config().len(),
                forall|j: int|
                    0 <= j < i ==> !(self.spec_clients_users_config()[j].client_id == client_id
                        && self.spec_clients_users_config()[j].user_id == user_id),
            decreases n - i,
        {
            let row = &self.clients_users_config[i];
            if row.client_id == client_id && row.user_id == user_id {
                proof {
                    assert(old(self).spec_clients_users_config()[i as int].client_id == client_id
                        && old(self).spec_clients_users_config()[i as int].user_id == user_id);
                }
                self.clients_users_config.set(i, ClientConfig { client_id, user_id, config });
                proof {
                    assert(spec_same_but_configs(*old(self), *self));
                    let pre = old(self).spec_clients_users_config();
                    let post = self.spec_clients_users_config();
                    assert(post.len() == pre.len());
                    assert(forall|j: int|
                        0 <= j < pre.len() && j != i as int ==> post[j] == pre[j]);
                    assert(post[i as int].client_id == client_id && post[i as int].user_id
                        == user_id && post[i as int].config@ == config@);
                    assert forall|a: int, b: int|
                        0 <= a < b < post.len() implies !(post[a].client_id == post[b].client_id
                            && post[a].user_id == post[b].user_id) by {
                        assert(!(pre[a].client_id == pre[b].client_id && pre[a].user_id
                            == pre[b].user_id));
                        if a == i as int {
                            assert(post[b] == pre[b]);
                        } else if b == i as int {
                            assert(post[a] == pre[a]);
                        }
                    };
                }
                return Ok(());
            }
            i = i + 1;
        }
        self.clients_users_config.push(ClientConfig { client_id, user_id, config });
        proof {
            assert(spec_same_but_configs(*old(self), *self));
            let pre = old(self).spec_clients_users_config();
            let post = self.spec_clients_users_config();
            assert(post.subrange(0, pre.len() as int) =~= pre);
            assert forall|a: int, b: int|
                0 <= a < b < post.len() implies !(post[a].client_id == post[b].client_id
                    && post[a].user_id == post[b].user_id) by {
                if b == post.len() - 1 {
                    assert(post[a] == pre[a]);
                } else {
                    assert(post[a] == pre[a]);
                    assert(post[b] == pre[b]);
                }
            };
        }
        Ok(())
    }

    /// Upserts the detail record of one course: the Persistence Sink
    /// interface of the synchronization run. Keyed by the course id, so
    /// writing the same record again replaces it with itself.
    pub fn upsert_course(&mut self, course: Course)
        requires
            old(self).wf(),
        ensures
            final(self).wf(),
            final(self).spec_courses() == old(self).spec_courses().insert(course.id@, course),
            spec_same_but_courses(*old(self), *final(self)),
    {
        let key = course.id.clone();
        self.courses.insert(key, course);
        proof {
            assert(spec_same_but_courses(*old(self), *self));
        }
    }

    /// Clears every association of one group, as a group import does at
    /// its start; associations of other groups are untouched, in their
    /// order.
    pub fn delete_group_courses(&mut self, group_id: i32)
        requires
            old(self).wf(),
        ensures
            final(self).wf(),
            final(self).spec_groups_courses() == spec_remove_group(
                old(self).spec_groups_courses(),
                group_id,
            ),
            spec_same_but_associations(*old(self), *final(self)),
    {
        proof {
            let rows = self.spec_groups_courses();
            assert(rows.subrange(0, rows.len() as int) =~= rows);
            assert(rows.subrange(0, 0) =~= Seq::<GroupCourse>::empty());
            assert(Seq::<GroupCourse>::empty() + spec_remove_group(rows, group_id)
                =~= spec_remove_group(rows, group_id));
        }
        let mut i: usize = 0;
        while i < self.groups_courses.len()
            invariant
                i <= self.spec_groups_courses().len(),
                old(self).wf(),
                spec_same_but_associations(*old(self), *self),
                self.wf(),
                forall|j: int| 0 <= j < i ==> self.spec_groups_courses()[j].group_id != group_id,
                spec_remove_group(old(self).spec_groups_courses(), group_id)
                    == self.spec_groups_courses().subrange(0, i as int) + spec_remove_group(
                    self.spec_groups_courses().subrange(
                        i as int,
                        self.spec_groups_courses().len() as int,
                    ),
                    group_id,
                ),
            decreases self.spec_groups_courses().len() - i,
        {
            let ghost cur = self.spec_groups_courses();
            let ghost tail = cur.subrange(i as int, cur.len() as int);
            if self.groups_courses[i].group_id == group_id {
                self.groups_courses.remove(i);
                proof {
                    assert(tail.drop_first() =~= self.spec_groups_courses().subrange(
                        i as int,
                        self.spec_groups_courses().len() as int,
                    ));
                    assert(self.spec_groups_courses().subrange(0, i as int) =~= cur.subrange(
                        0,
                        i as int,
                    ));
                }
            } else {
                proof {
                    assert(tail.drop_first() =~= cur.subrange(i + 1 as int, cur.len() as int));
                    assert(cur.subrange(0, i + 1 as int) =~= cur.subrange(0, i as int).push(
                        cur[i as int],
                    ));
                }
                i = i + 1;
            }
        }
        proof {
            let cur = self.spec_groups_courses();
            assert(cur.subrange(0, cur.len() as int) =~= cur);
            assert(cur.subrange(cur.len() as int, cur.len() as int) =~= Seq::<GroupCourse>::empty());
            assert(spec_remove_group(old(self).spec_groups_courses(), group_id) =~= cur);
        }
    }

    /// Records one association between a group and a persisted course, as
    /// a group import does for each confirmed course.
    pub fn insert_group_course(&mut self, group_id: i32, course_id: String)
        requires
            old(self).wf(),
        ensures
            final(self).wf(),
            final(self).spec_groups_courses().len() == old(self).spec_groups_courses().len() + 1,
            final(self).spec_groups_courses().subrange(
                0,
                old(self).spec_groups_courses().len() as int,
            ) == old(self).spec_groups_courses(),
            final(self).spec_groups_courses().last().group_id == group_id,
            final(self).spec_groups_courses().last().course_id@ == course_id@,
            spec_same_but_associations(*old(self), *final(self)),
    {
        self.groups_courses.push(GroupCourse { group_id, course_id });
        proof {
            assert(spec_same_but_associations(*old(self), *self));
            assert(final(self).spec_groups_courses().subrange(
                0,
                old(self).spec_groups_courses().len() as int,
            ) =~= old(self).spec_groups_courses());
        }
    }

    /// Upserts one imported student row, keyed by the student id, as the
    /// student import does for each listed student.
    pub fn insert_celcat_student(&mut self, student: CelcatStudent)
        requires
            old(self).wf(),
        ensures
            final(self).wf(),
            spec_same_but_students(*old(self), *final(self)),
            !(exists|i: int|
                0 <= i < old(self).spec_celcat_students().len()
                    && old(self).spec_celcat_students()[i].id == student.id)
                ==> final(self).spec_celcat_students() == old(self).spec_celcat_students().push(
                student,
            ),
            (exists|i: int|
                0 <= i < old(self).spec_celcat_students().len()
                    && old(self).spec_celcat_students()[i].id == student.id) ==> exists|i: int|
                0 <= i < old(self).spec_celcat_students().len()
                    && old(self).spec_celcat_students()[i].id == student.id
                    && final(self).spec_celcat_students() == old(
                    self,
                ).spec_celcat_students().update(i, student),
    {
        let n = self.celcat_students.len();
        let mut i: usize = 0;
        while i < n
            invariant
                i <= n,
                old(self).wf(),
                *self == *old(self),
                n == self.spec_celcat_students().len(),
                forall|j: int| 0 <= j < i ==> self.spec_celcat_students()[j].id != student.id,
            decreases n - i,
        {
            if self.celcat_students[i].id == student.id {
                proof {
                    assert(old(self).spec_celcat_students()[i as int].id == student.id);
                }
                self.celcat_students.set(i, student);
                proof {
                    assert(spec_same_but_students(*old(self), *self));
                    let pre = old(self).spec_celcat_students();
                    let post = self.spec_celcat_students();
                    assert forall|a: int, b: int|
                        0 <= a < b < post.len() implies post[a].id != post[b].id by {
                        assert(pre[a].id != pre[b].id);
                        if a == i as int {
                            assert(post[b] == pre[b]);
                        } else if b == i as int {
                            assert(post[a] == pre[a]);
                        }
                    };
                }
                return ;
            }
            i = i + 1;
        }
        self.celcat_students.push(student);
        proof {
            assert(spec_same_but_students(*old(self), *self));
            let pre = old(self).spec_celcat_students();
            let post = self.spec_celcat_students();
            assert forall|a: int, b: int|
                0 <= a < b < post.len() implies post[a].id != post[b].id by {
                if b == post.len() - 1 {
                    assert(post[a] == pre[a]);
                }
            };
        }
    }

    /// Adds a department row, for building a store.
    pub fn insert_department(&mut self, d: Department) -> (r: Result<(), RpcError>)
        requires
            old(self).wf(),
        ensures
            final(self).wf(),
            r is Err ==> *final(self) == *old(self) && r == Err::<(), RpcError>(
                RpcError::Unimplemented,
            ),
            r is Ok ==> final(self).spec_departments() == old(self).spec_departments().push(d),
            r is Ok <==> !(exists|i: int|
                0 <= i < old(self).spec_departments().len() && old(self).spec_departments()[i].id@
                    == d.id@),
    {
        let n = self.departments.len();
        let mut i: usize = 0;
        while i < n
            invariant
                i <= n,
                old(self).wf(),
                *self == *old(self),
                n == self.spec_departments().len(),
                forall|j: int| 0 <= j < i ==> self.spec_departments()[j].id@ != d.id@,
            decreases n - i,
        {
            if str_eq(self.departments[i].id.as_str(), d.id.as_str()) {
                return Err(RpcError::Unimplemented);
            }
            i = i + 1;
        }
        self.departments.push(d);
        proof {
            assert(self.spec_users() == old(self).spec_users());
            assert(self.spec_celcat_students() == old(self).spec_celcat_students());
            assert(self.spec_groups() == old(self).spec_groups());
            assert(self.spec_users_groups() == old(self).spec_users_groups());
            assert(self.spec_clients() == old(self).spec_clients());
            assert(self.spec_clients_users_config() == old(self).spec_clients_users_config());
            let pre = old(self).spec_departments();
            let post = self.spec_departments();
            assert forall|a: int, b: int|
                0 <= a < b < post.len() implies post[a].id@ != post[b].id@ by {
                if b == post.len() - 1 {
                    assert(post[a] == pre[a]);
                }
            };
        }
        Ok(())
    }

    /// Adds a group row, for building a store.
    pub fn insert_group(&mut self, g: Group) -> (r: Result<(), RpcError>)
        requires
            old(self).wf(),
        ensures
            final(self).wf(),
            r is Err ==> *final(self) == *old(self) && r == Err::<(), RpcError>(
                RpcError::Unimplemented,
            ),
            r is Ok ==> final(self).spec_groups() == old(self).spec_groups().push(g),
            r is Ok <==> !spec_has_group(old(self).spec_groups(), g.id),
    {
        if self.match_group(g.id).is_some() {
            return Err(RpcError::Unimplemented);
        }
        self.groups.push(g);
        proof {
            assert(self.spec_users() == old(self).spec_users());
            assert(self.spec_departments() == old(self).spec_departments());
            assert(self.spec_celcat_students() == old(self).spec_celcat_students());
            assert(self.spec_users_groups() == old(self).spec_users_groups());
            assert(self.spec_clients() == old(self).spec_clients());
            assert(self.spec_clients_users_config() == old(self).spec_clients_users_config());
            let pre = old(self).spec_groups();
            let post = self.spec_groups();
            assert forall|a: int, b: int|
                0 <= a < b < post.len() implies post[a].id != post[b].id by {
                if b == post.len() - 1 {
                    assert(post[a] == pre[a]);
                    if pre[a].id == g.id {
                        assert(spec_has_group(pre, g.id));
                    }
                }
            };
        }
        Ok(())
    }

    /// Adds a client row, for building a store.
    pub fn insert_client(&mut self, c: Client) -> (r: Result<(), RpcError>)
        requires
            old(self).wf(),
        ensures
            final(self).wf(),
            r is Err ==> *final(self) == *old(self) && r == Err::<(), RpcError>(
                RpcError::Unimplemented,
            ),
            r is Ok ==> final(self).spec_clients() == old(self).spec_clients().push(c),
            r is Ok <==> !spec_has_client(old(self).spec_clients(), c.id),
    {
        if self.is_client_exist(c.id) {
            return Err(RpcError::Unimplemented);
        }
        self.clients.push(c);
        proof {
            assert(self.spec_users() == old(self).spec_users());
            assert(self.spec_departments() == old(self).spec_departments());
            assert(self.spec_celcat_students() == old(self).spec_celcat_students());
            assert(self.spec_groups() == old(self).spec_groups());
            assert(self.spec_users_groups() == old(self).spec_users_groups());
            assert(self.spec_clients_users_config() == old(self).spec_clients_users_config());
            let pre = old(self).spec_clients();
            let post = self.spec_clients();
            assert forall|a: int, b: int|
                0 <= a < b < post.len() implies post[a].id != post[b].id by {
                if b == post.len() - 1 {
                    assert(post[a] == pre[a]);
                    if pre[a].id == c.id {
                        assert(spec_has_client(pre, c.id));
                    }
                }
            };
        }
        Ok(())
    }
}


/// No lost updates: the upsert is keyed by the course id and stores the
/// record exactly, so upserting the same record a second time is a no-op —
/// the store after two identical upserts is the store after one.
pub proof fn lemma_upsert_idempotent(m: Map<Seq<char>, Course>, c: Course)
    ensures
        m.insert(c.id@, c).insert(c.id@, c) == m.insert(c.id@, c),
{
    assert(m.insert(c.id@, c).insert(c.id@, c) =~= m.insert(c.id@, c));
}

} // verus!
