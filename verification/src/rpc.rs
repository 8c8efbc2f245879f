//! The decision logic behind the RPC surface: given what the store and the
//! token registers answered, what each call replies. The wire protocol,
//! transport and serialization live outside this crate.

pub mod error;

use vstd::prelude::*;
use vstd::string::StringExecFns;

use crate::authentication::{
    hash_password, spec_jwt_of, spec_pbkdf2_hash, spec_pbkdf2_verifies, spec_phc_parses,
    verify_password, Claims, Register, SESSION_LIFETIME_SECONDS,
};
use crate::datetime::DateTime;
use crate::db::{
    spec_courses_in_window, spec_has_client, spec_has_user, spec_in_group, spec_user_group_ids,
    Db,
};
use crate::models::{Department, Group, Identity, User, UserView};
use crate::rpc::error::RpcError;
use crate::schedule::Course;
use crate::text::{i64_to_string, spec_i64_digits, str_eq};

verus! {

/// Decides a login call, from the user row found for the submitted mail
/// address — if any — the submitted password, the clock, and the signing
/// secret.
///
/// Login succeeds exactly when a user was found, its stored password hash
/// parses, and the password verifies against it; the reply is then a
/// fourteen-day session token for that user. An unknown address or a
/// failed verification is an incorrect-login error; a stored hash that
/// does not parse is an unknown error, since nothing can be checked
/// against it; and if signing the token itself fails, that too is an
/// unknown error.
pub fn login(user: Option<&User>, password: &str, now: usize, secret: &str) -> (r: Result<
    String,
    RpcError,
>)
    requires
        now + SESSION_LIFETIME_SECONDS <= usize::MAX,
    ensures
        ({
            match user {
                None => r == Err::<String, RpcError>(RpcError::IncorrectLoginInfo),
                Some(u) => {
                    if !spec_phc_parses(u.password@) {
                        r == Err::<String, RpcError>(RpcError::UnknownError)
                    } else if !spec_pbkdf2_verifies(password@, u.password@) {
                        r == Err::<String, RpcError>(RpcError::IncorrectLoginInfo)
                    } else {
                        match r {
                            Ok(t) => t@ == spec_jwt_of(
                                spec_i64_digits(u.id as int),
                                (now + SESSION_LIFETIME_SECONDS) as usize,
                                secret@,
                            ),
                            Err(e) => e == RpcError::UnknownError,
                        }
                    }
                },
            }
        }),
{
    let u = match user {
        Some(u) => u,
        None => {
            return Err(RpcError::IncorrectLoginInfo);
        },
    };
    match verify_password(password, u.password.as_str()) {
        Err(_) => Err(RpcError::UnknownError),
        Ok(false) => Err(RpcError::IncorrectLoginInfo),
        Ok(true) => {
            let claims = Claims::from_user(u, now);
            match claims.to_jwt(secret) {
                Ok(t) => Ok(t),
                Err(_) => Err(RpcError::UnknownError),
            }
        },
    }
}

/// Decides the second registration step: the token submitted by the user
/// is exchanged for the identity recorded at the first step, so the user
/// can confirm who they are. A token the register does not know — spent
/// or never issued — is refused.
pub fn register_identity(found: Option<&User>) -> (r: Result<Identity, RpcError>)
    ensures
        found is None ==> r == Err::<Identity, RpcError>(RpcError::RegistrationTokenUsed),
        found matches Some(u) ==> (r matches Ok(id) && id.firstname@ == u.firstname@
            && id.lastname@ == u.lastname@),
{
    match found {
        Some(u) => Ok(
            Identity { firstname: u.firstname.clone(), lastname: u.lastname.clone() },
        ),
        None => Err(RpcError::RegistrationTokenUsed),
    }
}

/// Builds the full mail address of a registering user: the submitted local
/// part, an `@`, and the domain of the department they registered under.
pub fn department_email(local: &str, dpmt: &Department) -> (r: String)
    ensures
        r@ == local@ + "@"@ + dpmt.domain@,
{
    let mut email = local.to_owned();
    email.append("@");
    email.append(dpmt.domain.as_str());
    email
}


/// Decides the first registration step: under which department the user
/// registers, whether the account may be created, and what the register
/// must remember for the fresh token.
///
/// The department must be known — its mail domain completes the submitted
/// local part into the user's address; the id must not be registered yet
/// and the address must not be in use; and the id must be listed for that
/// department in the imported student directory, which also supplies the
/// name. When all of that holds, the token — drawn by the caller — is
/// recorded for the would-be user, and the completed address, to which the
/// caller then mails the token, is returned.
pub fn register_1(
    db: &Db,
    reg: &mut Register,
    ldap: i64,
    department: &str,
    email_local: &str,
    token: String,
) -> (r: Result<String, RpcError>)
    requires
        db.wf(),
    ensures
        r is Err ==> final(reg)@ == old(reg)@,
        ({
            let depts = db.spec_departments();
            let users = db.spec_users();
            let students = db.spec_celcat_students();
            if forall|i: int| 0 <= i < depts.len() ==> depts[i].id@ != department@ {
                r == Err::<String, RpcError>(RpcError::UnknownDepartment)
            } else if spec_has_user(users, ldap) {
                r == Err::<String, RpcError>(RpcError::AlreadyRegistered)
            } else {
                exists|di: int|
                    0 <= di < depts.len() && depts[di].id@ == department@ && ({
                        let full = email_local@ + "@"@ + depts[di].domain@;
                        if exists|ui: int| 0 <= ui < users.len() && users[ui].email@ == full {
                            r == Err::<String, RpcError>(RpcError::AlreadyRegistered)
                        } else if forall|si: int|
                            0 <= si < students.len() ==> !(students[si].id == ldap && (
                            students[si].department matches Some(d) && d@ == department@)) {
                            r == Err::<String, RpcError>(RpcError::IncorrectLoginInfo)
                        } else {
                            exists|si: int|
                                0 <= si < students.len() && students[si].id == ldap && (
                                students[si].department matches Some(d) && d@ == department@) && (
                                r matches Ok(e) && e@ == full && final(reg)@.contains_key(token@)
                                    && final(reg)@[token@]@ == (UserView {
                                    id: ldap,
                                    firstname: students[si].firstname@,
                                    lastname: students[si].lastname@,
                                    email: full,
                                    password: Seq::empty(),
                                }) && final(reg)@ == old(reg)@.insert(
                                    token@,
                                    final(reg)@[token@],
                                ))
                        }
                    })
            }
        }),
{
    let dpmt = match db.match_department(department) {
        None => {
            return Err(RpcError::UnknownDepartment);
        },
        Some(d) => d,
    };
    if db.match_user_by_id(ldap).is_some() {
        return Err(RpcError::AlreadyRegistered);
    }
    let full = department_email(email_local, dpmt);
    if db.match_user_by_email(full.as_str()).is_some() {
        return Err(RpcError::AlreadyRegistered);
    }
    let student = match db.match_celcat_student(ldap, department) {
        None => {
            return Err(RpcError::IncorrectLoginInfo);
        },
        Some(s) => s,
    };
    let user = User {
        id: ldap,
        firstname: student.firstname.clone(),
        lastname: student.lastname.clone(),
        email: full.clone(),
        password: String::new(),
    };
    reg.put_user(token, user);
    Ok(full)
}

/// Decides the third registration step: the token is spent, the submitted
/// name and password complete the remembered user, and the account row is
/// created.
///
/// A token the register does not know is refused and nothing changes. A
/// known token is spent even if the step then fails — it is single-use.
/// The password is hashed with the user's id as salt; if the hashing
/// refuses that salt, or the account row already exists, the step reports
/// an unknown error.
pub fn register_3(
    reg: &mut Register,
    db: &mut Db,
    hash: &str,
    firstname: String,
    lastname: String,
    password: &str,
) -> (r: Result<(), RpcError>)
    requires
        old(db).wf(),
    ensures
        final(db).wf(),
        !old(reg)@.contains_key(hash@) ==> r == Err::<(), RpcError>(
            RpcError::RegistrationTokenUsed,
        ) && final(reg)@ == old(reg)@ && *final(db) == *old(db),
        old(reg)@.contains_key(hash@) ==> final(reg)@ == old(reg)@.remove(hash@),
        ({
            old(reg)@.contains_key(hash@) && r is Ok ==> ({
                let u = old(reg)@[hash@];
                &&& !spec_has_user(old(db).spec_users(), u@.id)
                &&& crate::db::spec_same_but_users(*old(db), *final(db))
                &&& final(db).spec_users().len() == old(db).spec_users().len() + 1
                &&& final(db).spec_users().last()@ == (UserView {
                    id: u@.id,
                    firstname: firstname@,
                    lastname: lastname@,
                    email: u@.email,
                    password: spec_pbkdf2_hash(password@, spec_i64_digits(u@.id as int)),
                })
            })
        }),
{
    let stored = match reg.take_user(hash) {
        None => {
            return Err(RpcError::RegistrationTokenUsed);
        },
        Some(u) => u,
    };
    let salt = i64_to_string(stored.id);
    let hashed = match hash_password(password, salt.as_str()) {
        Err(_) => {
            return Err(RpcError::UnknownError);
        },
        Ok(h) => h,
    };
    let user = User {
        id: stored.id,
        firstname,
        lastname,
        email: stored.email,
        password: hashed,
    };
    let ghost expected = user@;
    match db.insert_user(user) {
        Err(_) => Err(RpcError::UnknownError),
        Ok(()) => {
            proof {
                assert(final(db).spec_users().last()@ == expected);
            }
            Ok(())
        },
    }
}

/// Decides a password-reset request: the id must name a user and the
/// submitted address must be the user's own; the reset token — drawn by
/// the caller — is then recorded for that user, and the caller mails it.
pub fn send_password_reset_code(
    db: &Db,
    reset: &mut Register,
    ldap: i64,
    email: &str,
    token: String,
) -> (r: Result<(), RpcError>)
    ensures
        r is Err ==> r == Err::<(), RpcError>(RpcError::IncorrectLoginInfo) && final(reset)@
            == old(reset)@,
        ({
            let users = db.spec_users();
            if !spec_has_user(users, ldap) {
                r is Err
            } else {
                r is Ok ==> exists|i: int|
                    0 <= i < users.len() && users[i].id == ldap && users[i].email@ == email@
                        && final(reset)@ == old(reset)@.insert(token@, final(reset)@[token@])
                        && final(reset)@.contains_key(token@) && final(reset)@[token@]@
                        == users[i]@
            }
        }),
{
    let user = match db.match_user_by_id(ldap) {
        None => {
            return Err(RpcError::IncorrectLoginInfo);
        },
        Some(u) => u,
    };
    if !str_eq(user.email.as_str(), email) {
        return Err(RpcError::IncorrectLoginInfo);
    }
    let copy = user.duplicate();
    reset.put_user(token, copy);
    Ok(())
}

/// Decides a password reset: the code is spent — it is single-use, even if
/// the reset then fails — and the remembered user's account row gets the
/// newly hashed password, the other fields kept.
pub fn reset_password(
    reset: &mut Register,
    db: &mut Db,
    code: &str,
    password: &str,
) -> (r: Result<(), RpcError>)
    requires
        old(db).wf(),
    ensures
        final(db).wf(),
        !old(reset)@.contains_key(code@) ==> r == Err::<(), RpcError>(RpcError::Unimplemented)
            && final(reset)@ == old(reset)@ && *final(db) == *old(db),
        old(reset)@.contains_key(code@) ==> final(reset)@ == old(reset)@.remove(code@),
        ({
            old(reset)@.contains_key(code@) && r is Ok ==> ({
                let u = old(reset)@[code@];
                if spec_has_user(old(db).spec_users(), u@.id) {
                    exists|i: int|
                        0 <= i < old(db).spec_users().len() && old(db).spec_users()[i].id == u@.id
                            && crate::db::spec_same_but_users(*old(db), *final(db))
                            && final(db).spec_users().len() == old(db).spec_users().len()
                            && final(db).spec_users()[i]@ == (UserView {
                            id: u@.id,
                            firstname: u@.firstname,
                            lastname: u@.lastname,
                            email: u@.email,
                            password: spec_pbkdf2_hash(password@, spec_i64_digits(u@.id as int)),
                        })
                } else {
                    *final(db) == *old(db)
                }
            })
        }),
{
    let stored = match reset.take_user(code) {
        None => {
            return Err(RpcError::Unimplemented);
        },
        Some(u) => u,
    };
    let salt = i64_to_string(stored.id);
    let hashed = match hash_password(password, salt.as_str()) {
        Err(_) => {
            return Err(RpcError::UnknownError);
        },
        Ok(h) => h,
    };
    let user = User {
        id: stored.id,
        firstname: stored.firstname,
        lastname: stored.lastname,
        email: stored.email,
        password: hashed,
    };
    db.update_user(user);
    Ok(())
}

/// Decides a my-groups call: the caller must be logged in; the reply lists
/// the groups the user belongs to, in membership order.
pub fn my_groups_get<'a>(db: &'a Db, user: Option<&User>) -> (r: Result<Vec<&'a Group>, RpcError>)
    ensures
        user is None ==> r == Err::<Vec<&'a Group>, RpcError>(RpcError::IncorrectLoginInfo),
        ({
            user matches Some(u) ==> ({
                let ids = spec_user_group_ids(db.spec_users_groups(), u.id);
                match r {
                    Ok(v) => v@.len() == ids.len() && forall|i: int|
                        0 <= i < ids.len() ==> v@[i].id == ids[i],
                    Err(e) => e == RpcError::Unimplemented,
                }
            })
        }),
{
    match user {
        None => Err(RpcError::IncorrectLoginInfo),
        Some(u) => db.get_user_groups(u.id),
    }
}

/// Decides an all-groups call: the caller must be logged in; the reply
/// lists every public group.
pub fn all_groups_get<'a>(db: &'a Db, user: Option<&User>) -> (r: Result<Vec<&'a Group>, RpcError>)
    ensures
        user is None ==> r == Err::<Vec<&'a Group>, RpcError>(RpcError::IncorrectLoginInfo),
        user is Some ==> (r matches Ok(v) && ({
            let pubs = crate::db::spec_public_groups(db.spec_groups());
            v@.len() == pubs.len() && forall|i: int| 0 <= i < pubs.len() ==> *v@[i] == pubs[i]
        })),
{
    match user {
        None => Err(RpcError::IncorrectLoginInfo),
        Some(_) => Ok(db.get_all_groups()),
    }
}

/// Decides a schedule call: the caller must be logged in and a member of
/// the group; the reply is the group's courses whose start falls in the
/// window, in association order.
pub fn schedule_get<'a>(
    db: &'a Db,
    user: Option<&User>,
    group: i32,
    start: DateTime,
    end: DateTime,
) -> (r: Result<Vec<&'a Course>, RpcError>)
    ensures
        user is None ==> r == Err::<Vec<&'a Course>, RpcError>(RpcError::IncorrectLoginInfo),
        ({
            user matches Some(u) ==> {
                if !spec_in_group(db.spec_users_groups(), u.id, group) {
                    r == Err::<Vec<&'a Course>, RpcError>(RpcError::Unimplemented)
                } else {
                    let sel = spec_courses_in_window(
                        db.spec_groups_courses(),
                        db.spec_courses(),
                        group,
                        start,
                        end,
                    );
                    match r {
                        Ok(v) => v@.len() == sel.len() && forall|i: int|
                            0 <= i < sel.len() ==> *v@[i] == sel[i],
                        Err(e) => e == RpcError::Unimplemented,
                    }
                }
            }
        }),
{
    let u = match user {
        None => {
            return Err(RpcError::IncorrectLoginInfo);
        },
        Some(u) => u,
    };
    if !db.is_user_in_group(u.id, group) {
        return Err(RpcError::Unimplemented);
    }
    db.get_group_courses(group, start, end)
}

/// Decides a client-configuration read: the caller must be logged in and
/// the client application known; the reply is the stored configuration,
/// if the user has one.
pub fn client_configs_get<'a>(
    db: &'a Db,
    user: Option<&User>,
    client_id: i32,
) -> (r: Result<Option<&'a String>, RpcError>)
    ensures
        user is None ==> r == Err::<Option<&'a String>, RpcError>(RpcError::IncorrectLoginInfo),
        ({
            user matches Some(u) ==> {
                if !spec_has_client(db.spec_clients(), client_id) {
                    r == Err::<Option<&'a String>, RpcError>(RpcError::UnknownClient)
                } else {
                    match r {
                        Ok(Some(c)) => exists|i: int|
                            0 <= i < db.spec_clients_users_config().len()
                                && db.spec_clients_users_config()[i].client_id == client_id
                                && db.spec_clients_users_config()[i].user_id == u.id
                                && db.spec_clients_users_config()[i].config@ == c@,
                        Ok(None) => forall|i: int|
                            0 <= i < db.spec_clients_users_config().len() ==> !(
                            db.spec_clients_users_config()[i].client_id == client_id
                                && db.spec_clients_users_config()[i].user_id == u.id),
                        Err(_) => false,
                    }
                }
            }
        }),
{
    let u = match user {
        None => {
            return Err(RpcError::IncorrectLoginInfo);
        },
        Some(u) => u,
    };
    if !db.is_client_exist(client_id) {
        return Err(RpcError::UnknownClient);
    }
    Ok(db.get_client_user_config(client_id, u.id))
}

/// Decides a client-configuration write: the caller must be logged in and
/// the client application known; the configuration is then stored for the
/// pair, overwriting any previous one.
pub fn client_configs_set(
    db: &mut Db,
    user_id: Option<i64>,
    client_id: i32,
    config: String,
) -> (r: Result<(), RpcError>)
    requires
        old(db).wf(),
    ensures
        final(db).wf(),
        r is Err ==> *final(db) == *old(db),
        user_id is None ==> r == Err::<(), RpcError>(RpcError::IncorrectLoginInfo),
        ({
            user_id matches Some(uid) ==> {
                if !spec_has_client(old(db).spec_clients(), client_id) {
                    r == Err::<(), RpcError>(RpcError::UnknownClient)
                } else if !spec_has_user(old(db).spec_users(), uid) {
                    r == Err::<(), RpcError>(RpcError::Unimplemented)
                } else {
                    r is Ok && exists|i: int|
                        0 <= i < final(db).spec_clients_users_config().len()
                            && final(db).spec_clients_users_config()[i].client_id == client_id
                            && final(db).spec_clients_users_config()[i].user_id == uid
                            && final(db).spec_clients_users_config()[i].config@ == config@
                }
            }
        }),
{
    let uid = match user_id {
        None => {
            return Err(RpcError::IncorrectLoginInfo);
        },
        Some(uid) => uid,
    };
    if !db.is_client_exist(client_id) {
        return Err(RpcError::UnknownClient);
    }
    db.set_client_user_config(client_id, uid, config)
}

} // verus!
