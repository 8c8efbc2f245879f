//! The rows of the relational store, as plain values.

use vstd::prelude::*;

verus! {

/// A registered user.
#[derive(Debug)]
pub struct User {
    pub id: i64,
    pub firstname: String,
    pub lastname: String,
    pub email: String,
    pub password: String,
}

/// The mathematical shape of a user row.
#[verifier::ext_equal]
pub struct UserView {
    pub id: i64,
    pub firstname: Seq<char>,
    pub lastname: Seq<char>,
    pub email: Seq<char>,
    pub password: Seq<char>,
}

impl View for User {
    type V = UserView;

    open spec fn view(&self) -> UserView {
        UserView {
            id: self.id,
            firstname: self.firstname@,
            lastname: self.lastname@,
            email: self.email@,
            password: self.password@,
        }
    }
}

impl User {
    /// A field-by-field copy of the row.
    pub fn duplicate(&self) -> (r: User)
        ensures
            r@ == self@,
    {
        let r = User {
            id: self.id,
            firstname: self.firstname.clone(),
            lastname: self.lastname.clone(),
            email: self.email.clone(),
            password: self.password.clone(),
        };
        proof {
            assert(r@ =~= self@);
        }
        r
    }
}

/// A user in the making, before its account row exists.
#[derive(Debug)]
pub struct NewUser {
    pub id: i32,
    pub firstname: String,
    pub lastname: String,
    pub email: String,
    pub password: String,
    pub groups: Vec<i32>,
}

/// A department, owning a mail domain.
#[derive(Debug)]
pub struct Department {
    pub id: String,
    pub name: String,
    pub domain: String,
}

/// The name pair shown to a registering user.
#[derive(Debug)]
pub struct Identity {
    pub firstname: String,
    pub lastname: String,
}

/// A group of students.
#[derive(Debug)]
pub struct Group {
    pub id: i32,
    pub name: String,
    pub referent: Option<i64>,
    pub parent: Option<i32>,
    pub private: bool,
}

/// One student row imported from the remote directory.
#[derive(Debug)]
pub struct CelcatStudent {
    pub id: i64,
    pub firstname: String,
    pub lastname: String,
    pub department: Option<String>,
}

} // verus!
