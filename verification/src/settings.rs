//! The service's configuration, as plain values. Reading it from files,
//! environment and command line happens outside this crate.

use vstd::prelude::*;

verus! {

/// Credentials for the remote calendar service.
#[derive(Debug)]
pub struct Celcat {
    pub username: String,
    pub password: String,
}

/// The secret the session tokens are signed with.
#[derive(Debug)]
pub struct Jwt {
    pub secret: String,
}

/// Where the relational store lives.
#[derive(Debug)]
pub struct Database {
    pub url: String,
}

/// The mail relay the registration and reset mails go through.
#[derive(Debug)]
pub struct Smtp {
    pub from: String,
    pub username: String,
    pub password: String,
    pub server: String,
}

/// Everything the service needs to run.
#[derive(Debug)]
pub struct Settings {
    pub jwt: Jwt,
    pub database: Database,
    pub smtp: Smtp,
    pub celcat: Celcat,
    pub port: u16,
}

} // verus!
