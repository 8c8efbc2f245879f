//! In-process synchronization coordinator for a timetable import service,
//! together with the data model and decision logic of the service around it.
//!
//! The heart of the crate is the event synchronization coordinator: many
//! concurrent group-import tasks ask "make sure this course's detail record
//! is persisted", and the coordinator guarantees that each distinct course
//! is fetched and persisted at most once per run, while every caller that
//! asked for it observes the completion of that single fetch.

pub mod authentication;
pub mod celcat;
pub mod datetime;
pub mod db;
pub mod models;
pub mod rpc;
pub mod schedule;
pub mod settings;
pub mod sync;
pub mod text;
pub mod wait;
