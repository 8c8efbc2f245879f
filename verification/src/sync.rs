//! The event synchronization subsystem: the coordinator that deduplicates
//! concurrent course requests, the bounded request channel that throttles
//! producers, the worker policy that retries the remote fetch, and the
//! producer protocol that records group associations transactionally.

pub mod channel;
pub mod coordinator;
pub mod producer;
pub mod students;
pub mod worker;
