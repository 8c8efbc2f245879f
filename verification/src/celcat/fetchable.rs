//! Shapes of the things that can be fetched from the remote calendar
//! service: calendar data, side bar events, and resource lists.

pub mod calendar;
pub mod event;
pub mod resources;

use vstd::prelude::*;

verus! {

/// Something that can be fetched from the remote calendar service: it names
/// the request it is fetched with and the endpoint that serves it.
///
/// The HTTP exchange itself lives outside this crate; the trait only ties a
/// reply shape to its request shape.
pub trait Fetchable {
    type Request;

    /// The name of the endpoint that serves this value.
    fn method_name() -> (r: &'static str);
}

} // verus!
