//! A normalized model of kernel routes and policy rules, with the verified
//! translation between that model and the attribute messages of the kernel's
//! routing protocol, and the decisions made around each request: which
//! listed route a deletion removes, which one is the default route, how a
//! batch of rule requests goes on after a failure, and which broadcasts
//! become route-change events.
use vstd::prelude::*;

pub mod addr;
pub mod batch;
pub mod events;
pub mod route;
pub mod rule;

pub use addr::IpAddress;
pub use events::RouteChange;
pub use route::Route;
pub use rule::Rule;

verus! {

} // verus!
