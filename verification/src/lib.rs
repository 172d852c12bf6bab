//! A time-decayed request budget (a leaky bucket), the cost model of a
//! paginated query, the admission controller that guards a server with one
//! such budget, and the client-side state machine that pulls pages while
//! respecting it.

pub mod admission;
pub mod bucket_laws;
pub mod clock;
pub mod database;
pub mod decimal;
pub mod fetch_stream;
pub mod headers;
pub mod leaky_bucket;
pub mod time_span;

pub use leaky_bucket::LeakyBucket;

use vstd::prelude::*;

verus! {

/// The HTTP header which represents leaky bucket points.
pub const BUCKET_POINTS_HEADER: &'static str = "x-bucket-points";

/// The HTTP header which represents leaky bucket capacity.
pub const BUCKET_CAPACITY_HEADER: &'static str = "x-bucket-capacity";

/// The HTTP header which represents leaky bucket leak-per-second.
pub const BUCKET_LEAK_PER_SECOND_HEADER: &'static str = "x-bucket-leak-per-second";

} // verus!
