//! The server's clock.

use vstd::prelude::*;

verus! {

/// Reads the system clock with `std::time::SystemTime::now`, turns the
/// reading into a `chrono::DateTime<chrono::Utc>` through chrono's
/// `From<SystemTime>` and gives its `timestamp()`: whole seconds since the
/// Unix epoch, negative for a clock that stands before it. Nothing is
/// claimed of the value, which is the machine's; two calls may differ. The
/// conversion fails only on a reading outside the years that chrono can
/// represent, some 262,000 on either side of the epoch.
#[verifier::external_body]
pub(crate) fn unix_now() -> i64 {
    chrono::DateTime::<chrono::Utc>::from(std::time::SystemTime::now()).timestamp()
}

} // verus!
