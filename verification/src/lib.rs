pub mod assemble;
pub mod dtos;
pub mod escape;
pub mod metrics;
pub mod numfmt;
pub mod rank;
pub mod record;
pub mod templates;
pub mod time_window;
pub mod timefmt;

use vstd::prelude::*;

verus! {

/// Number of seconds in one hour.
pub open spec fn spec_seconds_per_hour() -> int {
    3600
}

/// Number of seconds in the seven-day half-width of the query window.
pub open spec fn spec_week_seconds() -> int {
    604800
}

} // verus!
