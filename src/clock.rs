//! The session's wall clock, read in whole milliseconds since it started.

use vstd::prelude::*;

verus! {

#[verifier::external_type_specification]
#[verifier::external_body]
pub struct ExInstant(web_time::Instant);

/// Relies on `web_time::Instant::now`: reads the monotonic clock.
#[verifier::external_body]
fn instant_now() -> web_time::Instant {
    web_time::Instant::now()
}

/// Relies on `web_time::Instant::elapsed`: the time since `start`, in whole
/// milliseconds, saturating at `u64::MAX`. Nothing is promised of its value.
#[verifier::external_body]
fn millis_since(start: &web_time::Instant) -> u64 {
    u64::try_from(start.elapsed().as_millis()).unwrap_or(u64::MAX)
}

/// A clock started at the beginning of a session.
pub struct SessionClock {
    start: web_time::Instant,
}

impl SessionClock {
    pub fn start() -> SessionClock {
        SessionClock { start: instant_now() }
    }

    /// Milliseconds since the session started.
    pub fn now_millis(&self) -> u64 {
        millis_since(&self.start)
    }
}

} // verus!
