//! Instants on the UTC time line.

use vstd::prelude::*;
use crate::calendar::representable;
use crate::calendar::utc_now_seconds;
use crate::calendar::MAX_UNIX_SECONDS;
use crate::calendar::MIN_UNIX_SECONDS;

verus! {

/// An instant in whole seconds since the Unix epoch, within the span of years
/// that the calendar can hold.
#[derive(Clone, Copy, Debug)]
pub struct Timestamp {
    secs: i64,
}

impl View for Timestamp {
    type V = int;

    /// Seconds since the Unix epoch.
    closed spec fn view(&self) -> int {
        self.secs as int
    }
}

impl Timestamp {
    /// The calendar can hold the instant. This is the type's invariant.
    #[verifier::type_invariant]
    pub open spec fn wf(&self) -> bool {
        representable(self@)
    }

    /// The instant `secs` seconds after the Unix epoch, or `None` where the
    /// calendar cannot hold it.
    pub fn from_unix_seconds(secs: i64) -> (instant: Option<Timestamp>)
        ensures
            representable(secs as int) ==> instant.is_some() && instant.unwrap()@ == secs,
            !representable(secs as int) ==> instant.is_none(),
    {
        if MIN_UNIX_SECONDS <= secs && secs <= MAX_UNIX_SECONDS {
            Some(Timestamp { secs })
        } else {
            None
        }
    }

    /// Seconds since the Unix epoch.
    pub fn unix_seconds(&self) -> (secs: i64)
        ensures
            secs == self@,
            representable(secs as int),
    {
        proof {
            use_type_invariant(self);
        }
        self.secs
    }

    /// The system clock's reading.
    pub fn now() -> (instant: Timestamp)
        ensures
            0 <= instant@ <= MAX_UNIX_SECONDS,
    {
        Timestamp { secs: utc_now_seconds() }
    }
}

} // verus!
