//! Wall-clock times for a fixed set of cities, and the rule that decides when
//! they are computed again.
//!
//! A [`ClockModel`] holds the cities in order, exactly one of them the home
//! city. Each city derives its time either from a fixed number of hours ahead
//! of the home city's clock or from the civil time of a named zone. A pass
//! over the cities computes every time from one instant. A
//! [`RefreshScheduler`] decides on each tick of the host's loop whether a
//! pass is due, and a [`WorldClock`] holds the two together.
//!
//! Instants and monotonic readings are arguments: the host reads the clocks,
//! and a test names the instant it wants.

pub mod calendar;
pub mod city;
pub mod civil;
pub mod clock_model;
pub mod instant;
pub mod laws;
pub mod scheduler;
pub mod world_clock;

pub use crate::civil::display_text;
pub use crate::city::TimeSource;
pub use crate::city::WorldTime;
pub use crate::city::HOME_UTC_OFFSET_HOURS;
pub use crate::civil::wall_to_second_of_day;
pub use crate::clock_model::find_reference;
pub use crate::clock_model::ClockModel;
pub use crate::clock_model::ConfigError;
pub use crate::clock_model::DisplayEntry;
pub use crate::clock_model::LocationSpec;
pub use crate::instant::Timestamp;
pub use crate::calendar::MAX_UNIX_SECONDS;
pub use crate::calendar::MIN_UNIX_SECONDS;
pub use crate::scheduler::RefreshPolicy;
pub use crate::scheduler::RefreshScheduler;
pub use crate::scheduler::NANOS_PER_SECOND;
pub use crate::scheduler::REFRESH_INTERVAL_NANOS;
pub use crate::world_clock::WorldClock;
