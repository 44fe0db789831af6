//! Client-side core of a handle for a native multimedia pipeline element.
//!
//! The native runtime owns scheduling, state propagation and data flow; the
//! handle around it only caches a playback rate and a last-known position,
//! decides how each seek must be phrased, and interprets the runtime's
//! answers.  Those decisions are what this library holds, as verified
//! functions over plain values: every query result or seek outcome enters as
//! an argument, and every request to the runtime leaves as a value.

pub mod element;
pub mod seek;
pub mod state;
pub mod units;

pub use element::ElementCore;
pub use element::SpeedPlan;
pub use element::ASYNC_SEEK_SETTLE_NS;
pub use seek::Format;
pub use seek::SeekFlags;
pub use seek::SeekRequest;
pub use seek::SeekType;
pub use state::State;
pub use state::StateChangeReturn;
pub use units::Fraction;
pub use units::Rate;
pub use units::RATE_UNIT_PPM;
