//! Seek requests handed to the native runtime, phrased as plain values.

use vstd::prelude::*;

use crate::units::Rate;

verus! {

/// The unit a query or seek is phrased in.  All requests this library
/// builds use `Time` (nanoseconds).
#[derive(Clone, Copy, Debug, PartialEq, Eq, Structural)]
pub enum Format {
    /// No format given.
    Undefined,
    /// The native default unit of the element, such as frames or samples.
    Units,
    /// Bytes.
    Bytes,
    /// Time in nanoseconds.
    Time,
    /// Buffer offsets.
    Buffers,
    /// Percent of the stream.
    Percent,
}

/// How a seek bound is to be read by the runtime.
#[derive(Clone, Copy, Debug, PartialEq, Eq, Structural)]
pub enum SeekType {
    /// Leave this bound as it is.
    Unchanged,
    /// An absolute position.
    Absolute,
    /// A position relative to the end of the stream.
    EndRelative,
}

/// The seek behaviours a request asks of the runtime.
#[derive(Clone, Copy, Debug, PartialEq, Eq, Structural)]
pub struct SeekFlags {
    /// Discard queued data and restart from the new position at once.
    pub flush: bool,
    /// Seek exactly, even where that is slower.
    pub accurate: bool,
    /// Allow the runtime to skip frames in trick-mode playback.
    pub skip: bool,
}

impl SeekFlags {
    /// The flags of a plain position seek: flush only.
    pub fn position() -> (r: SeekFlags)
        ensures
            r == position_seek_flags(),
    {
        SeekFlags { flush: true, accurate: false, skip: false }
    }

    /// The flags of a position seek issued from a worker thread: accurate
    /// and flushing.
    pub fn async_position() -> (r: SeekFlags)
        ensures
            r == async_position_seek_flags(),
    {
        SeekFlags { flush: true, accurate: true, skip: false }
    }

    /// The flags of a rate-changing seek: frame skipping, accurate and
    /// flushing.
    pub fn rate_change() -> (r: SeekFlags)
        ensures
            r == rate_change_seek_flags(),
    {
        SeekFlags { flush: true, accurate: true, skip: true }
    }
}

/// The flags of a plain position seek: flush only.
pub open spec fn position_seek_flags() -> SeekFlags {
    SeekFlags { flush: true, accurate: false, skip: false }
}

/// The flags of a position seek issued from a worker thread: accurate and
/// flushing.
pub open spec fn async_position_seek_flags() -> SeekFlags {
    SeekFlags { flush: true, accurate: true, skip: false }
}

/// The flags of a rate-changing seek: frame skipping, accurate and flushing.
pub open spec fn rate_change_seek_flags() -> SeekFlags {
    SeekFlags { flush: true, accurate: true, skip: true }
}

/// One full seek request: everything the runtime needs to reposition the
/// stream, with explicit rate and bounds.
#[derive(Clone, Copy, Debug, PartialEq, Eq, Structural)]
pub struct SeekRequest {
    /// The playback rate the stream keeps or adopts.
    pub rate: Rate,
    /// The unit of both bounds.
    pub format: Format,
    /// The behaviours asked of the runtime.
    pub flags: SeekFlags,
    /// How the start bound is to be read.
    pub start_type: SeekType,
    /// The start bound.
    pub start: i64,
    /// How the stop bound is to be read.
    pub stop_type: SeekType,
    /// The stop bound.
    pub stop: i64,
}

/// The request that seeks to `target_ns` while keeping direction `rate`.
///
/// A forward rate runs from the target to the open end (`target_ns .. -1`);
/// a zero or reverse rate runs from the start of the stream to the target
/// (`0 .. target_ns`), since reverse playback plays from the stop bound back
/// toward the start bound.  Both bounds are absolute nanosecond positions.
pub open spec fn bounded_seek(rate: Rate, flags: SeekFlags, target_ns: i64) -> SeekRequest {
    SeekRequest {
        rate,
        format: Format::Time,
        flags,
        start_type: SeekType::Absolute,
        start: if rate.ppm > 0 { target_ns } else { 0 },
        stop_type: SeekType::Absolute,
        stop: if rate.ppm > 0 { -1i64 } else { target_ns },
    }
}

/// Build the direction-keeping seek request for `target_ns`.
pub fn build_bounded_seek(rate: Rate, flags: SeekFlags, target_ns: i64) -> (r: SeekRequest)
    ensures
        r == bounded_seek(rate, flags, target_ns),
{
    if rate.is_forward() {
        SeekRequest {
            rate,
            format: Format::Time,
            flags,
            start_type: SeekType::Absolute,
            start: target_ns,
            stop_type: SeekType::Absolute,
            stop: -1,
        }
    } else {
        SeekRequest {
            rate,
            format: Format::Time,
            flags,
            start_type: SeekType::Absolute,
            start: 0,
            stop_type: SeekType::Absolute,
            stop: target_ns,
        }
    }
}

/// Reverse and zero rates always bound a seek as `0 .. target`; forward
/// rates always bound it as `target .. open-end`.  This asymmetry holds for
/// every direction-keeping request, whatever its flags: position seeks and
/// rate-changing seeks alike.
pub proof fn lemma_seek_bound_asymmetry(rate: Rate, flags: SeekFlags, target_ns: i64)
    ensures
        bounded_seek(rate, flags, target_ns).rate == rate,
        bounded_seek(rate, flags, target_ns).format is Time,
        bounded_seek(rate, flags, target_ns).flags == flags,
        bounded_seek(rate, flags, target_ns).start_type is Absolute,
        bounded_seek(rate, flags, target_ns).stop_type is Absolute,
        rate.ppm > 0 ==> bounded_seek(rate, flags, target_ns).start == target_ns
            && bounded_seek(rate, flags, target_ns).stop == -1,
        rate.ppm <= 0 ==> bounded_seek(rate, flags, target_ns).start == 0
            && bounded_seek(rate, flags, target_ns).stop == target_ns,
{
}

} // verus!
