//! The two time windows of a run.

use vstd::prelude::*;

verus! {

/// Why a pair of durations is no valid pair of time windows.
#[derive(Clone, Copy, Debug, PartialEq, Eq, Structural)]
pub enum WindowError {
    /// The startup buffer is zero.
    ZeroBuffer,
    /// The load duration is zero.
    ZeroLoad,
    /// The startup buffer is longer than the load duration.
    BufferExceedsLoad,
}

/// Whether a buffer and a load duration, in seconds, form valid time windows:
/// both are positive and the buffer is no longer than the load.
pub open spec fn windows_valid(buffer_secs: nat, total_load_secs: nat) -> bool {
    0 < buffer_secs <= total_load_secs
}

/// What is wrong with a pair of durations, if anything. A zero buffer is
/// named before a zero load, and both before a buffer that is too long.
pub open spec fn window_fault(buffer_secs: nat, total_load_secs: nat) -> Option<WindowError> {
    if buffer_secs == 0 {
        Some(WindowError::ZeroBuffer)
    } else if total_load_secs == 0 {
        Some(WindowError::ZeroLoad)
    } else if buffer_secs > total_load_secs {
        Some(WindowError::BufferExceedsLoad)
    } else {
        None
    }
}

/// The startup buffer, waited out before the capture's completion is awaited,
/// and the duration for which load is generated. Both are fixed when the
/// value is made, and a value exists only for a valid pair.
#[derive(Clone, Copy, Debug, PartialEq, Eq)]
pub struct TimeWindows {
    buffer_secs: u64,
    total_load_secs: u64,
}

impl TimeWindows {
    #[verifier::type_invariant]
    spec fn holds_valid_pair(self) -> bool {
        windows_valid(self.buffer_secs as nat, self.total_load_secs as nat)
    }

    /// The startup buffer in seconds.
    pub closed spec fn buffer(self) -> nat {
        self.buffer_secs as nat
    }

    /// The load duration in seconds.
    pub closed spec fn total_load(self) -> nat {
        self.total_load_secs as nat
    }

    /// Makes the time windows of a run, or says what is wrong with the pair.
    pub fn new(buffer_secs: u64, total_load_secs: u64) -> (made: Result<TimeWindows, WindowError>)
        ensures
            match made {
                Ok(windows) => window_fault(buffer_secs as nat, total_load_secs as nat) is None
                    && windows.buffer() == buffer_secs && windows.total_load() == total_load_secs,
                Err(fault) => window_fault(buffer_secs as nat, total_load_secs as nat) == Some(
                    fault,
                ),
            },
    {
        if buffer_secs == 0 {
            Err(WindowError::ZeroBuffer)
        } else if total_load_secs == 0 {
            Err(WindowError::ZeroLoad)
        } else if buffer_secs > total_load_secs {
            Err(WindowError::BufferExceedsLoad)
        } else {
            Ok(TimeWindows { buffer_secs, total_load_secs })
        }
    }

    /// The windows of the standard run: a buffer of one minute and four
    /// minutes of load.
    pub fn standard() -> (windows: TimeWindows)
        ensures
            windows.buffer() == 60,
            windows.total_load() == 240,
    {
        TimeWindows { buffer_secs: 60, total_load_secs: 240 }
    }

    /// The startup buffer in seconds.
    pub fn buffer_secs(&self) -> (secs: u64)
        ensures
            secs == self.buffer(),
            0 < secs <= self.total_load(),
    {
        proof {
            use_type_invariant(self);
        }
        self.buffer_secs
    }

    /// The load duration in seconds.
    pub fn total_load_secs(&self) -> (secs: u64)
        ensures
            secs == self.total_load(),
            self.buffer() <= secs,
            0 < secs,
    {
        proof {
            use_type_invariant(self);
        }
        self.total_load_secs
    }
}

/// A pair of durations is faultless exactly when it is valid.
pub proof fn lemma_fault_iff_invalid(buffer_secs: nat, total_load_secs: nat)
    ensures
        window_fault(buffer_secs, total_load_secs) is None <==> windows_valid(
            buffer_secs,
            total_load_secs,
        ),
{
}

} // verus!
