//! Points in time, as far as an encoder needs them.

use vstd::prelude::*;

verus! {

/// An absolute point in time, placed by its distance from the Unix epoch in
/// whole seconds; what lies beyond the last whole second is not kept.
#[derive(Debug, Clone, Copy, PartialEq, Eq, Structural)]
pub enum Timestamp {
    /// The epoch itself or a later instant, this many whole seconds after it.
    SinceEpoch(u64),
    /// An instant before the epoch, this many whole seconds before it.
    BeforeEpoch(u64),
}

/// A timestamp lies before the Unix epoch and has no wire form.
#[derive(Debug, Clone, Copy, PartialEq, Eq, Structural)]
pub struct ClockError;

impl Timestamp {
    /// Whether the instant lies before the epoch.
    pub open spec fn precedes_epoch(&self) -> bool {
        self is BeforeEpoch
    }

    /// Milliseconds from the epoch to the instant: a thousand for each whole
    /// second. Meaningful for an instant that does not precede the epoch.
    pub open spec fn epoch_millis(&self) -> nat
        recommends
            !self.precedes_epoch(),
    {
        match self {
            Timestamp::SinceEpoch(secs) => (*secs * 1000) as nat,
            Timestamp::BeforeEpoch(_) => 0,
        }
    }

    /// Milliseconds from the epoch to the instant, or the error for an
    /// instant before the epoch.
    pub fn millis(&self) -> (r: Result<u128, ClockError>)
        ensures
            r is Err <==> self.precedes_epoch(),
            r matches Ok(ms) ==> ms == self.epoch_millis(),
    {
        match self {
            Timestamp::SinceEpoch(secs) => {
                let wide: u128 = *secs as u128;
                Ok(wide * 1000)
            },
            Timestamp::BeforeEpoch(_) => Err(ClockError),
        }
    }
}

} // verus!
