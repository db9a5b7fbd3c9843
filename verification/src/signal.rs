//! Boolean signals exchanged between an actor's handlers, its control loop
//! and its mailbox.

use vstd::prelude::*;
use vstd::std_specs::convert::{FromSpec, FromSpecImpl};

verus! {

/// Tells a receive call whether it may suspend the caller until a message
/// arrives (`true`) or has to poll once and come back (`false`).
#[derive(Clone, Copy, Debug, PartialEq, Eq)]
pub struct ShouldBlock(bool);

impl ShouldBlock {
    /// The wrapped flag.
    pub closed spec fn view(&self) -> bool {
        self.0
    }

    /// Reads the flag back, for the transport layer that acts on it.
    pub fn is_blocking(&self) -> (blocking: bool)
        ensures
            blocking == self@,
    {
        self.0
    }
}

impl From<bool> for ShouldBlock {
    fn from(value: bool) -> (signal: Self) {
        Self(value)
    }
}

impl FromSpecImpl<bool> for ShouldBlock {
    open spec fn obeys_from_spec() -> bool {
        true
    }

    closed spec fn from_spec(value: bool) -> Self {
        ShouldBlock(value)
    }
}

/// The continuation signal every handler returns: `true` ends the actor's
/// control loop, `false` lets it go on.
#[derive(Clone, Copy, Debug, PartialEq, Eq)]
pub struct ShouldTerminate(bool);

impl ShouldTerminate {
    /// The wrapped flag.
    pub closed spec fn view(&self) -> bool {
        self.0
    }
}

impl From<bool> for ShouldTerminate {
    fn from(value: bool) -> (signal: Self) {
        Self(value)
    }
}

impl FromSpecImpl<bool> for ShouldTerminate {
    open spec fn obeys_from_spec() -> bool {
        true
    }

    closed spec fn from_spec(value: bool) -> Self {
        ShouldTerminate(value)
    }
}

impl From<ShouldTerminate> for bool {
    fn from(signal: ShouldTerminate) -> (value: bool) {
        signal.0
    }
}

impl FromSpecImpl<ShouldTerminate> for bool {
    open spec fn obeys_from_spec() -> bool {
        true
    }

    closed spec fn from_spec(signal: ShouldTerminate) -> bool {
        signal.0
    }
}

/// Wrapping a flag and reading it back gives the flag.
pub proof fn lemma_signal_round_trip(value: bool)
    ensures
        <ShouldBlock as FromSpec<bool>>::from_spec(value)@ == value,
        <ShouldTerminate as FromSpec<bool>>::from_spec(value)@ == value,
        forall|signal: ShouldTerminate|
            #[trigger] <bool as FromSpec<ShouldTerminate>>::from_spec(signal) == signal@,
{
}

} // verus!
