//! NetworkManager's connectivity states and their numeric codes.

use vstd::prelude::*;

verus! {

/// A value that NetworkManager reports as a number.
pub trait Code {
    /// The number that stands for this value on D-Bus.
    fn code(&self) -> u32;
}

/// NetworkManager's `NMConnectivityState`.
#[derive(Debug, Clone, Copy, PartialEq, Eq, Structural)]
pub enum ConnectivityState {
    /// Connectivity is not known.
    Unkown,
    /// The host is not connected to any network.
    Disconnected,
    /// The host is behind a captive portal.
    Portal,
    /// The host is connected, but cannot reach the whole internet.
    Limited,
    /// The host can reach the internet.
    Full,
}

/// The D-Bus code of each connectivity state.
pub open spec fn connectivity_code(s: ConnectivityState) -> u32 {
    match s {
        ConnectivityState::Unkown => 0,
        ConnectivityState::Disconnected => 1,
        ConnectivityState::Portal => 2,
        ConnectivityState::Limited => 3,
        ConnectivityState::Full => 4,
    }
}

impl Code for ConnectivityState {
    fn code(&self) -> (c: u32)
        ensures
            c == connectivity_code(*self),
    {
        match self {
            ConnectivityState::Unkown => 0,
            ConnectivityState::Disconnected => 1,
            ConnectivityState::Portal => 2,
            ConnectivityState::Limited => 3,
            ConnectivityState::Full => 4,
        }
    }
}

/// Distinct states have distinct codes.
pub proof fn lemma_codes_distinct(a: ConnectivityState, b: ConnectivityState)
    ensures
        connectivity_code(a) == connectivity_code(b) <==> a == b,
{
}

} // verus!
