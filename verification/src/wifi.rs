//! Network-link bring-up decisions: when the poll loop waiting for the
//! link is done, and when the periodic health check must reconnect. The
//! link itself is the platform's business; only the decisions live here.

use vstd::prelude::*;

verus! {

/// The link could not be brought up before the timeout.
#[derive(Clone, Copy, Debug, PartialEq, Eq, Structural)]
pub struct WifiConnectFailedError;

/// What one probe of the link during bring-up decides.
#[derive(Clone, Copy, Debug, PartialEq, Eq, Structural)]
pub enum WifiPollDecision {
    /// Association established and interface up: bring-up is done.
    Up,
    /// Not up yet, but the deadline has not passed: poll again.
    KeepWaiting,
    /// Not up and the deadline has passed: bring-up failed.
    TimedOut,
}

/// Decides one iteration of the bring-up wait. A link that is connected
/// and up wins over a timeout observed in the same probe.
pub fn wifi_connect_poll(
    is_connected: bool,
    is_up: bool,
    elapsed_ms: u64,
    timeout_ms: u64,
) -> (d: WifiPollDecision)
    ensures
        d == WifiPollDecision::Up <==> (is_connected && is_up),
        d == WifiPollDecision::TimedOut <==> (!(is_connected && is_up) && elapsed_ms
            > timeout_ms),
        d == WifiPollDecision::KeepWaiting <==> (!(is_connected && is_up) && elapsed_ms
            <= timeout_ms),
{
    if is_connected && is_up {
        WifiPollDecision::Up
    } else if elapsed_ms > timeout_ms {
        WifiPollDecision::TimedOut
    } else {
        WifiPollDecision::KeepWaiting
    }
}

/// The result bring-up ends with once the poll loop stops: a link that
/// came up succeeds, a timeout is the connect failure.
pub fn wifi_connect_outcome(d: WifiPollDecision) -> (r: Result<(), WifiConnectFailedError>)
    requires
        d != WifiPollDecision::KeepWaiting,
    ensures
        r is Ok <==> d == WifiPollDecision::Up,
{
    if d == WifiPollDecision::Up {
        Ok(())
    } else {
        Err(WifiConnectFailedError)
    }
}

/// The periodic health check reconnects exactly when the link reports
/// down.
pub fn wifi_check_needs_reconnect(is_up: bool) -> (b: bool)
    ensures
        b == !is_up,
{
    !is_up
}

} // verus!
