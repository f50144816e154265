//! Severity levels, the minimum-severity filter, and the severity-based
//! delivery policy.
//!
//! Levels are totally ordered by severity (`TRACE < DEBUG < INFO < WARN <
//! ERROR`). The delivery policy is a single lookup from severity to a
//! delivery mode: `ERROR` events are sent blocking, everything else is
//! detached. The failure policy is the matching lookup from delivery mode
//! to what a delivery failure means: a failed detached send is fatal to
//! the process, a failed blocking send is only reported locally.

use vstd::prelude::*;

verus! {

/// Severity of one log event, ordered `Trace < Debug < Info < Warn < Error`.
#[derive(Clone, Copy, Debug, PartialEq, Eq, Structural)]
pub enum Level {
    Trace,
    Debug,
    Info,
    Warn,
    Error,
}

/// How one payload is handed to the delivery client.
#[derive(Clone, Copy, Debug, PartialEq, Eq, Structural)]
pub enum DeliveryMode {
    /// The caller waits for the send to complete before proceeding.
    Blocking,
    /// The send runs independently; the caller does not wait.
    Detached,
}

/// What a delivery failure means to the process, by delivery mode.
#[derive(Clone, Copy, Debug, PartialEq, Eq, Structural)]
pub enum FailureAction {
    /// Report locally and terminate the process: an ordinary event was
    /// silently lost, which is treated as a critical operational fault.
    Terminate,
    /// Report locally and continue: the failed send was the final error
    /// report of a crash already in progress, and must not mask it.
    ContinueLocally,
}

/// Numeric rank of a level; higher means more severe.
pub open spec fn severity(l: Level) -> int {
    match l {
        Level::Trace => 0,
        Level::Debug => 1,
        Level::Info => 2,
        Level::Warn => 3,
        Level::Error => 4,
    }
}

/// The delivery policy: `Error` is sent blocking, every other level detached.
pub open spec fn spec_delivery_mode(l: Level) -> DeliveryMode {
    if l is Error {
        DeliveryMode::Blocking
    } else {
        DeliveryMode::Detached
    }
}

/// The failure policy: a failed detached send terminates the process, a
/// failed blocking send is only reported locally.
pub open spec fn spec_failure_action(m: DeliveryMode) -> FailureAction {
    match m {
        DeliveryMode::Detached => FailureAction::Terminate,
        DeliveryMode::Blocking => FailureAction::ContinueLocally,
    }
}

impl Level {
    /// Numeric rank of this level, usable in executable code.
    pub fn rank(self) -> (r: u8)
        ensures
            r as int == severity(self),
    {
        match self {
            Level::Trace => 0,
            Level::Debug => 1,
            Level::Info => 2,
            Level::Warn => 3,
            Level::Error => 4,
        }
    }

    /// Does this level pass a minimum-severity filter set to `filter`?
    pub fn passes(self, filter: Level) -> (r: bool)
        ensures
            r == (severity(self) >= severity(filter)),
    {
        self.rank() >= filter.rank()
    }
}

/// Severity-to-delivery-mode lookup; see [`spec_delivery_mode`].
pub fn delivery_mode_for(l: Level) -> (m: DeliveryMode)
    ensures
        m == spec_delivery_mode(l),
        m is Blocking <==> l is Error,
{
    match l {
        Level::Error => DeliveryMode::Blocking,
        _ => DeliveryMode::Detached,
    }
}

/// Delivery-mode-to-failure-action lookup; see [`spec_failure_action`].
pub fn failure_action_for(m: DeliveryMode) -> (a: FailureAction)
    ensures
        a == spec_failure_action(m),
        a is Terminate <==> m is Detached,
{
    match m {
        DeliveryMode::Detached => FailureAction::Terminate,
        DeliveryMode::Blocking => FailureAction::ContinueLocally,
    }
}

} // verus!
