//! The log forwarding layer: the single subscription point between the
//! host process's event stream and the remote collector.
//!
//! The layer is configured once, before installation, and never changes
//! state afterwards: it is remote-enabled exactly when the startup
//! health probe reached the collector, and local-only otherwise. Each
//! event is handled independently: in the local-only state nothing is
//! forwarded; in the remote-enabled state an event at or above the
//! minimum-severity filter is encoded and handed out together with its
//! delivery mode (blocking for `ERROR`, detached otherwise), and an
//! event below the filter is dropped before any encoding.
//!
//! The layer itself performs no I/O. The caller that installs it runs
//! the sends it asks for and applies the failure policy of
//! [`crate::level::spec_failure_action`] to their outcomes.

use vstd::prelude::*;
use crate::event::{find_message, retained_fields, LogEvent, LogPayload};
use crate::level::{severity, spec_delivery_mode, DeliveryMode, Level};

verus! {

/// The state chosen once at startup, never changed afterwards.
#[derive(Clone, Copy, Debug, PartialEq, Eq, Structural)]
pub enum LayerState {
    /// The collector was reachable: qualifying events are forwarded.
    RemoteEnabled,
    /// The collector was unreachable: nothing is forwarded; events are
    /// left to the local sink.
    LocalOnly,
}

/// What the layer asks its caller to do with one event.
pub enum ForwardAction {
    /// Send this payload in this mode.
    Deliver { payload: LogPayload, mode: DeliveryMode },
    /// Do nothing: the event was filtered out or the layer is local-only.
    Skip,
}

/// The forwarding layer: filter, endpoint and state, fixed at startup.
pub struct LogServerLayer {
    state: LayerState,
    filter: Level,
    endpoint: String,
}

/// The default collector endpoint, used when none is configured.
pub fn default_endpoint() -> (r: String)
    ensures
        r@ == "http://logserver:8080"@,
{
    "http://logserver:8080".to_owned()
}

/// The collector endpoint: the configured value when one is set, the
/// fixed default otherwise.
pub fn resolve_endpoint(configured: Option<String>) -> (r: String)
    ensures
        match configured {
            Some(s) => r@ == s@,
            None => r@ == "http://logserver:8080"@,
        },
{
    match configured {
        Some(s) => s,
        None => default_endpoint(),
    }
}

impl LogServerLayer {
    /// The layer's state.
    pub closed spec fn spec_state(&self) -> LayerState {
        self.state
    }

    /// The layer's minimum-severity filter.
    pub closed spec fn spec_filter(&self) -> Level {
        self.filter
    }

    /// The layer's collector endpoint.
    pub closed spec fn spec_endpoint(&self) -> Seq<char> {
        self.endpoint@
    }

    /// Builds the layer, choosing its state from the health probe's
    /// result: remote-enabled exactly when the collector was reachable.
    /// The choice happens here, once; nothing can change it later.
    pub fn new(endpoint: String, filter: Level, collector_reachable: bool) -> (layer: Self)
        ensures
            layer.spec_state() is RemoteEnabled <==> collector_reachable,
            layer.spec_filter() == filter,
            layer.spec_endpoint() == endpoint@,
    {
        LogServerLayer {
            state: if collector_reachable {
                LayerState::RemoteEnabled
            } else {
                LayerState::LocalOnly
            },
            filter,
            endpoint,
        }
    }

    /// The layer's state, readable by the caller that installs it.
    pub fn state(&self) -> (s: LayerState)
        ensures
            s == self.spec_state(),
    {
        self.state
    }

    /// The collector endpoint the layer was built with.
    pub fn endpoint(&self) -> (s: &str)
        ensures
            s@ == self.spec_endpoint(),
    {
        self.endpoint.as_str()
    }

    /// Decides one event, with the timestamp supplied by the caller.
    ///
    /// An event below the filter, or any event in the local-only state,
    /// is skipped: no payload is built, so no network call can follow
    /// from it. A qualifying event is encoded (with the `message` field
    /// hoisted) and paired with the delivery mode the severity policy
    /// assigns to its level.
    pub fn plan_event(&self, timestamp: String, event: LogEvent) -> (a: ForwardAction)
        ensures
            self.spec_state() is LocalOnly ==> a is Skip,
            severity(event.level) < severity(self.spec_filter()) ==> a is Skip,
            a is Skip <==> (self.spec_state() is LocalOnly || severity(event.level) < severity(
                self.spec_filter(),
            )),
            a matches ForwardAction::Deliver { payload, mode } ==> {
                &&& payload.timestamp == timestamp
                &&& payload.level == event.level
                &&& payload.target == event.target
                &&& payload.name == event.name
                &&& payload.fields@ == retained_fields(event.fields@)
                &&& payload.message == find_message(event.fields@)
                &&& mode == spec_delivery_mode(event.level)
            },
    {
        match self.state {
            LayerState::LocalOnly => ForwardAction::Skip,
            LayerState::RemoteEnabled => {
                if !event.level.passes(self.filter) {
                    ForwardAction::Skip
                } else {
                    let mode = crate::level::delivery_mode_for(event.level);
                    let payload = crate::event::encode_event(timestamp, event);
                    ForwardAction::Deliver { payload, mode }
                }
            },
        }
    }

    /// Decides one event, stamping it with the current time.
    ///
    /// The timestamp is whatever the clock returned; everything else is
    /// as [`Self::plan_event`] promises.
    pub fn on_event(&self, event: LogEvent) -> (a: ForwardAction)
        ensures
            self.spec_state() is LocalOnly ==> a is Skip,
            severity(event.level) < severity(self.spec_filter()) ==> a is Skip,
            a is Skip <==> (self.spec_state() is LocalOnly || severity(event.level) < severity(
                self.spec_filter(),
            )),
            a matches ForwardAction::Deliver { payload, mode } ==> {
                &&& payload.level == event.level
                &&& payload.target == event.target
                &&& payload.name == event.name
                &&& payload.fields@ == retained_fields(event.fields@)
                &&& payload.message == find_message(event.fields@)
                &&& mode == spec_delivery_mode(event.level)
            },
    {
        let timestamp = now_rfc3339();
        self.plan_event(timestamp, event)
    }

    /// The health-check document the startup probe sends, stamped with
    /// the current time.
    pub fn probe_document_now(&self) -> (r: Vec<char>)
        ensures
            exists|ts: Seq<char>| r@ == crate::json::probe_json(ts),
    {
        let timestamp = now_rfc3339();
        let r = crate::json::probe_document(timestamp.as_str());
        proof {
            assert(r@ == crate::json::probe_json(timestamp@));
        }
        r
    }
}

/// Relies on `chrono::Utc::now` and `DateTime::to_rfc3339`: the current
/// UTC time, rendered as an RFC 3339 string. The result depends on the
/// clock, so nothing is promised of it.
#[verifier::external_body]
pub(crate) fn now_rfc3339() -> String {
    chrono::Utc::now().to_rfc3339()
}

} // verus!
