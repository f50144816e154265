//! Observability core: a structured-event logging layer and a metrics
//! registry aggregator.
//!
//! The logging side turns a structured log event (level, target, name,
//! fields) into a canonical JSON document and decides, per event, whether
//! and how it is delivered to a remote collector. The metrics side merges
//! metric families from a default registry and any number of additional
//! registries, keyed by an opaque identifier, into one snapshot.

pub mod event;
pub mod forward;
pub mod json;
pub mod level;
pub mod registry;

pub use event::{FieldValue, LogEvent, LogPayload};
pub use forward::{ForwardAction, LayerState, LogServerLayer};
pub use level::{DeliveryMode, FailureAction, Level};
pub use registry::{MetricCounter, Metrics, RegistryService};
