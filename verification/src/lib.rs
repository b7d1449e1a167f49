//! Encoding of metrics, events and service checks into the line-oriented
//! text format understood by StatsD-compatible agents.
//!
//! Every encoder states, as a sequence of characters, the exact line it
//! produces; nothing here sends, batches or escapes anything.

pub mod codes;
pub mod decimal;
pub mod event;
pub mod metric;
pub mod sample;
pub mod service_check;
pub mod tags;
pub mod time;
pub mod wire;

pub use crate::codes::AlertType;
pub use crate::codes::MetricType;
pub use crate::codes::Priority;
pub use crate::codes::Status;
pub use crate::event::Event;
pub use crate::metric::Metric;
pub use crate::sample::Sample;
pub use crate::service_check::ServiceCheck;
pub use crate::tags::format_tags;
pub use crate::time::ClockError;
pub use crate::time::Timestamp;
pub use crate::wire::IntoStatsd;
