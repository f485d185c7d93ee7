//! Signpost instrumentation: begin/end interval markers and point events for a
//! platform tracing facility.
//!
//! The library decides *what* is emitted: which signpost, with which id, name and
//! message, and whether anything is emitted at all. Each decision is handed back as
//! an [`Emission`] value; performing it against the native facility is the caller's
//! part.
//!
//! ## Intervals vs events
//! - Intervals represent periods of time with a beginning and an end.
//! - Events mark single points in time.
//!
//! ## Signpost ids
//! Intervals with the same log handle and interval name can be in flight at the same
//! time. To match begin signposts with end signposts, each interval is identified by
//! a unique [`SignpostId`].
//!
//! ## Matching scope
//! Begin/end matching is restricted to one thread, one process (the default), or may
//! span the whole system.

mod adapter;
mod args;
pub mod categories;
mod config;
mod emission;
mod error;
mod id;
mod interval;
mod text;


pub use adapter::{close_span, ActiveInterval, MessageVisitor, TracingSubscriber};
pub use args::{parse_instrument_args, ArgToken, ArgsError};
pub use categories::Category;
pub use config::{global_logger, GlobalConfig, Signpost};

pub use emission::{Emission, OsLog, SignpostScope, SignpostType};
pub use error::SignpostError;
pub use id::{SignpostId, SIGNPOST_ID_INVALID, SIGNPOST_ID_NULL};
pub use interval::SignpostInterval;
pub use text::{has_interior_nul, is_message_field, native_text, qualified_name};
