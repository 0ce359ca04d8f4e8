//! A logging adapter that filters leveled records, renders them into
//! terminator-safe byte buffers and routes each one to the host sink of its
//! severity, plus the one-time registration state of the process backend.

pub mod level;
pub mod logger;
pub mod message;
pub mod registrar;
pub mod sink;

pub use level::{Severity, DEBUG_FLOOR};
pub use logger::{ClamLogger, Delivery};
pub use message::{render, FormatError, RenderedMessage};
pub use registrar::{RegistrationState, Registrar};
pub use sink::{sink_for, Sink};
