//! A transparent instrumentation layer for duplex byte streams.
//!
//! [`Io`] pairs a stream with an observer. Every completed read, write,
//! vectored write, flush and shutdown of the stream is shown to the observer,
//! cut down to the bytes that were really transferred, and handed on to the
//! caller exactly as the stream reported it.

pub mod trusted;
pub mod slicing;
pub mod inspect;
pub mod relay;
pub mod io;
pub mod count_inspect;
pub mod print_inspect;
pub mod metrics;

pub use count_inspect::CountInspect;
pub use inspect::{InspectRead, InspectWrite};
pub use io::Io;
pub use metrics::{Meter, Metered};
pub use print_inspect::PrintInspect;

pub use slicing::attribute;
