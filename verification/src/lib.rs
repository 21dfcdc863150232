//! Driver core for a 104x212 bichrome e-paper panel spoken to over a serial
//! bus and four discrete control lines.
//!
//! The hardware is reached through the [`driver::Interface`] capability
//! trait, whose specification view is the ordered trace of line transitions,
//! bus writes, busy samples and delays. Every driver operation states in its
//! contract exactly which events it appends to that trace.

pub mod driver;
pub mod mock;
pub mod protocol;

pub use driver::InkyError;
pub use driver::InkyPhat;
pub use driver::Interface;
pub use mock::MockInterface;
pub use protocol::BusOp;
pub use protocol::PLANE_BYTES;
