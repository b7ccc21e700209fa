//! Verified core of a vendor-onboarding file-ingestion subsystem.
//!
//! The library parses the header row of an uploaded delimited file, keeps a
//! mapping from a fixed set of canonical fields to source columns, assembles
//! the submission payload, encodes it into a single wire message, and holds
//! the state machines that govern file selection and operator notification.
//! The surrounding application performs the actual file and channel I/O and
//! feeds the outcomes back into these verified components.

pub mod errors;
pub mod fields;
pub mod header;
pub mod mapping;
pub mod notify;
pub mod payload;
pub mod reader;
pub mod session;
pub mod wire;
