//! A streaming reader for NTFS Master File Table (MFT) images.
//!
//! The crate walks the fixed-size record slots of an MFT table
//! sequentially, skips slots that were never allocated, and renders each
//! valid record in one of three output shapes: a structured object, a
//! JSON string, or a CSV row.  Decoding of the raw slot bytes is done by
//! the `mft` crate behind a small trusted boundary; everything around it
//! (cursor movement, slot skipping, header-state tracking, rendering)
//! is verified.

pub mod csvfmt;
pub mod decode;
pub mod digits;
pub mod facade;
pub mod errors;
pub mod iter;
pub mod json;
pub mod laws;
pub mod record;
pub mod table;

pub use digits::u64_to_dec;
pub use errors::{DecodeError, FacadeError, InitializationError, PullError, SerializationError};
pub use facade::PyMftParser;
pub use iter::{Output, Pulled, PyMftEntriesIterator, Rendered, SlotOutcome};
pub use json::render_json;
pub use record::{MftRecord, ObjectRecord, EMPTY_SLOT_SIGNATURE};
