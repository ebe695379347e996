//! Controller logic for a single-document text editor: derived text metrics,
//! the document identity, the save decision and the debounced auto-save
//! session state machine.

pub mod document;
pub mod identity;
pub mod metrics;
pub mod session;

pub use document::{save_request, Document};
pub use metrics::{char_count, word_count, Metrics};
pub use session::Session;
