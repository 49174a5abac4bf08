//! Two parts of an editor's prompt.
//!
//! [`history`] keeps the lines that were entered at a prompt: a bounded
//! [`InputHistory`] without duplicates, and the [`InputHistoryRef`] with which
//! one prompt types a line or steps through the earlier ones, as the arrow
//! keys do in a shell. [`store`] holds the queue beneath it. [`buffer`] is
//! the list of open buffers that a query narrows down.
//!
//! [`model`] says what these do in terms of sequences, and [`laws`] proves
//! what follows for every history and every cursor.

pub mod buffer;
pub mod history;
pub mod laws;
pub mod model;
pub mod store;
pub mod text;

pub use history::{InputHistory, InputHistoryRef};
pub use store::LineHistory;
