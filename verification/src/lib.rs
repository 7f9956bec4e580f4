//! Bridging rules between native code and a reference-counted, table-driven
//! foreign object model: handle ownership, sparse operation tables, callback
//! adapters and the typed facade over scripting values and contexts.
//!
//! Every call on the foreign side goes through [`abi::Foreign`], which keeps
//! the record of the calls made; each contract states what it adds to that
//! record, so that it fixes the calls made, their order and their number.

pub mod abi;
pub mod error;
pub mod handles;
pub mod ref_counted;
pub mod render_process_handler;
pub mod reply;
pub mod v8_context;
pub mod v8_handler;
pub mod v8_value;
