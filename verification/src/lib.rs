//! Tool-call dispatch between a model server and a human wizard.
//!
//! Tool calls are held as pending until the wizard answers them; an answer is
//! classified into a response mode, handed to the dispatcher that waits for it,
//! and kept until it is polled.

pub mod text;
pub mod table;
pub mod tool;
pub mod call_id;
pub mod state;
pub mod session;
pub mod laws;
