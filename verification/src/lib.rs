//! Decision logic of a redeem button panel: the configured buttons, the
//! request each of them sends, the reading of the answer, and the state of
//! the panel between clicks. Reading files, drawing and the network stay with
//! the program that uses this library.

pub mod config;
pub mod decimal;
pub mod protocol;
pub mod api_caller;
pub mod layout;
pub mod shell;
