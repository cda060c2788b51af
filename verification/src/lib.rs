//! Switching a terminal between its main screen and the alternate screen
//! buffer, with the line discipline restored on the way back.
//!
//! The crate performs no input or output. It decides which operation the
//! host has to carry out next and what its outcome means; the host carries
//! the operation out on the terminal and reports back.

pub mod alternate;
pub mod command;
pub mod error;
pub mod guarantees;
pub mod selector;
pub mod terminal;
