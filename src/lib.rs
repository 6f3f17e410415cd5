//! A small terminal application: a command dispatcher and a full-screen
//! session whose lifecycle, input handling and frame layout are proved here.
pub mod keys;
pub mod session;
pub mod layout;
pub mod content;
pub mod cli;
