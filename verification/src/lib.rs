//! An in-memory manager of named bills, with the decisions of its interactive
//! menu as a state machine.

pub mod store;
pub mod input;
pub mod menu;
pub mod session;
pub mod laws;
