//! The state machine of a terminal dashboard for network interfaces: the row
//! filter and sort engine, the edit sessions, the confirmation dialog, the
//! mini-shell and the key dispatcher, with the command plans and the text
//! scanners they rest on.

pub mod app;
pub mod edit;
pub mod event;
pub mod models;
pub mod network;
pub mod rows;
pub mod screen;
pub mod sudo;
pub mod text;
