//! A web console for an mkube cluster and the stormd process managers on its nodes:
//! the HTML pages it serves, and the requests it makes of the two REST APIs.
pub mod text;
pub mod ui;
pub mod client;
pub mod state;
