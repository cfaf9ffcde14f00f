//! The start of the terminal program: from the command line, over configuration,
//! login and trust, to the session that is opened.
//!
//! Everything that is decided on the way is decided here. What is done on the way
//! (reading files, asking the user, drawing) is named by [`startup::Startup::work`]
//! and [`session::Session::work`] and done by whoever drives the two.

pub mod cwd;
pub mod overrides;
pub mod paths;
pub mod rollout;
pub mod screens;
pub mod selection;
pub mod session;
pub mod session_id;
pub mod session_laws;
pub mod session_steps;
pub mod settings;
pub mod startup;
pub mod startup_laws;
pub mod startup_steps;
pub mod text;
pub mod types;

pub use startup::run_main;
pub use types::LoginStatus;
