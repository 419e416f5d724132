//! A tmux session manager library.
//!
//! The crate models a declarative session description (name, working
//! directory, ordered windows, optional multi-pane layouts) and turns it into
//! the ordered sequence of tmux control commands that materializes the
//! session.  Command construction, the entry decision table, path expansion
//! and the structural configuration classifier are verified; running the
//! resulting commands against a tmux server is left to the caller.

pub mod cli;
pub mod config;
pub mod error;
pub mod session;
pub mod text;
pub mod tmux;
