//! Registration of an application as the handler of custom URI schemes on
//! Windows, and dispatch of a URI to whatever handler is registered.
//!
//! The library decides *what* is written to the registry and *what* is handed
//! to the shell, and what the answers of the two mean; it never touches the
//! operating system itself.
//!
//! - [`install`] plans the registry writes that register an [`App`] for a
//!   list of schemes. The caller walks the resulting [`Installation`] write
//!   by write and reports how each write went; the first failure ends it.
//! - [`open`] prepares the call of the shell that opens a URI, with the
//!   URI's control characters escaped; [`open_result`] turns the status that the
//!   shell returned into success or failure.
//!
//! The modules state what each of these computes and prove it: [`registry`]
//! holds the values written and a model of the registry they go to,
//! [`installation`] the course of an installation, [`escape`] and [`wide`]
//! the form in which a URI reaches the shell.

pub mod app;
pub mod errors;
pub mod escape;
pub mod installation;
pub mod registry;
pub mod shell;
pub mod wide;

pub use crate::app::App;
pub use crate::errors::{IoFailure, StringFailure, SystemUriError};
pub use crate::installation::{install, Installation};
pub use crate::shell::{open, open_result, ShellOpen};
