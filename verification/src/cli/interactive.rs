//! The interactive mode: the dev terminal started on the app's logs.
//!
//! Its commands, context and state machine are those of the dev terminal
//! ([`crate::cli::dev::terminal`]), started with `terminal` off.

use vstd::prelude::*;

use crate::cli::dev::terminal;

verus! {

/// The context in which the interactive commands run.
pub type InteractiveContext = terminal::DevTermContext;

/// The Lenra interactive command line interface.
pub type Interactive = terminal::DevCli;

/// The interactive commands.
pub type InteractiveCommand = terminal::DevTermCommand;

/// Exposes the app ports.
pub type Expose = terminal::Expose;

} // verus!
