//! The `reload` subcommand.

use vstd::prelude::*;

verus! {

/// Reload the app by rebuilding and restarting it.
#[derive(Debug, Default)]
pub struct Reload;

} // verus!
