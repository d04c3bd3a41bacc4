//! The `start` subcommand.

use vstd::prelude::*;

verus! {

/// Start your app previously built with the build command.
#[derive(Debug, Default)]
pub struct Start;

} // verus!
