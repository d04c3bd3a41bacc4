//! The `stop` subcommand.

use vstd::prelude::*;

verus! {

/// Stop your app previously started with the start command.
#[derive(Debug, Default)]
pub struct Stop;

} // verus!
