//! The `upgrade` subcommand.

use vstd::prelude::*;

verus! {

/// Upgrade the app with the last template updates.
#[derive(Debug, Default)]
pub struct Upgrade;

} // verus!
