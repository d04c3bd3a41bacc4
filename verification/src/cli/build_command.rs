//! The `build` subcommand.

use vstd::prelude::*;

verus! {

/// Build your app in release mode.
#[derive(Debug, Default)]
pub struct Build {
    /// Remove debug access to the app.
    pub production: bool,
}

} // verus!
