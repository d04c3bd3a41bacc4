//! The `init` subcommand.

use vstd::prelude::*;
use vstd::string::*;

use crate::config::DEFAULT_CONFIG_FILE;
use crate::text::owned;

verus! {

/// Generates the Docker files of the app.
#[derive(Debug)]
pub struct Init {
    /// The app configuration file.
    pub config: String,
}

impl Default for Init {
    /// The configuration file by default.
    fn default() -> (r: Self)
        ensures
            r.config@ == DEFAULT_CONFIG_FILE@,
    {
        Init { config: owned(DEFAULT_CONFIG_FILE) }
    }
}

} // verus!
