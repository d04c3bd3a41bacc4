//! The `check` subcommand.

use vstd::prelude::*;
use vstd::string::*;

use crate::config::{clone_strings, strings_view};
use crate::dofigen::{clone_opt_strings, opt_strings_view};

pub mod rules;
pub mod template;

verus! {

/// Checks the running app.
#[derive(Debug, Default)]
pub struct Check {
    /// The strict mode also fails with warning rules.
    pub strict: bool,
    /// A list of rules to ignore.
    pub ignore: Option<Vec<String>>,
    /// The rules.
    pub rules: Vec<String>,
}

impl Check {
    /// A copy of the check command.
    pub fn clone_check(&self) -> (r: Check)
        ensures
            r.strict == self.strict,
            opt_strings_view(r.ignore) == opt_strings_view(self.ignore),
            strings_view(r.rules@) == strings_view(self.rules@),
    {
        Check {
            strict: self.strict,
            ignore: clone_opt_strings(&self.ignore),
            rules: clone_strings(&self.rules),
        }
    }
}

} // verus!
