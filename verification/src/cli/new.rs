//! The `new` subcommand: creates a new Lenra app project from a template.

use vstd::prelude::*;
use vstd::string::*;

use crate::errors::Error;
use crate::git::{is_git_repo_url, Repository};
use crate::patterns::{git_repo_shape, regex_matches, GIT_REPO_PATTERN};
use crate::text::owned;

verus! {

/// Create a new Lenra app project from a template.
#[derive(Debug)]
pub struct New {
    /// The project template topics from which your project will be created, or
    /// the project template's full URL.
    pub topics: Vec<String>,
    /// The new project path.
    pub path: String,
}

impl Default for New {
    /// No topic, in the current directory.
    fn default() -> (r: Self)
        ensures
            r.topics@.len() == 0,
            r.path@ == "."@,
    {
        New { topics: Vec::new(), path: owned(".") }
    }
}

impl New {
    /// The template given directly: the single topic, where it is a git
    /// repository URL. Otherwise the templates are searched by the topics.
    pub fn template_url(&self) -> (r: Option<String>)
        ensures
            (self.topics@.len() == 1 && regex_matches(GIT_REPO_PATTERN@, self.topics@[0]@)) ==> (r matches Some(
                url,
            ) && url@ == self.topics@[0]@),
            !(self.topics@.len() == 1 && regex_matches(GIT_REPO_PATTERN@, self.topics@[0]@))
                ==> r is None,
            r matches Some(url) ==> git_repo_shape(url@),
    {
        if self.topics.len() == 1 && is_git_repo_url(self.topics[0].as_str()) {
            Some(self.topics[0].clone())
        } else {
            None
        }
    }
}

/// The template among the repositories that the search found: none is an
/// error, a single one is used; among several, the user chooses (`None`).
pub fn found_template(repos: &Vec<Repository>) -> (r: Result<Option<String>, Error>)
    ensures
        repos@.len() == 0 ==> (r matches Err(e) && e is NoTemplateFound),
        repos@.len() == 1 ==> (r matches Ok(Some(url)) && url@ == repos@[0].url@),
        repos@.len() > 1 ==> r matches Ok(None),
{
    if repos.len() == 0 {
        Err(Error::NoTemplateFound)
    } else if repos.len() == 1 {
        Ok(Some(repos[0].url.clone()))
    } else {
        Ok(None)
    }
}

} // verus!
