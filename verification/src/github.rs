//! GitHub: the search of template repositories.

use vstd::prelude::*;
use vstd::string::*;

use crate::git::{PlatformRepository, Repository};
use crate::patterns::{github_topic, regex_is_match, GITHUB_TOPIC_PATTERN};
use crate::text::concat3;

verus! {

/// The answer of GitHub to a repository search.
#[derive(Debug)]
pub struct GitHubSearchRepoResponse {
    pub total_count: u32,
    pub items: Vec<GitHubRepository>,
}

/// A repository as GitHub describes it.
#[derive(Debug)]
pub struct GitHubRepository {
    pub full_name: String,
    pub description: String,
    pub clone_url: String,
    pub stargazers_count: u32,
}

/// The repository that GitHub describes.
pub open spec fn github_repository(repo: GitHubRepository, r: Repository) -> bool {
    &&& r.name@ == repo.full_name@
    &&& r.description@ == repo.description@
    &&& r.url@ == repo.clone_url@
    &&& r.stars == repo.stargazers_count
}

impl PlatformRepository for GitHubRepository {
    /// The repository: its full name, description, clone URL and stars.
    fn to_repository(&self) -> (r: Repository)
        ensures
            github_repository(*self, r),
    {
        Repository {
            name: self.full_name.clone(),
            description: self.description.clone(),
            url: self.clone_url.clone(),
            stars: self.stargazers_count,
        }
    }
}

/// Whether the text is a valid GitHub topic.
pub fn is_github_topic(topic: &str) -> (r: bool)
    ensures
        r == github_topic(topic@),
{
    regex_is_match(GITHUB_TOPIC_PATTERN, topic)
}

/// The URL of the GitHub search of the repositories that match the query,
/// sorted by stargazers.
pub fn search_url(query: &str) -> (r: String)
    ensures
        r@ == "https://api.github.com/search/repositories?q="@ + query@ + "&sort=stargazers"@,
{
    concat3("https://api.github.com/search/repositories?q=", query, "&sort=stargazers")
}

/// The repositories that a search found, in its order.
pub fn repositories_of(response: &GitHubSearchRepoResponse) -> (r: Vec<Repository>)
    ensures
        r@.len() == response.items@.len(),
        forall|i: int| 0 <= i < r@.len() ==> github_repository(response.items@[i], #[trigger] r@[i]),
{
    let mut r: Vec<Repository> = Vec::new();
    let mut i: usize = 0;
    while i < response.items.len()
        invariant
            0 <= i <= response.items.len(),
            r@.len() == i,
            forall|j: int| 0 <= j < i ==> github_repository(response.items@[j], #[trigger] r@[j]),
        decreases response.items.len() - i,
    {
        r.push(response.items[i].to_repository());
        i += 1;
    }
    r
}

} // verus!
