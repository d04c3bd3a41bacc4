//! Git: the arguments of the git commands the command line runs, and the
//! repositories it finds templates in.

use vstd::prelude::*;
use vstd::string::*;

use crate::config::{opt_string_view, strings_view};
use crate::patterns::{git_repo_shape, regex_is_match, regex_matches, GIT_REPO_PATTERN};
use crate::text::owned;

verus! {

/// A git repository of a code platform.
#[derive(Debug)]
pub struct Repository {
    pub name: String,
    pub description: String,
    pub url: String,
    pub stars: u32,
}

impl Repository {
    /// A copy of the repository.
    pub fn clone_repository(&self) -> (r: Repository)
        ensures
            r.name@ == self.name@,
            r.description@ == self.description@,
            r.url@ == self.url@,
            r.stars == self.stars,
    {
        Repository {
            name: self.name.clone(),
            description: self.description.clone(),
            url: self.url.clone(),
            stars: self.stars,
        }
    }
}

/// A repository as a code platform describes it.
pub trait PlatformRepository {
    /// The repository.
    fn to_repository(&self) -> Repository;
}

/// Whether the text is a git repository URL.
pub fn is_git_repo_url(text: &str) -> (r: bool)
    ensures
        r == regex_matches(GIT_REPO_PATTERN@, text@),
        r ==> git_repo_shape(text@),
{
    regex_is_match(GIT_REPO_PATTERN, text)
}

/// The arguments that select a git directory, where one is given.
pub open spec fn git_dir_args(git_dir: Option<Seq<char>>) -> Seq<Seq<char>> {
    match git_dir {
        Some(dir) => seq!["--git-dir"@, dir],
        None => Seq::empty(),
    }
}

/// The arguments that select a git directory, where one is given.
fn git_dir_arg_list(git_dir: &Option<String>) -> (r: Vec<String>)
    ensures
        strings_view(r@) == git_dir_args(opt_string_view(*git_dir)),
{
    match git_dir {
        Some(dir) => {
            let r = vec![owned("--git-dir"), dir.clone()];
            proof {
                assert(strings_view(r@) =~= git_dir_args(opt_string_view(*git_dir)));
            }
            r
        },
        None => {
            let r: Vec<String> = Vec::new();
            proof {
                assert(strings_view(r@) =~= Seq::<Seq<char>>::empty());
            }
            r
        },
    }
}

/// Appends an argument.
fn push_arg(args: &mut Vec<String>, arg: &str)
    ensures
        strings_view(final(args)@) == strings_view(old(args)@).push(arg@),
{
    args.push(owned(arg));
    proof {
        assert(strings_view(final(args)@) =~= strings_view(old(args)@).push(arg@));
    }
}

/// The arguments of git that give the current branch of a repository.
pub fn current_branch_args(git_dir: &Option<String>) -> (r: Vec<String>)
    ensures
        strings_view(r@) == git_dir_args(opt_string_view(*git_dir)) + seq![
            "rev-parse"@,
            "--abbrev-ref"@,
            "HEAD"@,
        ],
{
    let mut args = git_dir_arg_list(git_dir);
    let ghost start = strings_view(args@);
    push_arg(&mut args, "rev-parse");
    push_arg(&mut args, "--abbrev-ref");
    push_arg(&mut args, "HEAD");
    proof {
        assert(strings_view(args@) =~= start + seq!["rev-parse"@, "--abbrev-ref"@, "HEAD"@]);
    }
    args
}

/// The arguments of git that give the current commit of a repository.
pub fn current_commit_args(git_dir: &Option<String>) -> (r: Vec<String>)
    ensures
        strings_view(r@) == git_dir_args(opt_string_view(*git_dir)) + seq!["rev-parse"@, "HEAD"@],
{
    let mut args = git_dir_arg_list(git_dir);
    let ghost start = strings_view(args@);
    push_arg(&mut args, "rev-parse");
    push_arg(&mut args, "HEAD");
    proof {
        assert(strings_view(args@) =~= start + seq!["rev-parse"@, "HEAD"@]);
    }
    args
}

/// The arguments of git that pull a repository.
pub fn pull_args(git_dir: &Option<String>) -> (r: Vec<String>)
    ensures
        strings_view(r@) == git_dir_args(opt_string_view(*git_dir)) + seq!["pull"@],
{
    let mut args = git_dir_arg_list(git_dir);
    let ghost start = strings_view(args@);
    push_arg(&mut args, "pull");
    proof {
        assert(strings_view(args@) =~= start + seq!["pull"@]);
    }
    args
}

/// The arguments of git that clone a template into a directory.
pub fn clone_args(template: &str, target_dir: &str) -> (r: Vec<String>)
    ensures
        strings_view(r@) == seq!["clone"@, template@, target_dir@],
{
    let r = vec![owned("clone"), owned(template), owned(target_dir)];
    proof {
        assert(strings_view(r@) =~= seq!["clone"@, template@, target_dir@]);
    }
    r
}

/// The arguments of git that give the URL a repository was cloned from.
pub fn remote_url_args(git_dir: &str) -> (r: Vec<String>)
    ensures
        strings_view(r@) == seq![
            "--git-dir"@,
            git_dir@,
            "config"@,
            "--get"@,
            "remote.origin.url"@,
        ],
{
    let r = vec![
        owned("--git-dir"),
        owned(git_dir),
        owned("config"),
        owned("--get"),
        owned("remote.origin.url"),
    ];
    proof {
        assert(strings_view(r@) =~= seq![
            "--git-dir"@,
            git_dir@,
            "config"@,
            "--get"@,
            "remote.origin.url"@,
        ]);
    }
    r
}

/// The arguments of git that give the changes between two commits.
pub fn diff_args(git_dir: &str, from: &str, to: &str) -> (r: Vec<String>)
    ensures
        strings_view(r@) == seq!["--git-dir"@, git_dir@, "diff"@, from@, to@],
{
    let r = vec![owned("--git-dir"), owned(git_dir), owned("diff"), owned(from), owned(to)];
    proof {
        assert(strings_view(r@) =~= seq!["--git-dir"@, git_dir@, "diff"@, from@, to@]);
    }
    r
}

/// The arguments of git that apply a patch file.
pub fn apply_args(patch_file: &str) -> (r: Vec<String>)
    ensures
        strings_view(r@) == seq!["apply"@, patch_file@],
{
    let r = vec![owned("apply"), owned(patch_file)];
    proof {
        assert(strings_view(r@) =~= seq!["apply"@, patch_file@]);
    }
    r
}

/// The arguments of git that check the files of a repository out in the
/// current directory.
pub fn checkout_args(git_dir: &str) -> (r: Vec<String>)
    ensures
        strings_view(r@) == seq!["--git-dir"@, git_dir@, "checkout"@, "HEAD"@, "--"@, "."@],
{
    let r = vec![
        owned("--git-dir"),
        owned(git_dir),
        owned("checkout"),
        owned("HEAD"),
        owned("--"),
        owned("."),
    ];
    proof {
        assert(strings_view(r@) =~= seq!["--git-dir"@, git_dir@, "checkout"@, "HEAD"@, "--"@, "."@]);
    }
    r
}

} // verus!
