//! The Lenra app's lifecycle: the creation of a project from a template, the
//! start of its environment, and its upgrade to the template's last version.

use vstd::prelude::*;
use vstd::string::*;

use crate::cli::CommandContext;
use crate::config::{strings_view, Application, LENRA_CACHE_DIRECTORY};
use crate::docker_compose::{Service, DEVTOOL_PORT};
use crate::errors::Error;
use crate::git::{apply_args, checkout_args, clone_args, diff_args, pull_args, git_dir_args};
use crate::paths::{path_push, pushed_path};
use crate::template::{TemplateData, TEMPLATE_DATA_FILE, TEMPLATE_GIT_DIR, TEMPLATE_TEMP_DIR};
use crate::text::{all_ascii, ascii_lower, concat3, decimal, lowercase_of, owned, to_decimal, to_lowercase, trim, trimmed};

verus! {

/// The least number of services that run in a started environment.
pub const STARTED_SERVICES_COUNT: usize = 4;

// The creation of a project.

/// The files of a project created from a template, under the project's directory.
#[derive(Debug)]
pub struct NewProjectFiles {
    /// The file that keeps the template and commit the project comes from.
    pub template_file: String,
    /// The git directory of the cloned template.
    pub git_dir: String,
    /// The cache directory of the project.
    pub cache_dir: String,
    /// Where the template's git directory is moved, in the cache.
    pub template_git_dir: String,
}

/// The files of a project created in that directory.
pub fn new_project_files(path: &str) -> (r: NewProjectFiles)
    ensures
        r.template_file@ == pushed_path(path@, TEMPLATE_DATA_FILE@),
        r.git_dir@ == pushed_path(path@, ".git"@),
        r.cache_dir@ == pushed_path(path@, LENRA_CACHE_DIRECTORY@),
        r.template_git_dir@ == pushed_path(pushed_path(path@, LENRA_CACHE_DIRECTORY@), TEMPLATE_GIT_DIR@),
{
    let cache_dir = path_push(path, LENRA_CACHE_DIRECTORY);
    let template_git_dir = path_push(cache_dir.as_str(), TEMPLATE_GIT_DIR);
    NewProjectFiles {
        template_file: path_push(path, TEMPLATE_DATA_FILE),
        git_dir: path_push(path, ".git"),
        cache_dir,
        template_git_dir,
    }
}

/// A project is created only where no file or directory exists yet.
pub fn check_project_dir(exists: bool) -> (r: Result<(), Error>)
    ensures
        r is Err <==> exists,
        r matches Err(e) ==> e is ProjectPathNotEmpty,
{
    if exists {
        Err(Error::ProjectPathNotEmpty)
    } else {
        Ok(())
    }
}

/// The template data of a project created from a template at a commit.
pub fn created_template_data(template: &str, commit: &str) -> (r: TemplateData)
    ensures
        r.template@ == template@,
        r.commit matches Some(c) && c@ == commit@,
{
    TemplateData { template: owned(template), commit: Some(owned(commit)) }
}

// The app environment.

/// The configuration that the app's environment is generated from: an error
/// where it is not loaded.
pub fn app_config(context: &CommandContext) -> (r: Result<&Application, Error>)
    ensures
        match context.config {
            Some(app) => r == Ok::<&Application, Error>(&app),
            None => r matches Err(Error::Custom(m)) && m@ == "The config is missing"@,
        },
{
    match &context.config {
        Some(app) => Ok(app),
        None => Err(Error::Custom(owned("The config is missing"))),
    }
}

/// A started environment runs all its services: fewer is an error.
pub fn check_started_services(running: &Vec<Service>) -> (r: Result<(), Error>)
    ensures
        r is Err <==> running@.len() < STARTED_SERVICES_COUNT,
        r matches Err(e) ==> e is NotStartedServices,
{
    if running.len() < STARTED_SERVICES_COUNT {
        Err(Error::NotStartedServices)
    } else {
        Ok(())
    }
}

/// A started environment needs the app to have been built: its Docker Compose
/// file must exist.
pub fn check_built(compose_file_exists: bool) -> (r: Result<(), Error>)
    ensures
        r is Err <==> !compose_file_exists,
        r matches Err(e) ==> e is NeverBuiltApp,
{
    if compose_file_exists {
        Ok(())
    } else {
        Err(Error::NeverBuiltApp)
    }
}

/// The message that tells where the app can be reached.
pub fn app_access_message() -> (r: String)
    ensures
        r@ == "\nApplication available at http://localhost:"@ + decimal(DEVTOOL_PORT as nat) + "\n"@,
{
    let port = to_decimal(DEVTOOL_PORT as usize);
    concat3("\nApplication available at http://localhost:", port.as_str(), "\n")
}

// The upgrade of an app.

/// The directory, in the cache, of the template's repository.
pub fn template_git_dir() -> (r: String)
    ensures
        r@ == pushed_path(LENRA_CACHE_DIRECTORY@, TEMPLATE_GIT_DIR@),
{
    path_push(LENRA_CACHE_DIRECTORY, TEMPLATE_GIT_DIR)
}

/// How the template's repository is brought up to date.
#[derive(Debug)]
pub enum TemplateRefresh {
    /// The repository is in the cache: run git with these arguments to pull it.
    Pull(Vec<String>),
    /// Run git with these arguments to clone the template into this directory,
    /// then move its git directory into the cache and remove the rest.
    Clone(Vec<String>, String),
}

/// How the template's repository is brought up to date: pulled where it is in
/// the cache, cloned otherwise.
pub fn template_refresh(git_dir_exists: bool, template: &str) -> (r: TemplateRefresh)
    ensures
        git_dir_exists ==> (r matches TemplateRefresh::Pull(args) && strings_view(args@)
            == git_dir_args(Some(pushed_path(LENRA_CACHE_DIRECTORY@, TEMPLATE_GIT_DIR@)))
            + seq!["pull"@]),
        !git_dir_exists ==> (r matches TemplateRefresh::Clone(args, dir) && dir@ == pushed_path(
            LENRA_CACHE_DIRECTORY@,
            TEMPLATE_TEMP_DIR@,
        ) && strings_view(args@) == seq!["clone"@, template@, dir@]),
{
    if git_dir_exists {
        TemplateRefresh::Pull(pull_args(&Some(template_git_dir())))
    } else {
        let dir = path_push(LENRA_CACHE_DIRECTORY, TEMPLATE_TEMP_DIR);
        TemplateRefresh::Clone(clone_args(template, dir.as_str()), dir)
    }
}

/// The name of the patch file between two commits of the template.
pub open spec fn patch_file_name(from: Seq<char>, to: Seq<char>) -> Seq<char> {
    "patch."@ + from + "-"@ + to + ".diff"@
}

/// What an upgrade does, given the template's current commit.
#[derive(Debug)]
pub enum UpgradeStep {
    /// The app is already at the template's current commit.
    UpToDate,
    /// Write what git gives with the first arguments into the patch file, then
    /// apply it with git and the second arguments, then remove it.
    Patch { patch_file: String, diff: Vec<String>, apply: Vec<String> },
    /// The app's commit is unknown: with the user's agreement, check the
    /// template's files out with git and these arguments.
    Checkout(Vec<String>),
}

/// What an upgrade does: nothing where the app is at the template's current
/// commit; where its commit is known, apply the changes since then as a
/// patch; otherwise check the template out.
pub fn upgrade_step(data: &TemplateData, current_commit: &str) -> (r: UpgradeStep)
    ensures
        match data.commit {
            Some(c) => if c@ == current_commit@ {
                r is UpToDate
            } else {
                r matches UpgradeStep::Patch { patch_file, diff, apply } && patch_file@
                    == pushed_path(LENRA_CACHE_DIRECTORY@, patch_file_name(c@, current_commit@))
                    && strings_view(diff@) == seq![
                    "--git-dir"@,
                    pushed_path(LENRA_CACHE_DIRECTORY@, TEMPLATE_GIT_DIR@),
                    "diff"@,
                    c@,
                    current_commit@,
                ] && strings_view(apply@) == seq!["apply"@, patch_file@]
            },
            None => r matches UpgradeStep::Checkout(args) && strings_view(args@) == seq![
                "--git-dir"@,
                pushed_path(LENRA_CACHE_DIRECTORY@, TEMPLATE_GIT_DIR@),
                "checkout"@,
                "HEAD"@,
                "--"@,
                "."@,
            ],
        },
{
    let git_dir = template_git_dir();
    match &data.commit {
        Some(commit) => {
            if crate::text::str_eq(commit.as_str(), current_commit) {
                UpgradeStep::UpToDate
            } else {
                let mut name = concat3("patch.", commit.as_str(), "-");
                name.append(current_commit);
                name.append(".diff");
                let patch_file = path_push(LENRA_CACHE_DIRECTORY, name.as_str());
                let diff = diff_args(git_dir.as_str(), commit.as_str(), current_commit);
                let apply = apply_args(patch_file.as_str());
                UpgradeStep::Patch { patch_file, diff, apply }
            }
        },
        None => UpgradeStep::Checkout(checkout_args(git_dir.as_str())),
    }
}

/// The template data once the app is upgraded: the same template, at its
/// current commit.
pub fn upgraded_template_data(data: &TemplateData, current_commit: &str) -> (r: TemplateData)
    ensures
        r.template@ == data.template@,
        r.commit matches Some(c) && c@ == current_commit@,
{
    TemplateData { template: data.template.clone(), commit: Some(owned(current_commit)) }
}

/// What an answer to the checkout question means, once trimmed and in lower
/// case: yes for `y` and `yes`; no for nothing, `n` and `no`; otherwise the
/// question is asked again.
pub open spec fn checkout_decision(answer: Seq<char>) -> Option<bool> {
    if answer == "y"@ || answer == "yes"@ {
        Some(true)
    } else if answer.len() == 0 || answer == "n"@ || answer == "no"@ {
        Some(false)
    } else {
        None
    }
}

/// What an answer to the checkout question means, given it trimmed and in
/// lower case.
pub fn checkout_decision_of(answer: &str) -> (r: Option<bool>)
    ensures
        r == checkout_decision(answer@),
{
    proof {
        reveal_strlit("y");
        reveal_strlit("yes");
        reveal_strlit("n");
        reveal_strlit("no");
    }
    if crate::text::str_eq(answer, "y") || crate::text::str_eq(answer, "yes") {
        Some(true)
    } else if answer.unicode_len() == 0 || crate::text::str_eq(answer, "n")
        || crate::text::str_eq(answer, "no") {
        Some(false)
    } else {
        None
    }
}

/// What an answer to the checkout question means: the answer is trimmed and
/// put in lower case first.
pub fn checkout_answer(line: &str) -> (r: Option<bool>)
    ensures
        r == checkout_decision(lowercase_of(trimmed(line@))),
        all_ascii(trimmed(line@)) ==> r == checkout_decision(
            trimmed(line@).map_values(|c: char| ascii_lower(c)),
        ),
{
    let t = trim(line);
    let lower = to_lowercase(t);
    checkout_decision_of(lower.as_str())
}

} // verus!
