//! The tasks that the subcommands run on the app's environment, each shown by
//! a loader with its own texts.

use vstd::prelude::*;
use vstd::string::*;

use crate::cli::build_command::Build;
use crate::cli::dev::Dev;
use crate::cli::reload::Reload;
use crate::cli::start::Start;
use crate::cli::stop::Stop;
use crate::cli::update::Update;

verus! {

/// A task on the app's environment.
#[derive(Clone, Copy, Debug, PartialEq, Eq, Structural)]
pub enum Task {
    /// Generate the environment's files, with debug access unless for production.
    GenerateAppEnv { production: bool },
    /// Build the app's image.
    BuildApp,
    /// Start the containers.
    StartEnv,
    /// Clear the app's cache.
    ClearCache,
    /// Stop the containers.
    StopEnv,
    /// Pull the images of the command's services.
    UpdateImages,
    /// Create a project from the template.
    CreateProject,
}

/// What a loader shows of a task: while it runs, once it succeeded, and where
/// it failed.
pub open spec fn loader_texts(task: Task) -> (Seq<char>, Seq<char>, Seq<char>) {
    match task {
        Task::GenerateAppEnv { .. } => (
            "Generate app env..."@,
            "App env generated"@,
            "Failed generating app env"@,
        ),
        Task::BuildApp => ("Build app..."@, "App built"@, "Failed building app"@),
        Task::StartEnv => (
            "Start app environment..."@,
            "App environment started"@,
            "Failed starting app"@,
        ),
        Task::ClearCache => ("Clearing cache..."@, "Cache cleared"@, "Failed clearing cache"@),
        Task::StopEnv => (
            "Stop app environment..."@,
            "App environment stopped"@,
            "Failed stopping app environment"@,
        ),
        Task::UpdateImages => (
            "Update environment images..."@,
            "Environment images updated"@,
            "Failed updating environment images"@,
        ),
        Task::CreateProject => (
            "Creating new project..."@,
            "Project created"@,
            "Failed creating new project"@,
        ),
    }
}

impl Task {
    /// What the loader shows of the task: while it runs, once it succeeded,
    /// and where it failed.
    pub fn loader_texts(&self) -> (r: (&'static str, &'static str, &'static str))
        ensures
            (r.0@, r.1@, r.2@) == loader_texts(*self),
    {
        match self {
            Task::GenerateAppEnv { .. } => (
                "Generate app env...",
                "App env generated",
                "Failed generating app env",
            ),
            Task::BuildApp => ("Build app...", "App built", "Failed building app"),
            Task::StartEnv => (
                "Start app environment...",
                "App environment started",
                "Failed starting app",
            ),
            Task::ClearCache => ("Clearing cache...", "Cache cleared", "Failed clearing cache"),
            Task::StopEnv => (
                "Stop app environment...",
                "App environment stopped",
                "Failed stopping app environment",
            ),
            Task::UpdateImages => (
                "Update environment images...",
                "Environment images updated",
                "Failed updating environment images",
            ),
            Task::CreateProject => (
                "Creating new project...",
                "Project created",
                "Failed creating new project",
            ),
        }
    }
}

/// The tasks that rebuild and restart the app, with debug access.
pub open spec fn reload_tasks() -> Seq<Task> {
    seq![
        Task::GenerateAppEnv { production: false },
        Task::BuildApp,
        Task::StartEnv,
        Task::ClearCache,
    ]
}

/// The tasks that rebuild and restart the app, with debug access.
fn reload_task_list() -> (r: Vec<Task>)
    ensures
        r@ == reload_tasks(),
{
    vec![Task::GenerateAppEnv { production: false }, Task::BuildApp, Task::StartEnv, Task::ClearCache]
}

impl Build {
    /// The tasks of the build: generate the environment, then build the app.
    pub fn tasks(&self) -> (r: Vec<Task>)
        ensures
            r@ == seq![Task::GenerateAppEnv { production: self.production }, Task::BuildApp],
    {
        vec![Task::GenerateAppEnv { production: self.production }, Task::BuildApp]
    }
}

impl Start {
    /// The tasks of the start: start the containers, then clear the cache.
    pub fn tasks(&self) -> (r: Vec<Task>)
        ensures
            r@ == seq![Task::StartEnv, Task::ClearCache],
    {
        vec![Task::StartEnv, Task::ClearCache]
    }
}

impl Stop {
    /// The task of the stop: stop the containers.
    pub fn tasks(&self) -> (r: Vec<Task>)
        ensures
            r@ == seq![Task::StopEnv],
    {
        vec![Task::StopEnv]
    }
}

impl Update {
    /// The task of the update: pull the images of the services.
    pub fn tasks(&self) -> (r: Vec<Task>)
        ensures
            r@ == seq![Task::UpdateImages],
    {
        vec![Task::UpdateImages]
    }
}

impl Reload {
    /// The tasks of the reload: rebuild and restart the app.
    pub fn tasks(&self) -> (r: Vec<Task>)
        ensures
            r@ == reload_tasks(),
    {
        reload_task_list()
    }
}

impl Dev {
    /// The tasks before the dev mode: rebuild and restart the app, unless it
    /// attaches to the running one.
    pub fn tasks(&self) -> (r: Vec<Task>)
        ensures
            self.attach ==> r@.len() == 0,
            !self.attach ==> r@ == reload_tasks(),
    {
        if self.attach {
            Vec::new()
        } else {
            reload_task_list()
        }
    }
}

} // verus!
