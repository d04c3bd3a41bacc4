//! The command line: its arguments, its subcommands, and the context they run in.

use vstd::prelude::*;
use vstd::string::*;

use crate::config::{opt_string_view, Application};
use crate::docker_compose::Service;
use crate::errors::Error;
use crate::paths::{path_pop, path_push, popped_path, pushed_path};
use crate::text::owned;

use self::build_command::Build;
use self::check::Check;
use self::dev::Dev;
use self::logs::Logs;
use self::new::New;
use self::reload::Reload;
use self::start::Start;
use self::stop::Stop;
use self::update::Update;
use self::upgrade::Upgrade;

pub mod build_command;
pub mod check;
pub mod dev;
pub mod init;
pub mod interactive;
pub mod logs;
pub mod new;
pub mod reload;
pub mod start;
pub mod stop;
pub mod tasks;
pub mod terminal;
pub mod update;
pub mod upgrade;

verus! {

/// The Lenra command line interface: a subcommand (the terminal where there is
/// none) and the options shared by all of them.
#[derive(Debug)]
pub struct Cli {
    pub command: Option<Command>,
    /// The app configuration file.
    pub config: String,
    /// Exposes services ports.
    pub expose: Vec<Service>,
    /// Run the commands as verbose.
    pub verbose: bool,
}

/// The subcommands.
#[derive(Debug)]
pub enum Command {
    /// Create a new Lenra app project from a template
    New(New),
    /// Build your app in release mode
    Build(Build),
    /// Start your app previously built with the build command
    Start(Start),
    /// View output from the containers
    Logs(Logs),
    /// Stop your app previously started with the start command
    Stop(Stop),
    /// Start the app in an interactive mode
    Dev(Dev),
    /// Upgrade the app with the last template updates
    Upgrade(Upgrade),
    /// Update the tools Docker images
    Update(Update),
    /// Checks the running app
    Check(Check),
    /// Reload the app by rebuilding and restarting it
    Reload(Reload),
}

/// A command of the command line.
pub trait CliCommand {
    /// Whether the command needs the app's configuration to be loaded first.
    fn need_config(&self) -> bool;
}

impl CliCommand for Command {
    /// Every subcommand but the creation of a new project needs the configuration.
    fn need_config(&self) -> (r: bool)
        ensures
            r == !(*self is New),
    {
        match self {
            Command::New(_) => false,
            _ => true,
        }
    }
}

/// The context in which the commands run.
#[derive(Debug)]
pub struct CommandContext {
    /// The app configuration file.
    pub config_path: String,
    /// The app configuration, once loaded.
    pub config: Option<Application>,
    /// The exposed services.
    pub expose: Vec<Service>,
    /// Run command as verbose.
    pub verbose: bool,
}

impl Default for CommandContext {
    fn default() -> (r: Self)
        ensures
            r.config_path@ == Seq::<char>::empty(),
            r.config is None,
            r.expose@ == Seq::<Service>::empty(),
            !r.verbose,
    {
        CommandContext { config_path: String::new(), config: None, expose: Vec::new(), verbose: false }
    }
}

/// The app's directory as the configuration sets it, where the configuration
/// is loaded: its `path`, or the configuration file's own directory.
pub open spec fn app_path_config(config: Option<Application>) -> Option<Seq<char>> {
    match config {
        Some(app) => Some(opt_string_view(app.path).unwrap_or("."@)),
        None => None,
    }
}

/// The app's working directory: the configuration file's directory, with the
/// app's path pushed onto it where the configuration is loaded.
pub open spec fn app_workdir(config_path: Seq<char>, config: Option<Application>) -> Seq<char> {
    match app_path_config(config) {
        Some(p) => pushed_path(popped_path(config_path), p),
        None => popped_path(config_path),
    }
}

impl CommandContext {
    /// Keeps the configuration that was loaded from the configuration file; an
    /// error in loading it is returned, and the context is left unchanged.
    pub fn load_config(&mut self, loaded: Result<Application, Error>) -> (r: Result<(), Error>)
        ensures
            match loaded {
                Ok(app) => r is Ok && final(self).config == Some(app),
                Err(e) => r == Err::<(), Error>(e) && final(self).config == old(self).config,
            },
            final(self).config_path == old(self).config_path,
            final(self).expose == old(self).expose,
            final(self).verbose == old(self).verbose,
    {
        match loaded {
            Ok(app) => {
                self.config = Some(app);
                Ok(())
            },
            Err(e) => Err(e),
        }
    }

    /// The context in which the given services are exposed, the rest kept.
    pub fn expose_services(&mut self, services: &Vec<Service>)
        ensures
            final(self).expose@ == services@,
            final(self).config_path == old(self).config_path,
            final(self).config == old(self).config,
            final(self).verbose == old(self).verbose,
    {
        self.expose = crate::docker_compose::clone_services(services);
    }

    /// Resolves a path relative to the app's working directory.
    pub fn resolve_path(&self, path: &str) -> (r: String)
        ensures
            r@ == pushed_path(app_workdir(self.config_path@, self.config), path@),
    {
        let workdir = self.get_app_workdir();
        path_push(workdir.as_str(), path)
    }

    /// The app's working directory: the configuration file's directory, with
    /// the app's path where the configuration sets one.
    pub fn get_app_workdir(&self) -> (r: String)
        ensures
            r@ == app_workdir(self.config_path@, self.config),
    {
        let workdir = path_pop(self.config_path.as_str());
        match self.get_app_path_config() {
            Some(app_dir_path) => path_push(workdir.as_str(), app_dir_path.as_str()),
            None => workdir,
        }
    }

    /// The app's directory that the loaded configuration sets (`.` by default).
    pub fn get_app_path_config(&self) -> (r: Option<String>)
        ensures
            opt_string_view(r) == app_path_config(self.config),
    {
        match &self.config {
            Some(app) => match &app.path {
                Some(p) => Some(p.clone()),
                None => Some(owned(".")),
            },
            None => None,
        }
    }
}

} // verus!
