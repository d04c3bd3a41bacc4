//! The `dev` subcommand: the app's logs shown, with shortcuts to run commands.

use vstd::prelude::*;
use vstd::string::*;

use crate::cli::logs::Logs;
use crate::cli::terminal::TerminalCommand;
use crate::config::opt_string_view;
use crate::docker_compose::Service;

pub mod interactive;
pub mod terminal;

verus! {

/// Start the app in an interactive mode.
#[derive(Debug, Default)]
pub struct Dev {
    /// Attach the dev mode without rebuilding the app and restarting it.
    pub attach: bool,
}

/// The logs are those asked for, shown since the given time where there is one.
pub open spec fn logs_since(l: Logs, asked: Logs, since: Option<Seq<char>>) -> bool {
    &&& l.follow == asked.follow
    &&& l.no_color == asked.no_color
    &&& l.no_log_prefix == asked.no_log_prefix
    &&& l.timestamps == asked.timestamps
    &&& l.tail@ == asked.tail@
    &&& opt_string_view(l.until) == opt_string_view(asked.until)
    &&& l.services@ == asked.services@
    &&& opt_string_view(l.since) == match since {
        Some(s) => Some(s),
        None => opt_string_view(asked.since),
    }
}

/// The logs that the dev mode follows: the app's.
pub open spec fn followed_app_logs(l: Logs) -> bool {
    &&& l.follow
    &&& !l.no_color && !l.no_log_prefix && !l.timestamps
    &&& l.since is None && l.until is None
    &&& l.tail@ == "all"@
    &&& l.services@ == seq![Service::App]
}

/// The logs that the dev mode follows: the app's.
pub fn followed_logs() -> (r: Logs)
    ensures
        followed_app_logs(r),
{
    let mut l = Logs::default();
    l.follow = true;
    l
}

/// The logs asked for, shown since the given time where there is one.
pub fn with_since(logs: &Logs, since: &Option<String>) -> (r: Logs)
    ensures
        logs_since(r, *logs, opt_string_view(*since)),
{
    let mut l = logs.clone_logs();
    if let Some(s) = since {
        l.since = Some(s.clone());
    }
    l
}

/// What the dev mode does next.
#[derive(Debug)]
pub enum DevAction {
    /// Run the command (the dev mode ends after it where it does not keep the
    /// terminal running).
    Run(TerminalCommand),
    /// Show these logs, until a shortcut is pressed.
    ShowLogs(Logs),
}

/// The state of the dev mode: the logs it follows, when they were last shown,
/// and the command of the last shortcut pressed.
#[derive(Debug)]
pub struct DevMode {
    pub previous_log: Logs,
    pub last_logs: Option<String>,
    pub pending: Option<TerminalCommand>,
}

/// What the dev mode does next, from the state `before` to the state
/// `after`: it runs the command of the last shortcut pressed, else shows the
/// logs since they were last shown.
pub open spec fn dev_mode_step(before: DevMode, after: DevMode, r: DevAction) -> bool {
    &&& match before.pending {
        Some(cmd) => r == DevAction::Run(cmd),
        None => r matches DevAction::ShowLogs(l) && logs_since(
            l,
            before.previous_log,
            opt_string_view(before.last_logs),
        ),
    }
    &&& after.pending is None
    &&& after.previous_log == before.previous_log
    &&& after.last_logs == before.last_logs
}

/// The logs stopped at that time, on a shortcut's command if any.
pub open spec fn logs_end_step(
    before: DevMode,
    end: String,
    command: Option<TerminalCommand>,
    after: DevMode,
) -> bool {
    &&& after.last_logs == Some(end)
    &&& after.pending == command
    &&& after.previous_log == before.previous_log
}

/// Once a shortcut's command has run, the dev mode shows the logs again from
/// when they stopped: nothing is shown twice.
pub proof fn lemma_logs_resume_after_command(
    s0: DevMode,
    end: String,
    command: TerminalCommand,
    s1: DevMode,
    s2: DevMode,
    s3: DevMode,
    r2: DevAction,
    r3: DevAction,
)
    requires
        logs_end_step(s0, end, Some(command), s1),
        dev_mode_step(s1, s2, r2),
        dev_mode_step(s2, s3, r3),
    ensures
        r2 == DevAction::Run(command),
        r3 matches DevAction::ShowLogs(l) && logs_since(l, s0.previous_log, Some(end@)),
{
}

impl DevMode {
    /// The dev mode at its start: the app's logs to follow, from the start.
    pub fn new() -> (r: DevMode)
        ensures
            followed_app_logs(r.previous_log),
            r.last_logs is None,
            r.pending is None,
    {
        DevMode { previous_log: followed_logs(), last_logs: None, pending: None }
    }

    /// What the dev mode does next: runs the command of the last shortcut
    /// pressed, else shows the logs since they were last shown.
    pub fn next(&mut self) -> (r: DevAction)
        ensures
            dev_mode_step(*old(self), *final(self), r),
    {
        match self.pending.take() {
            Some(cmd) => DevAction::Run(cmd),
            None => DevAction::ShowLogs(with_since(&self.previous_log, &self.last_logs)),
        }
    }

    /// The logs stopped at that time, on a shortcut's command if any.
    pub fn logs_ended(&mut self, end: String, command: Option<TerminalCommand>)
        ensures
            logs_end_step(*old(self), end, command, *final(self)),
    {
        self.last_logs = Some(end);
        self.pending = command;
    }
}

} // verus!
