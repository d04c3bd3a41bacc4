//! The dev terminal: the app's logs followed, and a prompt that runs the dev
//! commands in between.
//!
//! The terminal is a state machine: [`DevTerminal::next`] says what to do
//! next, and the caller hands back what came of it.

use vstd::prelude::*;
use vstd::string::*;

use crate::cli::check::Check;
use crate::cli::dev::{followed_app_logs, followed_logs, logs_since, with_since};
use crate::cli::logs::Logs;
use crate::cli::terminal::TerminalCommand;
use crate::config::strings_view;
use crate::dofigen::opt_strings_view;
use crate::docker_compose::{clone_services, is_exposed, Service};
use crate::text::owned;

verus! {

/// The context in which the dev commands run.
#[derive(Debug)]
pub struct DevTermContext {
    /// The app configuration file.
    pub config: String,
    /// The exposed services.
    pub expose: Vec<Service>,
}

impl DevTermContext {
    /// A copy of the context.
    pub fn clone_context(&self) -> (r: DevTermContext)
        ensures
            r.config@ == self.config@,
            r.expose@ == self.expose@,
    {
        DevTermContext { config: self.config.clone(), expose: clone_services(&self.expose) }
    }
}

/// The Lenra interactive command line interface.
#[derive(Debug)]
pub struct DevCli {
    pub command: DevTermCommand,
}

/// The interactive commands.
#[derive(Debug)]
pub enum DevTermCommand {
    /// Continue the previous logs command since the last displayed logs
    Continue,
    /// View output from the containers
    Logs(Logs),
    /// Reload the app by rebuilding and restarting it
    Reload,
    /// Stop your app and the local Lenra environment
    Stop,
    /// 'stop' alias
    Exit,
    /// Checks the running app
    Check(Check),
    /// Exposes the app ports
    Expose(Expose),
}

/// Exposes the app ports.
#[derive(Debug)]
pub struct Expose {
    /// The service list to expose.
    pub services: Vec<Service>,
}

impl Default for Expose {
    /// By default, the app, Postgres and MongoDB.
    fn default() -> (r: Self)
        ensures
            r.services@ == seq![Service::App, Service::Postgres, Service::Mongo],
    {
        Expose { services: vec![Service::App, Service::Postgres, Service::Mongo] }
    }
}

/// What running a dev command amounts to.
#[derive(Debug)]
pub enum DevTermRun {
    /// The command is the terminal's own and is not run: this warning is logged.
    Warn(String),
    /// Regenerate the files with these services exposed, build the images,
    /// start the containers, then clear the app's cache.
    Reload(Vec<Service>),
    /// Run the check.
    Check(Check),
    /// The check cannot run: this message is shown.
    Refuse(String),
    /// Regenerate the files with these services exposed and start the
    /// containers; the terminal then runs in this context.
    Expose(Vec<Service>, DevTermContext),
}

/// The message shown when the check is asked for while the app is not exposed.
pub const NOT_EXPOSED_MESSAGE: &'static str =
    "The check commands can't run if the ports are not exposed. Run the expose command first";

impl DevTermCommand {
    /// What running the command in the context amounts to: the terminal's own
    /// commands are not run; a reload keeps the exposed services; a check
    /// runs only where the app is exposed; an exposure changes the context.
    pub fn plan(&self, context: &DevTermContext) -> (r: DevTermRun)
        ensures
            match *self {
                DevTermCommand::Continue => r matches DevTermRun::Warn(m) && m@
                    == "The continue command should not be run"@,
                DevTermCommand::Logs(_) => r matches DevTermRun::Warn(m) && m@
                    == "The logs command should not be run"@,
                DevTermCommand::Stop | DevTermCommand::Exit => r matches DevTermRun::Warn(m)
                    && m@ == "The stop command should not be run"@,
                DevTermCommand::Reload => r matches DevTermRun::Reload(s) && s@
                    == context.expose@,
                DevTermCommand::Check(c) => if context.expose@.contains(Service::App) {
                    r matches DevTermRun::Check(k) && k.strict == c.strict && opt_strings_view(
                        k.ignore,
                    ) == opt_strings_view(c.ignore) && strings_view(k.rules@) == strings_view(
                        c.rules@,
                    )
                } else {
                    r matches DevTermRun::Refuse(m) && m@ == NOT_EXPOSED_MESSAGE@
                },
                DevTermCommand::Expose(e) => r matches DevTermRun::Expose(s, ctx) && s@
                    == e.services@ && ctx.expose@ == e.services@ && ctx.config@
                    == context.config@,
            },
    {
        match self {
            DevTermCommand::Continue => DevTermRun::Warn(
                owned("The continue command should not be run"),
            ),
            DevTermCommand::Logs(_) => DevTermRun::Warn(owned("The logs command should not be run")),
            DevTermCommand::Stop | DevTermCommand::Exit => DevTermRun::Warn(
                owned("The stop command should not be run"),
            ),
            DevTermCommand::Reload => DevTermRun::Reload(clone_services(&context.expose)),
            DevTermCommand::Check(check) => {
                if is_exposed(&context.expose, Service::App) {
                    DevTermRun::Check(check.clone_check())
                } else {
                    DevTermRun::Refuse(owned(NOT_EXPOSED_MESSAGE))
                }
            },
            DevTermCommand::Expose(expose) => {
                let mut ctx = context.clone_context();
                ctx.expose = clone_services(&expose.services);
                DevTermRun::Expose(clone_services(&expose.services), ctx)
            },
        }
    }
}

/// What the dev terminal does next.
#[derive(Debug)]
pub enum DevTermAction {
    /// Read a command line at the prompt.
    ReadLine,
    /// Follow these logs until a shortcut is pressed, then hand back when they
    /// ended and the shortcut's command ([`DevTerminal::logs_ended`]).
    FollowLogs(Logs),
    /// Show these logs once, then read a command line.
    ShowLogs(Logs),
    /// Run the command in the terminal's context ([`DevTermCommand::plan`]),
    /// then hand back its outcome ([`DevTerminal::command_ran`]).
    Run(DevTermCommand),
    /// Save the history and end.
    End,
}

/// The state of the dev terminal.
#[derive(Debug)]
pub struct DevTerminal {
    /// The logs that the terminal follows.
    pub previous_log: Logs,
    /// When the logs were last shown.
    pub last_logs: String,
    /// The command to run before reading a line.
    pub pending: Option<DevTermCommand>,
    /// The context in which the commands run.
    pub context: DevTermContext,
}

/// What the terminal does with a command, from the state `before` to the
/// state `after` (its pending command aside).
pub open spec fn dispatches(
    before: DevTerminal,
    command: DevTermCommand,
    after: DevTerminal,
    r: DevTermAction,
) -> bool {
    &&& after.last_logs == before.last_logs
    &&& after.context == before.context
    &&& match command {
        DevTermCommand::Continue => {
            &&& after.previous_log == before.previous_log
            &&& r matches DevTermAction::FollowLogs(l)
            &&& logs_since(l, before.previous_log, Some(before.last_logs@))
        },
        DevTermCommand::Logs(logs) => if logs.follow {
            &&& after.previous_log == logs
            &&& r matches DevTermAction::FollowLogs(l)
            &&& logs_since(l, logs, None)
        } else {
            after.previous_log == before.previous_log && r == DevTermAction::ShowLogs(logs)
        },
        DevTermCommand::Stop | DevTermCommand::Exit => after.previous_log == before.previous_log
            && r is End,
        _ => after.previous_log == before.previous_log && r == DevTermAction::Run(command),
    }
}

/// What the terminal does next, from the state `before` to the state `after`:
/// the pending command where there is one (a reload is followed by following
/// the logs again), else it reads a line.
pub open spec fn next_step(before: DevTerminal, after: DevTerminal, r: DevTermAction) -> bool {
    match before.pending {
        None => {
            &&& r is ReadLine
            &&& after.pending is None
            &&& after.previous_log == before.previous_log
            &&& after.last_logs == before.last_logs
            &&& after.context == before.context
        },
        Some(cmd) => {
            &&& dispatches(before, cmd, after, r)
            &&& after.pending == if cmd is Reload {
                Some(DevTermCommand::Continue)
            } else {
                None
            }
        },
    }
}

/// What the terminal does after a command ran with that outcome, from the
/// state `before` to the state `after`: an error is shown (`r`) and changes
/// nothing; a new context replaces the old one.
pub open spec fn ran_step(
    before: DevTerminal,
    outcome: Result<Option<DevTermContext>, String>,
    after: DevTerminal,
    r: Option<String>,
) -> bool {
    &&& after.last_logs == before.last_logs
    &&& after.pending == before.pending
    &&& after.previous_log == before.previous_log
    &&& match outcome {
        Ok(Some(ctx)) => after.context == ctx && r is None,
        Ok(None) => after.context == before.context && r is None,
        Err(m) => after.context == before.context && r == Some(m),
    }
}

/// After a reload, the terminal follows the logs again from when they were
/// last shown, then reads a line.
pub proof fn lemma_reload_then_continue(
    s0: DevTerminal,
    s1: DevTerminal,
    s2: DevTerminal,
    s3: DevTerminal,
    r1: DevTermAction,
    r2: DevTermAction,
    r3: DevTermAction,
)
    requires
        s0.pending == Some(DevTermCommand::Reload),
        next_step(s0, s1, r1),
        next_step(s1, s2, r2),
        next_step(s2, s3, r3),
    ensures
        r1 == DevTermAction::Run(DevTermCommand::Reload),
        r2 matches DevTermAction::FollowLogs(l) && logs_since(
            l,
            s0.previous_log,
            Some(s0.last_logs@),
        ),
        r3 is ReadLine,
        s3.context == s0.context,
{
}

/// What happens to the dev terminal in one step of a run.
pub enum DevTermEvent {
    /// [`DevTerminal::next`] gave this action.
    Next(DevTermAction),
    /// [`DevTerminal::dispatch`] handled a command read at the prompt, giving
    /// this action.
    Dispatched(DevTermCommand, DevTermAction),
    /// [`DevTerminal::logs_ended`]: the followed logs ended at that time, on
    /// that shortcut's command if any.
    LogsEnded(String, Option<DevTermCommand>),
    /// [`DevTerminal::command_ran`]: a command ran with that outcome, and this
    /// message was shown if any.
    Ran(Result<Option<DevTermContext>, String>, Option<String>),
}

/// One step of a run, from the state `before` to the state `after`, as the
/// terminal's methods state it.
pub open spec fn dev_step(before: DevTerminal, e: DevTermEvent, after: DevTerminal) -> bool {
    match e {
        DevTermEvent::Next(r) => next_step(before, after, r),
        DevTermEvent::Dispatched(cmd, r) => dispatches(before, cmd, after, r) && after.pending
            == before.pending,
        DevTermEvent::LogsEnded(end, cmd) => {
            &&& after.last_logs == end
            &&& after.pending == cmd
            &&& after.previous_log == before.previous_log
            &&& after.context == before.context
        },
        DevTermEvent::Ran(outcome, r) => ran_step(before, outcome, after, r),
    }
}

/// A run of the terminal: each state follows the one before it by the event
/// between them.
pub open spec fn dev_run(states: Seq<DevTerminal>, events: Seq<DevTermEvent>) -> bool {
    &&& states.len() == events.len() + 1
    &&& forall|i: int| 0 <= i < events.len() ==> dev_step(states[i], #[trigger] events[i], states[i + 1])
}

/// The context after these events: the last one that a command handed back,
/// else the first one.
pub open spec fn context_after(first: DevTermContext, events: Seq<DevTermEvent>) -> DevTermContext
    decreases events.len(),
{
    if events.len() == 0 {
        first
    } else {
        match events.last() {
            DevTermEvent::Ran(Ok(Some(ctx)), _) => ctx,
            _ => context_after(first, events.drop_last()),
        }
    }
}

/// When the logs were last shown after these events: when the followed logs
/// last ended, else the start.
pub open spec fn logs_end_after(start: String, events: Seq<DevTermEvent>) -> String
    decreases events.len(),
{
    if events.len() == 0 {
        start
    } else {
        match events.last() {
            DevTermEvent::LogsEnded(end, _) => end,
            _ => logs_end_after(start, events.drop_last()),
        }
    }
}

/// The command that a step handles: the one read, or the pending one.
pub open spec fn handled_command(before: DevTerminal, e: DevTermEvent) -> Option<DevTermCommand> {
    match e {
        DevTermEvent::Next(_) => before.pending,
        DevTermEvent::Dispatched(cmd, _) => Some(cmd),
        _ => None,
    }
}

/// The action that a step gives.
pub open spec fn step_action(e: DevTermEvent) -> Option<DevTermAction> {
    match e {
        DevTermEvent::Next(r) => Some(r),
        DevTermEvent::Dispatched(_, r) => Some(r),
        _ => None,
    }
}

/// The logs that the terminal follows after the first `i` steps of a run:
/// those of the last `logs` command that follows them, else the first ones.
pub open spec fn followed_at(
    first: Logs,
    states: Seq<DevTerminal>,
    events: Seq<DevTermEvent>,
    i: int,
) -> Logs
    decreases i,
{
    if i <= 0 {
        first
    } else {
        match handled_command(states[i - 1], events[i - 1]) {
            Some(DevTermCommand::Logs(l)) => if l.follow {
                l
            } else {
                followed_at(first, states, events, i - 1)
            },
            _ => followed_at(first, states, events, i - 1),
        }
    }
}

/// Over a whole run of the dev terminal:
/// - where it starts on a pending `logs` of the app's followed logs (the
///   interactive mode), its first step follows the app's logs;
/// - the context is the first one until a command hands back a new one, and
///   then that one, whatever else happens (a failed command changes nothing);
/// - the followed logs are those of the last `logs` command that follows them,
///   and the logs were last shown when the followed logs last ended (or at
///   the start);
/// - a `reload` is run, then `continue` is pending, and a pending command is
///   handled without reading a line;
/// - `continue` follows the followed logs again since they last ended;
/// - `stop` and `exit` end the terminal.
pub proof fn lemma_dev_run(states: Seq<DevTerminal>, events: Seq<DevTermEvent>)
    requires
        dev_run(states, events),
    ensures
        (states[0].pending matches Some(DevTermCommand::Logs(l)) && followed_app_logs(l)) && events.len()
            > 0 && events[0] is Next ==> (step_action(events[0]) matches Some(
            DevTermAction::FollowLogs(m),
        ) && followed_app_logs(m)),
        forall|i: int|
            0 <= i < states.len() ==> {
                &&& (#[trigger] states[i]).context == context_after(states[0].context, events.take(i))
                &&& states[i].last_logs == logs_end_after(states[0].last_logs, events.take(i))
                &&& states[i].previous_log == followed_at(states[0].previous_log, states, events, i)
            },
        forall|i: int|
            0 <= i < events.len() && #[trigger] events[i] is Next && states[i].pending == Some(
                DevTermCommand::Reload,
            ) ==> step_action(events[i]) == Some(DevTermAction::Run(DevTermCommand::Reload))
                && states[i + 1].pending == Some(DevTermCommand::Continue),
        forall|i: int|
            0 <= i < events.len() && #[trigger] events[i] is Next && states[i].pending is Some
                ==> step_action(events[i]) != Some(DevTermAction::ReadLine),
        forall|i: int|
            0 <= i < events.len() && handled_command(states[i], #[trigger] events[i]) == Some(
                DevTermCommand::Continue,
            ) ==> (step_action(events[i]) matches Some(DevTermAction::FollowLogs(l)) && logs_since(
                l,
                followed_at(states[0].previous_log, states, events, i),
                Some(logs_end_after(states[0].last_logs, events.take(i))@),
            )),
        forall|i: int|
            0 <= i < events.len() && (handled_command(states[i], #[trigger] events[i]) == Some(
                DevTermCommand::Stop,
            ) || handled_command(states[i], events[i]) == Some(DevTermCommand::Exit))
                ==> step_action(events[i]) == Some(DevTermAction::End),
{
    if events.len() > 0 {
        assert(dev_step(states[0], events[0], states[1]));
    }
    assert forall|i: int| 0 <= i < states.len() implies {
        &&& (#[trigger] states[i]).context == context_after(states[0].context, events.take(i))
        &&& states[i].last_logs == logs_end_after(states[0].last_logs, events.take(i))
        &&& states[i].previous_log == followed_at(states[0].previous_log, states, events, i)
    } by {
        lemma_dev_run_prefix(states, events, i);
    }
    assert forall|i: int|
        0 <= i < events.len() && #[trigger] events[i] is Next && states[i].pending == Some(
            DevTermCommand::Reload,
        ) implies step_action(events[i]) == Some(DevTermAction::Run(DevTermCommand::Reload))
        && states[i + 1].pending == Some(DevTermCommand::Continue) by {
        assert(dev_step(states[i], events[i], states[i + 1]));
    }
    assert forall|i: int|
        0 <= i < events.len() && #[trigger] events[i] is Next && states[i].pending is Some
            implies step_action(events[i]) != Some(DevTermAction::ReadLine) by {
        assert(dev_step(states[i], events[i], states[i + 1]));
    }
    assert forall|i: int|
        0 <= i < events.len() && handled_command(states[i], #[trigger] events[i]) == Some(
            DevTermCommand::Continue,
        ) implies (step_action(events[i]) matches Some(DevTermAction::FollowLogs(l)) && logs_since(
        l,
        followed_at(states[0].previous_log, states, events, i),
        Some(logs_end_after(states[0].last_logs, events.take(i))@),
    )) by {
        lemma_dev_run_prefix(states, events, i);
        assert(dev_step(states[i], events[i], states[i + 1]));
    }
    assert forall|i: int|
        0 <= i < events.len() && (handled_command(states[i], #[trigger] events[i]) == Some(
            DevTermCommand::Stop,
        ) || handled_command(states[i], events[i]) == Some(DevTermCommand::Exit)) implies step_action(
        events[i],
    ) == Some(DevTermAction::End) by {
        assert(dev_step(states[i], events[i], states[i + 1]));
    }
}

/// The context, the followed logs and the end of the shown logs at a state of
/// a run.
proof fn lemma_dev_run_prefix(states: Seq<DevTerminal>, events: Seq<DevTermEvent>, i: int)
    requires
        dev_run(states, events),
        0 <= i < states.len(),
    ensures
        states[i].context == context_after(states[0].context, events.take(i)),
        states[i].last_logs == logs_end_after(states[0].last_logs, events.take(i)),
        states[i].previous_log == followed_at(states[0].previous_log, states, events, i),
    decreases i,
{
    if i == 0 {
        assert(events.take(0) =~= Seq::<DevTermEvent>::empty());
    } else {
        lemma_dev_run_prefix(states, events, i - 1);
        assert(events.take(i).drop_last() =~= events.take(i - 1));
        assert(events.take(i).last() == events[i - 1]);
        assert(dev_step(states[i - 1], events[i - 1], states[i]));
    }
}

impl DevTerminal {
    /// The terminal at its start, at the given time: it follows the app's
    /// logs, and starts by showing them unless it is a bare terminal.
    pub fn new(initial_context: &DevTermContext, terminal: bool, now: String) -> (r: DevTerminal)
        ensures
            followed_app_logs(r.previous_log),
            r.last_logs == now,
            r.context.config@ == initial_context.config@,
            r.context.expose@ == initial_context.expose@,
            terminal ==> r.pending is None,
            !terminal ==> (r.pending matches Some(DevTermCommand::Logs(l)) && followed_app_logs(l)),
    {
        let pending = if terminal {
            None
        } else {
            Some(DevTermCommand::Logs(followed_logs()))
        };
        DevTerminal {
            previous_log: followed_logs(),
            last_logs: now,
            pending,
            context: initial_context.clone_context(),
        }
    }

    /// What to do with a command: `continue` follows the logs again since they
    /// were last shown; a `logs` that follows becomes the followed logs;
    /// another `logs` is shown once; `stop` and `exit` end the terminal; the
    /// other commands are run.
    pub fn dispatch(&mut self, command: DevTermCommand) -> (r: DevTermAction)
        ensures
            dispatches(*old(self), command, *final(self), r),
            final(self).pending == old(self).pending,
    {
        match command {
            DevTermCommand::Continue => {
                let since = Some(self.last_logs.clone());
                DevTermAction::FollowLogs(with_since(&self.previous_log, &since))
            },
            DevTermCommand::Logs(logs) => {
                if logs.follow {
                    let shown = with_since(&logs, &None);
                    self.previous_log = logs;
                    DevTermAction::FollowLogs(shown)
                } else {
                    DevTermAction::ShowLogs(logs)
                }
            },
            DevTermCommand::Stop | DevTermCommand::Exit => DevTermAction::End,
            _ => DevTermAction::Run(command),
        }
    }

    /// What the terminal does next: the pending command where there is one (a
    /// reload is followed by following the logs again), else it reads a line.
    pub fn next(&mut self) -> (r: DevTermAction)
        ensures
            next_step(*old(self), *final(self), r),
    {
        match self.pending.take() {
            None => DevTermAction::ReadLine,
            Some(cmd) => {
                if matches!(cmd, DevTermCommand::Reload) {
                    self.pending = Some(DevTermCommand::Continue);
                }
                self.dispatch(cmd)
            },
        }
    }

    /// The followed logs ended at that time, on a shortcut's command if any,
    /// which runs next.
    pub fn logs_ended(&mut self, end: String, command: Option<DevTermCommand>)
        ensures
            final(self).last_logs == end,
            final(self).pending == command,
            final(self).previous_log == old(self).previous_log,
            final(self).context == old(self).context,
    {
        self.last_logs = end;
        self.pending = command;
    }

    /// A command ran, with that outcome: where it failed, its error is the
    /// message to show and the terminal goes on as it was; where it changed the
    /// context, the terminal goes on in the new one.
    pub fn command_ran(&mut self, outcome: Result<Option<DevTermContext>, String>) -> (r: Option<String>)
        ensures
            ran_step(*old(self), outcome, *final(self), r),
    {
        match outcome {
            Ok(Some(ctx)) => {
                self.context = ctx;
                None
            },
            Ok(None) => None,
            Err(message) => Some(message),
        }
    }
}

} // verus!

verus! {

/// The dev terminal's command for the command of a shortcut pressed while the
/// logs are followed: `reload`, `stop` and `exit`; none for the others.
pub fn shortcut_command(command: &TerminalCommand) -> (r: Option<DevTermCommand>)
    ensures
        match *command {
            TerminalCommand::Reload(_) => r == Some(DevTermCommand::Reload),
            TerminalCommand::Stop(_) => r == Some(DevTermCommand::Stop),
            TerminalCommand::Exit => r == Some(DevTermCommand::Exit),
            _ => r is None,
        },
{
    match command {
        TerminalCommand::Reload(_) => Some(DevTermCommand::Reload),
        TerminalCommand::Stop(_) => Some(DevTermCommand::Stop),
        TerminalCommand::Exit => Some(DevTermCommand::Exit),
        _ => None,
    }
}

} // verus!

