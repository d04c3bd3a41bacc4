//! The terminal: a command prompt that runs the Lenra commands in a same context.

use vstd::prelude::*;
use vstd::string::*;

use crate::cli::build_command::Build;
use crate::cli::check::Check;
use crate::cli::dev::Dev;
use crate::cli::logs::Logs;
use crate::cli::reload::Reload;
use crate::cli::start::Start;
use crate::cli::stop::Stop;
use crate::cli::update::Update;
use crate::cli::upgrade::Upgrade;
use crate::config::strings_view;
use crate::cli::CommandContext;
use crate::docker_compose::Service;
use crate::errors::Error;
use crate::paths::{path_push, pushed_path};
use crate::text::{
    lemma_whitespace_words_after_blank, owned, split_whitespace, str_eq, trim,
    trimmed, whitespace_words, words_read,
};

verus! {

/// The name of the command line, which the terminal's commands may omit.
pub const LENRA_COMMAND: &'static str = "lenra";

/// The prompt of the terminal.
pub const READLINE_PROMPT: &'static str = "[lenra]$ ";

/// The Lenra interactive command line interface.
#[derive(Debug)]
pub struct TerminalCli {
    pub command: TerminalCommand,
}

/// The interactive commands.
#[derive(Debug)]
pub enum TerminalCommand {
    /// Build your app in release mode
    Build(Build),
    /// Start your app previously built with the build command
    Start(Start),
    /// View output from the containers
    Logs(Logs),
    /// Stop your app previously started with the start command
    Stop(Stop),
    /// Start the app in an interactive mode
    Dev(Dev),
    /// Upgrade the app with the last template updates
    Upgrade(Upgrade),
    /// Update the tools Docker images
    Update(Update),
    /// Checks the running app
    Check(Check),
    /// Reload the app by rebuilding and restarting it
    Reload(Reload),
    /// Exits the terminal
    Exit,
    /// Exposes the app ports
    Expose(Expose),
}

/// Exposes the app ports.
#[derive(Debug)]
pub struct Expose {
    /// The service list to expose.
    pub services: Vec<Service>,
}

impl Default for Expose {
    /// By default, the app, Postgres and MongoDB.
    fn default() -> (r: Self)
        ensures
            r.services@ == seq![Service::App, Service::Postgres, Service::Mongo],
    {
        Expose { services: vec![Service::App, Service::Postgres, Service::Mongo] }
    }
}

impl TerminalCommand {
    /// Whether the terminal goes on once the command has run: it stops after
    /// `exit` and `stop`.
    pub fn keeps_running(&self) -> (r: bool)
        ensures
            r == !(*self is Exit || *self is Stop),
    {
        match self {
            TerminalCommand::Exit | TerminalCommand::Stop(_) => false,
            _ => true,
        }
    }
}

/// The arguments of a command line typed in the terminal: its words, with the
/// name of the command line put first where it is not there.
pub open spec fn command_args(words: Seq<Seq<char>>) -> Seq<Seq<char>> {
    if words.len() > 0 && words[0] != LENRA_COMMAND@ {
        seq![LENRA_COMMAND@] + words
    } else {
        words
    }
}

/// The arguments to parse of a command line typed in the terminal.
pub fn command_line_args(line: &str) -> (r: Vec<String>)
    ensures
        strings_view(r@) == command_args(whitespace_words(line@)),
{
    let words = split_whitespace(line);
    proof {
        assert(words@.map_values(|w: String| w@) =~= strings_view(words@));
    }
    if words.len() > 0 && !str_eq(words[0].as_str(), LENRA_COMMAND) {
        let mut args: Vec<String> = vec![owned(LENRA_COMMAND)];
        let mut i: usize = 0;
        while i < words.len()
            invariant
                0 <= i <= words.len(),
                strings_view(args@) == seq![LENRA_COMMAND@] + strings_view(words@).take(i as int),
            decreases words.len() - i,
        {
            let ghost before = args@;
            args.push(words[i].clone());
            proof {
                assert(strings_view(args@) =~= strings_view(before).push(words@[i as int]@));
                assert(strings_view(words@).take(i + 1) =~= strings_view(words@).take(
                    i as int,
                ).push(words@[i as int]@));
            }
            i += 1;
        }
        proof {
            assert(strings_view(words@).take(i as int) =~= strings_view(words@));
        }
        args
    } else {
        words
    }
}

/// What a line that the terminal read leads to.
#[derive(Debug)]
pub enum TerminalInput {
    /// A line was typed.
    Line(String),
    /// The user pressed Ctrl-C.
    Interrupted,
    /// The user pressed Ctrl-D.
    Eof,
    /// The line could not be read.
    Failed(String),
}

/// What the terminal does next with what it read.
#[derive(Debug)]
pub enum TerminalStep {
    /// Read another line: the one typed holds only blanks.
    ReadAgain,
    /// Keep the line in the history, then parse these arguments and run the
    /// command.
    Run(Vec<String>),
    /// Save the history and end.
    End,
}

/// What the terminal does next: reads again after a blank line, runs a typed
/// command, and ends when the input ends, is interrupted or fails.
pub fn terminal_step(input: &TerminalInput) -> (r: TerminalStep)
    ensures
        match *input {
            TerminalInput::Line(line) => if trimmed(line@).len() == 0 {
                r is ReadAgain
            } else {
                r matches TerminalStep::Run(args) && strings_view(args@) == command_args(
                    whitespace_words(line@),
                )
            },
            _ => r is End,
        },
{
    match input {
        TerminalInput::Line(line) => {
            if trim(line.as_str()).is_empty() {
                TerminalStep::ReadAgain
            } else {
                TerminalStep::Run(command_line_args(line.as_str()))
            }
        },
        _ => TerminalStep::End,
    }
}

} // verus!

verus! {

/// A command line that already starts with the name of the command line is
/// parsed as it is: completing the arguments twice is completing them once.
pub proof fn lemma_command_args_idempotent(words: Seq<Seq<char>>)
    ensures
        command_args(command_args(words)) == command_args(words),
        words.len() > 0 ==> command_args(words)[0] == LENRA_COMMAND@,
{
    if words.len() > 0 && words[0] != LENRA_COMMAND@ {
        assert((seq![LENRA_COMMAND@] + words)[0] == LENRA_COMMAND@);
    }
}

} // verus!

verus! {

/// Typing the name of the command line before a command changes nothing to
/// what is parsed: `lenra <line>` gives the arguments of `<line>`, for a line
/// whose first word is not that name.
pub proof fn lemma_lenra_prefix(line: Seq<char>)
    requires
        whitespace_words(line).len() > 0,
        whitespace_words(line)[0] != LENRA_COMMAND@,
    ensures
        command_args(whitespace_words("lenra "@ + line)) == command_args(whitespace_words(line)),
{
    reveal_strlit("lenra ");
    reveal_strlit("lenra");
    let p = "lenra "@;
    assert(p =~= seq!['l', 'e', 'n', 'r', 'a', ' ']);
    assert(LENRA_COMMAND@ =~= seq!['l', 'e', 'n', 'r', 'a']);
    assert forall|k: int| 0 < k <= 6 implies #[trigger] p.take(k).drop_last() =~= p.take(k - 1)
        && p.take(k).last() == p[k - 1] by {}
    assert(p.take(0) =~= Seq::<char>::empty());
    assert(words_read(p.take(0)) == (Seq::<Seq<char>>::empty(), Seq::<char>::empty()));
    assert(words_read(p.take(1)) == (Seq::<Seq<char>>::empty(), p.take(1))) by {
        assert(Seq::<char>::empty().push(p[0]) =~= p.take(1));
    }
    assert(words_read(p.take(2)) == (Seq::<Seq<char>>::empty(), p.take(2))) by {
        assert(p.take(1).push(p[1]) =~= p.take(2));
    }
    assert(words_read(p.take(3)) == (Seq::<Seq<char>>::empty(), p.take(3))) by {
        assert(p.take(2).push(p[2]) =~= p.take(3));
    }
    assert(words_read(p.take(4)) == (Seq::<Seq<char>>::empty(), p.take(4))) by {
        assert(p.take(3).push(p[3]) =~= p.take(4));
    }
    assert(words_read(p.take(5)) == (Seq::<Seq<char>>::empty(), p.take(5))) by {
        assert(p.take(4).push(p[4]) =~= p.take(5));
    }
    assert(words_read(p.take(6)) == (seq![p.take(5)], Seq::<char>::empty())) by {
        assert(Seq::<Seq<char>>::empty().push(p.take(5)) =~= seq![p.take(5)]);
    }
    assert(p.take(6) =~= p);
    assert(p.take(5) =~= LENRA_COMMAND@);
    lemma_whitespace_words_after_blank(p, line);
    assert((seq![LENRA_COMMAND@] + whitespace_words(line))[0] == LENRA_COMMAND@);
}

impl Expose {
    /// The tasks of the exposure: regenerate the environment with debug
    /// access, then start it.
    pub fn tasks(&self) -> (r: Vec<crate::cli::tasks::Task>)
        ensures
            r@ == seq![
                crate::cli::tasks::Task::GenerateAppEnv { production: false },
                crate::cli::tasks::Task::StartEnv,
            ],
    {
        vec![
            crate::cli::tasks::Task::GenerateAppEnv { production: false },
            crate::cli::tasks::Task::StartEnv,
        ]
    }
}

} // verus!

verus! {

// A session of the terminal.

/// A session of the terminal: the context its commands run in, and whether it
/// still reads commands.
#[derive(Debug)]
pub struct TerminalSession {
    pub context: CommandContext,
    pub running: bool,
}

/// What the session does with an input, from the state `before` to the state
/// `after`: the step of [`terminal_step`]; it stops reading where the input
/// ends.
pub open spec fn session_read(before: TerminalSession, input: TerminalInput, after: TerminalSession, r: TerminalStep) -> bool {
    &&& match input {
        TerminalInput::Line(line) => if trimmed(line@).len() == 0 {
            r is ReadAgain
        } else {
            r matches TerminalStep::Run(args) && strings_view(args@) == command_args(
                whitespace_words(line@),
            )
        },
        _ => r is End,
    }
    &&& after.context == before.context
    &&& after.running == (before.running && !(r is End))
}

/// What the session does once a command ran with that outcome (the services
/// it exposes, if it changes them, or its error), from the state `before` to
/// the state `after`: the error is shown (`r`); the exposed services are
/// replaced; the session stops reading after `exit` and `stop`.
pub open spec fn session_ran(
    before: TerminalSession,
    keeps_running: bool,
    outcome: Result<Option<Seq<Service>>, Seq<char>>,
    after: TerminalSession,
    r: Option<Seq<char>>,
) -> bool {
    &&& after.running == (before.running && keeps_running)
    &&& after.context.config_path == before.context.config_path
    &&& after.context.config == before.context.config
    &&& after.context.verbose == before.context.verbose
    &&& match outcome {
        Ok(Some(services)) => after.context.expose@ == services && r is None,
        Ok(None) => after.context.expose@ == before.context.expose@ && r is None,
        Err(m) => after.context.expose@ == before.context.expose@ && r == Some(m),
    }
}

impl TerminalSession {
    /// A session that reads commands to run in that context.
    pub fn new(context: CommandContext) -> (r: TerminalSession)
        ensures
            r.context == context,
            r.running,
    {
        TerminalSession { context, running: true }
    }

    /// What the session does with an input: reads again after a blank line,
    /// runs a typed command, and stops where the input ends.
    pub fn read(&mut self, input: &TerminalInput) -> (r: TerminalStep)
        ensures
            session_read(*old(self), *input, *final(self), r),
    {
        let r = terminal_step(input);
        if matches!(r, TerminalStep::End) {
            self.running = false;
        }
        r
    }

    /// A command ran with that outcome: the message of its error, to show,
    /// if any.
    pub fn ran(&mut self, command: &TerminalCommand, outcome: Result<Option<Vec<Service>>, String>) -> (r: Option<String>)
        ensures
            session_ran(
                *old(self),
                !(*command is Exit || *command is Stop),
                match outcome {
                    Ok(Some(s)) => Ok(Some(s@)),
                    Ok(None) => Ok(None),
                    Err(m) => Err(m@),
                },
                *final(self),
                match r {
                    Some(m) => Some(m@),
                    None => None,
                },
            ),
    {
        let keeps = command.keeps_running();
        self.running = self.running && keeps;
        match outcome {
            Ok(Some(services)) => {
                self.context.expose_services(&services);
                None
            },
            Ok(None) => None,
            Err(m) => Some(m),
        }
    }
}

/// What happens to a session in one step of a run.
pub enum SessionEvent {
    /// An input was read, giving this step.
    Read(TerminalInput, TerminalStep),
    /// The arguments of a line did not parse: this message was shown, and the
    /// session was left as it was.
    ParseFailed(Seq<char>),
    /// A command that keeps the session running or not ran with that outcome,
    /// and this message was shown, if any.
    Ran(bool, Result<Option<Seq<Service>>, Seq<char>>, Option<Seq<char>>),
}

/// One step of a run of a session.
pub open spec fn session_step(before: TerminalSession, e: SessionEvent, after: TerminalSession) -> bool {
    match e {
        SessionEvent::Read(input, r) => session_read(before, input, after, r),
        SessionEvent::ParseFailed(_) => after == before,
        SessionEvent::Ran(keeps, outcome, r) => session_ran(before, keeps, outcome, after, r),
    }
}

/// The exposed services after these events: the last ones that a command
/// handed back, else the first ones.
pub open spec fn exposed_after(first: Seq<Service>, events: Seq<SessionEvent>) -> Seq<Service>
    decreases events.len(),
{
    if events.len() == 0 {
        first
    } else {
        match events.last() {
            SessionEvent::Ran(_, Ok(Some(s)), _) => s,
            _ => exposed_after(first, events.drop_last()),
        }
    }
}

/// The session still reads after these events: no input ended it and no
/// command that stops it ran.
pub open spec fn running_after(events: Seq<SessionEvent>) -> bool {
    forall|j: int|
        0 <= j < events.len() ==> event_keeps_running(#[trigger] events[j])
}

/// The event leaves the session reading: no input that ends it, no command
/// that stops it.
pub open spec fn event_keeps_running(e: SessionEvent) -> bool {
    match e {
        SessionEvent::Read(_, r) => !(r is End),
        SessionEvent::ParseFailed(_) => true,
        SessionEvent::Ran(keeps, _, _) => keeps,
    }
}

/// Over a whole run of a terminal session that starts reading:
/// - each non-blank line is parsed from its words, with the name of the
///   command line put first where it is not there; a blank line is skipped;
/// - a line that does not parse leaves the session as it was, and it reads on;
/// - each command runs with the services that the latest command exposing
///   some handed back, else the first ones, whatever failed in between; the
///   configuration stays;
/// - the session reads on exactly until an input ends it (Ctrl-C, Ctrl-D, a
///   read error) or `exit` or `stop` ran, and then stays stopped.
pub proof fn lemma_terminal_run(states: Seq<TerminalSession>, events: Seq<SessionEvent>)
    requires
        states.len() == events.len() + 1,
        forall|j: int| 0 <= j < events.len() ==> session_step(states[j], #[trigger] events[j], states[j + 1]),
        states[0].running,
    ensures
        forall|i: int|
            0 <= i < states.len() ==> {
                &&& (#[trigger] states[i]).context.expose@ == exposed_after(
                    states[0].context.expose@,
                    events.take(i),
                )
                &&& states[i].context.config_path == states[0].context.config_path
                &&& states[i].context.config == states[0].context.config
                &&& states[i].running == running_after(events.take(i))
            },
        forall|i: int|
            0 <= i < events.len() ==> match #[trigger] events[i] {
                SessionEvent::Read(TerminalInput::Line(line), r) => if trimmed(line@).len() == 0 {
                    r is ReadAgain && states[i + 1] == states[i]
                } else {
                    r matches TerminalStep::Run(args) && strings_view(args@) == command_args(
                        whitespace_words(line@),
                    ) && states[i + 1] == states[i]
                },
                SessionEvent::Read(_, r) => r is End && !states[i + 1].running,
                SessionEvent::ParseFailed(_) => states[i + 1] == states[i],
                SessionEvent::Ran(keeps, _, _) => !keeps ==> !states[i + 1].running,
            },
        forall|i: int, k: int| 0 <= i < k < states.len() && !(#[trigger] states[i]).running ==> !(#[trigger] states[k]).running,
{
    assert forall|i: int| 0 <= i < states.len() implies {
        &&& (#[trigger] states[i]).context.expose@ == exposed_after(
            states[0].context.expose@,
            events.take(i),
        )
        &&& states[i].context.config_path == states[0].context.config_path
        &&& states[i].context.config == states[0].context.config
        &&& states[i].running == running_after(events.take(i))
    } by {
        lemma_session_prefix(states, events, i);
    }
    assert forall|i: int| 0 <= i < events.len() implies match #[trigger] events[i] {
        SessionEvent::Read(TerminalInput::Line(line), r) => if trimmed(line@).len() == 0 {
            r is ReadAgain && states[i + 1] == states[i]
        } else {
            r matches TerminalStep::Run(args) && strings_view(args@) == command_args(
                whitespace_words(line@),
            ) && states[i + 1] == states[i]
        },
        SessionEvent::Read(_, r) => r is End && !states[i + 1].running,
        SessionEvent::ParseFailed(_) => states[i + 1] == states[i],
        SessionEvent::Ran(keeps, _, _) => !keeps ==> !states[i + 1].running,
    } by {
        assert(session_step(states[i], events[i], states[i + 1]));
    }
    assert forall|i: int, k: int| 0 <= i < k < states.len() && !(#[trigger] states[i]).running implies !(#[trigger] states[k]).running by {
        lemma_session_prefix(states, events, i);
        lemma_session_prefix(states, events, k);
        let j = choose|j: int| 0 <= j < events.take(i).len() && !event_keeps_running(#[trigger] events.take(i)[j]);
        assert(events.take(k)[j] == events.take(i)[j]);
    }
}

/// The exposed services, the configuration and whether the session reads on,
/// at a state of a run.
proof fn lemma_session_prefix(states: Seq<TerminalSession>, events: Seq<SessionEvent>, i: int)
    requires
        states.len() == events.len() + 1,
        forall|j: int| 0 <= j < events.len() ==> session_step(states[j], #[trigger] events[j], states[j + 1]),
        states[0].running,
        0 <= i < states.len(),
    ensures
        states[i].context.expose@ == exposed_after(states[0].context.expose@, events.take(i)),
        states[i].context.config_path == states[0].context.config_path,
        states[i].context.config == states[0].context.config,
        states[i].running == running_after(events.take(i)),
    decreases i,
{
    if i == 0 {
        assert(events.take(0) =~= Seq::<SessionEvent>::empty());
    } else {
        lemma_session_prefix(states, events, i - 1);
        assert(events.take(i).drop_last() =~= events.take(i - 1));
        assert(events.take(i).last() == events[i - 1]);
        assert(session_step(states[i - 1], events[i - 1], states[i]));
        assert(running_after(events.take(i)) == (running_after(events.take(i - 1))
            && event_keeps_running(events[i - 1]))) by {
            if running_after(events.take(i)) {
                assert forall|j: int| 0 <= j < events.take(i - 1).len() implies event_keeps_running(
                    #[trigger] events.take(i - 1)[j],
                ) by {
                    assert(events.take(i - 1)[j] == events.take(i)[j]);
                }
                assert(events.take(i)[i - 1] == events[i - 1]);
            }
            if running_after(events.take(i - 1)) && event_keeps_running(events[i - 1]) {
                assert forall|j: int| 0 <= j < events.take(i).len() implies event_keeps_running(
                    #[trigger] events.take(i)[j],
                ) by {
                    if j < i - 1 {
                        assert(events.take(i)[j] == events.take(i - 1)[j]);
                    }
                }
            }
        }
    }
}

} // verus!

verus! {

/// The file that keeps the terminals' history, under the user's configuration
/// directory: an error where there is none.
pub fn history_file(config_dir: Option<String>) -> (r: Result<String, Error>)
    ensures
        match config_dir {
            Some(dir) => r matches Ok(f) && f@ == pushed_path(pushed_path(dir@, "lenra"@), "dev.history"@),
            None => r matches Err(Error::Custom(m)) && m@ == "Can't get the user config directory"@,
        },
{
    match config_dir {
        Some(dir) => {
            let lenra = path_push(dir.as_str(), "lenra");
            Ok(path_push(lenra.as_str(), "dev.history"))
        },
        None => Err(Error::Custom(owned("Can't get the user config directory"))),
    }
}

} // verus!

