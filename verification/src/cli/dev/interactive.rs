//! The shortcuts of the dev mode: single keys that run a command while the
//! app's logs are shown.

use vstd::prelude::*;
use vstd::string::*;

use crate::cli::reload::Reload;
use crate::cli::stop::Stop;
use crate::cli::terminal::TerminalCommand;
use crate::keyboard_event::{
    key_event_text, keyevent_to_string, KeyCode, KeyEvent, Modifiers, CTRL_MODIFIER, NO_MODIFIER,
};
use crate::text::{join, join_strings, owned};

verus! {

/// A command of the dev mode that a shortcut runs.
#[derive(Clone, Copy, Debug, PartialEq, Eq, Structural)]
pub enum InteractiveCommand {
    Help,
    Reload,
    Quit,
    Stop,
}

/// The name of a shortcut's command.
pub open spec fn interactive_name(cmd: InteractiveCommand) -> Seq<char> {
    match cmd {
        InteractiveCommand::Help => "Help"@,
        InteractiveCommand::Reload => "Reload"@,
        InteractiveCommand::Quit => "Quit"@,
        InteractiveCommand::Stop => "Stop"@,
    }
}

/// What a shortcut's command does.
pub open spec fn interactive_about(cmd: InteractiveCommand) -> Seq<char> {
    match cmd {
        InteractiveCommand::Help => "Print this message"@,
        InteractiveCommand::Quit => "Quit the interactive mode"@,
        InteractiveCommand::Reload => "Reload the app by rebuilding and restarting it"@,
        InteractiveCommand::Stop => "Stop your app previously started with the start command"@,
    }
}

/// The keys of a shortcut: `q` or Ctrl-C to quit, else the first letter of the
/// command's name.
pub open spec fn interactive_events(cmd: InteractiveCommand) -> Seq<KeyEvent> {
    match cmd {
        InteractiveCommand::Quit => seq![
            KeyEvent(KeyCode::Char('q'), Modifiers(NO_MODIFIER)),
            KeyEvent(KeyCode::Char('C'), Modifiers(CTRL_MODIFIER)),
        ],
        InteractiveCommand::Help => seq![KeyEvent(KeyCode::Char('h'), Modifiers(NO_MODIFIER))],
        InteractiveCommand::Reload => seq![KeyEvent(KeyCode::Char('r'), Modifiers(NO_MODIFIER))],
        InteractiveCommand::Stop => seq![KeyEvent(KeyCode::Char('s'), Modifiers(NO_MODIFIER))],
    }
}

/// All the shortcuts' commands, in the order the help shows them.
pub open spec fn all_interactive_commands() -> Seq<InteractiveCommand> {
    seq![
        InteractiveCommand::Help,
        InteractiveCommand::Reload,
        InteractiveCommand::Quit,
        InteractiveCommand::Stop,
    ]
}

/// A shortcut: its description, its keys, and the command it leads to.
pub trait KeyboardShorcut<T> {
    fn about(&self) -> String;

    fn events(&self) -> Vec<KeyEvent>;

    fn to_value(&self) -> Option<T>;
}

impl InteractiveCommand {
    /// All the shortcuts' commands, in the order the help shows them.
    pub fn all() -> (r: Vec<InteractiveCommand>)
        ensures
            r@ == all_interactive_commands(),
    {
        let r = vec![
            InteractiveCommand::Help,
            InteractiveCommand::Reload,
            InteractiveCommand::Quit,
            InteractiveCommand::Stop,
        ];
        proof {
            assert(r@ =~= all_interactive_commands());
        }
        r
    }

    /// The command's name.
    pub fn name(&self) -> (r: String)
        ensures
            r@ == interactive_name(*self),
    {
        match self {
            InteractiveCommand::Help => owned("Help"),
            InteractiveCommand::Reload => owned("Reload"),
            InteractiveCommand::Quit => owned("Quit"),
            InteractiveCommand::Stop => owned("Stop"),
        }
    }
}

impl KeyboardShorcut<TerminalCommand> for InteractiveCommand {
    /// What the command does: for the terminal's commands, their description
    /// in the terminal.
    fn about(&self) -> (r: String)
        ensures
            r@ == interactive_about(*self),
    {
        match self {
            InteractiveCommand::Help => owned("Print this message"),
            InteractiveCommand::Quit => owned("Quit the interactive mode"),
            InteractiveCommand::Reload => owned("Reload the app by rebuilding and restarting it"),
            InteractiveCommand::Stop => owned(
                "Stop your app previously started with the start command",
            ),
        }
    }

    /// The keys that run the command.
    fn events(&self) -> (r: Vec<KeyEvent>)
        ensures
            r@ == interactive_events(*self),
    {
        let r = match self {
            InteractiveCommand::Quit => vec![
                KeyEvent(KeyCode::Char('q'), Modifiers(NO_MODIFIER)),
                KeyEvent(KeyCode::Char('C'), Modifiers(CTRL_MODIFIER)),
            ],
            InteractiveCommand::Help => vec![KeyEvent(KeyCode::Char('h'), Modifiers(NO_MODIFIER))],
            InteractiveCommand::Reload => vec![
                KeyEvent(KeyCode::Char('r'), Modifiers(NO_MODIFIER)),
            ],
            InteractiveCommand::Stop => vec![KeyEvent(KeyCode::Char('s'), Modifiers(NO_MODIFIER))],
        };
        proof {
            assert(r@ =~= interactive_events(*self));
        }
        r
    }

    /// The terminal command that the shortcut runs: none for the help, which
    /// is only shown.
    fn to_value(&self) -> (r: Option<TerminalCommand>)
        ensures
            match *self {
                InteractiveCommand::Help => r is None,
                InteractiveCommand::Reload => r matches Some(TerminalCommand::Reload(_)),
                InteractiveCommand::Quit => r matches Some(TerminalCommand::Exit),
                InteractiveCommand::Stop => r matches Some(TerminalCommand::Stop(_)),
            },
    {
        match self {
            InteractiveCommand::Help => None,
            InteractiveCommand::Reload => Some(TerminalCommand::Reload(Reload)),
            InteractiveCommand::Quit => Some(TerminalCommand::Exit),
            InteractiveCommand::Stop => Some(TerminalCommand::Stop(Stop)),
        }
    }
}

/// The keys of a shortcut, as shown in the help: each key press shown, joined
/// by commas.
pub open spec fn shortcut_keys(cmd: InteractiveCommand) -> Seq<char> {
    join(interactive_events(cmd).map_values(|e: KeyEvent| key_event_text(e)), ", "@)
}

/// A line of the shortcuts' help: the command's name, its keys, and what it does.
pub struct HelpEntry {
    pub name: String,
    pub shortcuts: String,
    pub about: String,
}

/// The entries of the shortcuts' help, one per command, in order.
pub fn help_entries() -> (r: Vec<HelpEntry>)
    ensures
        r@.len() == all_interactive_commands().len(),
        forall|i: int|
            0 <= i < r@.len() ==> {
                let cmd = all_interactive_commands()[i];
                &&& (#[trigger] r@[i]).name@ == interactive_name(cmd)
                &&& r@[i].shortcuts@ == shortcut_keys(cmd)
                &&& r@[i].about@ == interactive_about(cmd)
            },
{
    let all = InteractiveCommand::all();
    let mut r: Vec<HelpEntry> = Vec::new();
    let mut i: usize = 0;
    while i < all.len()
        invariant
            0 <= i <= all.len(),
            all@ == all_interactive_commands(),
            r@.len() == i,
            forall|j: int|
                0 <= j < i ==> {
                    let cmd = all_interactive_commands()[j];
                    &&& (#[trigger] r@[j]).name@ == interactive_name(cmd)
                    &&& r@[j].shortcuts@ == shortcut_keys(cmd)
                    &&& r@[j].about@ == interactive_about(cmd)
                },
        decreases all.len() - i,
    {
        let cmd = all[i];
        let events = cmd.events();
        let mut keys: Vec<String> = Vec::new();
        let mut k: usize = 0;
        while k < events.len()
            invariant
                0 <= k <= events.len(),
                events@ == interactive_events(cmd),
                keys@.map_values(|s: String| s@) == events@.take(k as int).map_values(
                    |e: KeyEvent| key_event_text(e),
                ),
            decreases events.len() - k,
        {
            let ghost before = keys@;
            keys.push(keyevent_to_string(events[k]));
            proof {
                assert(keys@.map_values(|s: String| s@) =~= before.map_values(|s: String| s@).push(
                    key_event_text(events@[k as int]),
                ));
                assert(events@.take(k + 1).map_values(|e: KeyEvent| key_event_text(e))
                    =~= events@.take(k as int).map_values(|e: KeyEvent| key_event_text(e)).push(
                    key_event_text(events@[k as int]),
                ));
            }
            k += 1;
        }
        proof {
            assert(events@.take(k as int) =~= events@);
        }
        let shortcuts = join_strings(&keys, ", ");
        r.push(HelpEntry { name: cmd.name(), shortcuts, about: cmd.about() });
        i += 1;
    }
    r
}

} // verus!
