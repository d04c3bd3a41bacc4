use lenra_cli::cli::dev::terminal::shortcut_command;
use lenra_cli::cli::check::Check;
use lenra_cli::cli::dev::terminal::{
    DevTermAction, DevTermCommand, DevTermContext, DevTermRun, DevTerminal, Expose,
};
use lenra_cli::cli::dev::{DevAction, DevMode};
use lenra_cli::cli::logs::Logs;
use lenra_cli::cli::stop::Stop;
use lenra_cli::cli::terminal::{
    command_line_args, terminal_step, TerminalCommand, TerminalInput, TerminalSession, TerminalStep,
};
use lenra_cli::cli::CommandContext;
use lenra_cli::docker_compose::Service;

fn context(expose: Vec<Service>) -> DevTermContext {
    DevTermContext { config: "lenra.yml".into(), expose }
}

#[test]
fn terminal_lines() {
    assert!(matches!(terminal_step(&TerminalInput::Line("   ".into())), TerminalStep::ReadAgain));
    match terminal_step(&TerminalInput::Line("logs --follow app".into())) {
        TerminalStep::Run(args) => assert_eq!(args, vec!["lenra", "logs", "--follow", "app"]),
        other => panic!("unexpected {:?}", other),
    }
    match terminal_step(&TerminalInput::Line("  lenra   build ".into())) {
        TerminalStep::Run(args) => assert_eq!(args, vec!["lenra", "build"]),
        other => panic!("unexpected {:?}", other),
    }
    assert!(matches!(terminal_step(&TerminalInput::Interrupted), TerminalStep::End));
    assert!(matches!(terminal_step(&TerminalInput::Eof), TerminalStep::End));
    assert!(matches!(terminal_step(&TerminalInput::Failed("e".into())), TerminalStep::End));
    assert!(command_line_args("").is_empty());
}

#[test]
fn terminal_keeps_running() {
    assert!(!TerminalCommand::Exit.keeps_running());
    assert!(!TerminalCommand::Stop(Stop).keeps_running());
    assert!(TerminalCommand::Logs(Logs::default()).keeps_running());
}

#[test]
fn dev_terminal_starts_on_the_logs() {
    let mut t = DevTerminal::new(&context(vec![]), false, "2024-01-01T00:00:00Z".into());
    match t.next() {
        DevTermAction::FollowLogs(logs) => {
            assert!(logs.follow);
            assert_eq!(logs.services, vec![Service::App]);
            assert!(logs.since.is_none());
        }
        other => panic!("unexpected {:?}", other),
    }
    assert!(matches!(t.next(), DevTermAction::ReadLine));
    let bare = DevTerminal::new(&context(vec![]), true, "t".into());
    assert!(bare.pending.is_none());
}

#[test]
fn dev_terminal_reload_then_continue() {
    let mut t = DevTerminal::new(&context(vec![]), true, "t0".into());
    t.logs_ended("t1".into(), Some(DevTermCommand::Reload));
    assert!(matches!(t.next(), DevTermAction::Run(DevTermCommand::Reload)));
    match t.next() {
        DevTermAction::FollowLogs(logs) => assert_eq!(logs.since, Some("t1".to_string())),
        other => panic!("unexpected {:?}", other),
    }
    assert!(matches!(t.next(), DevTermAction::ReadLine));
}

#[test]
fn dev_terminal_commands() {
    let mut t = DevTerminal::new(&context(vec![Service::App]), true, "t0".into());
    let once = Logs { tail: "10".into(), ..Default::default() };
    assert!(matches!(t.dispatch(DevTermCommand::Logs(once)), DevTermAction::ShowLogs(_)));
    let follow = Logs { follow: true, services: vec![Service::Mongo], ..Default::default() };
    assert!(matches!(t.dispatch(DevTermCommand::Logs(follow)), DevTermAction::FollowLogs(_)));
    assert_eq!(t.previous_log.services, vec![Service::Mongo]);
    assert!(matches!(t.dispatch(DevTermCommand::Exit), DevTermAction::End));
    assert!(matches!(t.dispatch(DevTermCommand::Stop), DevTermAction::End));
    let check = DevTermCommand::Check(Check::default());
    assert!(matches!(t.dispatch(check), DevTermAction::Run(DevTermCommand::Check(_))));
}

#[test]
fn dev_command_plans() {
    let exposed = context(vec![Service::App]);
    let hidden = context(vec![]);
    match DevTermCommand::Check(Check { strict: true, ..Default::default() }).plan(&exposed) {
        DevTermRun::Check(c) => assert!(c.strict),
        other => panic!("unexpected {:?}", other),
    }
    match DevTermCommand::Check(Check::default()).plan(&hidden) {
        DevTermRun::Refuse(m) => assert_eq!(
            m,
            "The check commands can't run if the ports are not exposed. Run the expose command first"
        ),
        other => panic!("unexpected {:?}", other),
    }
    match DevTermCommand::Expose(Expose::default()).plan(&hidden) {
        DevTermRun::Expose(services, ctx) => {
            assert_eq!(services, vec![Service::App, Service::Postgres, Service::Mongo]);
            assert_eq!(ctx.expose, services);
            assert_eq!(ctx.config, "lenra.yml");
        }
        other => panic!("unexpected {:?}", other),
    }
    match DevTermCommand::Reload.plan(&exposed) {
        DevTermRun::Reload(services) => assert_eq!(services, vec![Service::App]),
        other => panic!("unexpected {:?}", other),
    }
    match DevTermCommand::Continue.plan(&exposed) {
        DevTermRun::Warn(m) => assert_eq!(m, "The continue command should not be run"),
        other => panic!("unexpected {:?}", other),
    }
    let mut t = DevTerminal::new(&hidden, true, "t".into());
    assert_eq!(t.command_ran(Ok(Some(context(vec![Service::Postgres])))), None);
    assert_eq!(t.context.expose, vec![Service::Postgres]);
    assert_eq!(t.command_ran(Ok(None)), None);
    assert_eq!(t.context.expose, vec![Service::Postgres]);
    assert_eq!(t.command_ran(Err("The reload failed".to_string())), Some("The reload failed".to_string()));
    assert_eq!(t.context.expose, vec![Service::Postgres]);
    assert!(matches!(t.next(), DevTermAction::ReadLine));
}

#[test]
fn dev_mode_shows_new_logs() {
    let mut mode = DevMode::new();
    match mode.next() {
        DevAction::ShowLogs(logs) => {
            assert!(logs.follow);
            assert!(logs.since.is_none());
        }
        other => panic!("unexpected {:?}", other),
    }
    mode.logs_ended("t1".into(), Some(TerminalCommand::Exit));
    assert!(matches!(mode.next(), DevAction::Run(TerminalCommand::Exit)));
    match mode.next() {
        DevAction::ShowLogs(logs) => assert_eq!(logs.since, Some("t1".to_string())),
        other => panic!("unexpected {:?}", other),
    }
}

#[test]
fn terminal_session_runs_until_exit() {
    let mut session = TerminalSession::new(CommandContext::default());
    assert!(session.running);
    assert!(matches!(session.read(&TerminalInput::Line("   ".to_string())), TerminalStep::ReadAgain));
    match session.read(&TerminalInput::Line("expose app".to_string())) {
        TerminalStep::Run(args) => assert_eq!(args, vec!["lenra", "expose", "app"]),
        other => panic!("unexpected {:?}", other),
    }
    let expose = TerminalCommand::Expose(lenra_cli::cli::terminal::Expose { services: vec![Service::App] });
    assert_eq!(session.ran(&expose, Ok(Some(vec![Service::App]))), None);
    assert_eq!(session.context.expose, vec![Service::App]);
    assert_eq!(
        session.ran(&expose, Err("Error while requesting: down".to_string())),
        Some("Error while requesting: down".to_string())
    );
    assert_eq!(session.context.expose, vec![Service::App]);
    assert!(session.running);
    match session.read(&TerminalInput::Line("lenra exit".to_string())) {
        TerminalStep::Run(args) => assert_eq!(args, vec!["lenra", "exit"]),
        other => panic!("unexpected {:?}", other),
    }
    assert_eq!(session.ran(&TerminalCommand::Exit, Ok(None)), None);
    assert!(!session.running);
}

#[test]
fn terminal_session_ends_with_input() {
    let mut session = TerminalSession::new(CommandContext::default());
    assert!(matches!(session.read(&TerminalInput::Eof), TerminalStep::End));
    assert!(!session.running);
    let mut session = TerminalSession::new(CommandContext::default());
    assert!(matches!(session.read(&TerminalInput::Interrupted), TerminalStep::End));
    assert!(!session.running);
}

#[test]
fn lenra_prefix_gives_same_arguments() {
    assert_eq!(command_line_args("exit"), command_line_args("lenra exit"));
    assert_eq!(command_line_args("logs  app"), command_line_args("lenra logs app"));
    assert_ne!(command_line_args("lenra exit"), command_line_args("lenra lenra exit"));
}

#[test]
fn dev_terminal_run_after_failed_reload() {
    let mut t = DevTerminal::new(&context(vec![Service::App]), true, "t0".into());
    t.logs_ended("t1".into(), Some(DevTermCommand::Reload));
    assert!(matches!(t.next(), DevTermAction::Run(DevTermCommand::Reload)));
    let shown = t.command_ran(Err("The command execution failed: docker compose build".into()));
    assert_eq!(shown, Some("The command execution failed: docker compose build".to_string()));
    assert_eq!(t.context.expose, vec![Service::App]);
    match t.next() {
        DevTermAction::FollowLogs(logs) => assert_eq!(logs.since, Some("t1".to_string())),
        other => panic!("unexpected {:?}", other),
    }
    t.logs_ended("t2".into(), None);
    assert!(matches!(t.next(), DevTermAction::ReadLine));
    match t.dispatch(DevTermCommand::Continue) {
        DevTermAction::FollowLogs(logs) => assert_eq!(logs.since, Some("t2".to_string())),
        other => panic!("unexpected {:?}", other),
    }
    assert!(matches!(t.dispatch(DevTermCommand::Exit), DevTermAction::End));
}

#[test]
fn terminal_history_file() {
    assert_eq!(
        lenra_cli::cli::terminal::history_file(Some("/home/u/.config".to_string())).unwrap(),
        "/home/u/.config/lenra/dev.history"
    );
    match lenra_cli::cli::terminal::history_file(None) {
        Err(lenra_cli::errors::Error::Custom(m)) => assert_eq!(m, "Can't get the user config directory"),
        other => panic!("unexpected {:?}", other),
    }
}

#[test]
fn shortcut_commands_of_dev_terminal() {
    assert!(matches!(
        shortcut_command(&TerminalCommand::Reload(lenra_cli::cli::reload::Reload)),
        Some(DevTermCommand::Reload)
    ));
    assert!(matches!(shortcut_command(&TerminalCommand::Stop(Stop)), Some(DevTermCommand::Stop)));
    assert!(matches!(shortcut_command(&TerminalCommand::Exit), Some(DevTermCommand::Exit)));
    assert!(shortcut_command(&TerminalCommand::Logs(Logs::default())).is_none());
}
