use lenra_cli::cli::dev::interactive::{help_entries, InteractiveCommand};
use lenra_cli::keyboard_event::{
    keycode_to_string, keyevent_to_string, KeyCode, KeyEvent, Modifiers, ALT_MODIFIER,
    CTRL_MODIFIER, NO_MODIFIER, SHIFT_MODIFIER,
};

#[test]
fn key_names() {
    assert_eq!(keycode_to_string(KeyCode::Char('q')), "Q");
    assert_eq!(keycode_to_string(KeyCode::F(5)), "F5");
    assert_eq!(keycode_to_string(KeyCode::PageDown), "Page Down");
    assert_eq!(
        keyevent_to_string(KeyEvent(KeyCode::Char('C'), Modifiers(CTRL_MODIFIER))),
        "Ctrl+C"
    );
    assert_eq!(
        keyevent_to_string(KeyEvent(
            KeyCode::Enter,
            Modifiers(CTRL_MODIFIER | ALT_MODIFIER | SHIFT_MODIFIER)
        )),
        "Ctrl+Alt+Shift+Enter"
    );
    assert_eq!(keyevent_to_string(KeyEvent(KeyCode::Esc, Modifiers(NO_MODIFIER))), "Esc");
}

#[test]
fn shortcuts_help() {
    let entries = help_entries();
    let lines: Vec<(String, String, String)> = entries
        .into_iter()
        .map(|e| (e.name, e.shortcuts, e.about))
        .collect();
    assert_eq!(
        lines,
        vec![
            ("Help".into(), "H".into(), "Print this message".into()),
            (
                "Reload".into(),
                "R".into(),
                "Reload the app by rebuilding and restarting it".into()
            ),
            ("Quit".into(), "Q, Ctrl+C".into(), "Quit the interactive mode".into()),
            (
                "Stop".into(),
                "S".into(),
                "Stop your app previously started with the start command".into()
            ),
        ]
    );
    assert_eq!(InteractiveCommand::Reload.name(), "Reload");
}
