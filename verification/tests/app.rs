use daily_dashboard::input::{
    consumes, dictionary_command, mode_after, move_selection, news_command,
    should_dispatch_global_keymap, wikipedia_command, EditCommand, InputMode, KeyCode,
    KeyModifiers, KeyPress, NewsCommand,
};

fn ctrl() -> KeyModifiers {
    KeyModifiers { control: true, ..KeyModifiers::none() }
}

fn alt() -> KeyModifiers {
    KeyModifiers { alt: true, ..KeyModifiers::none() }
}

#[test]
fn plain_keys_apply_when_not_capturing() {
    let q = KeyPress::new(KeyCode::Char('q'), KeyModifiers::none());
    assert!(should_dispatch_global_keymap(false, &q));
}

#[test]
fn plain_q_is_blocked_while_capturing_input() {
    let q = KeyPress::new(KeyCode::Char('q'), KeyModifiers::none());
    assert!(!should_dispatch_global_keymap(true, &q));
}

#[test]
fn ctrl_chords_still_apply_while_capturing_input() {
    let ctrl_c = KeyPress::new(KeyCode::Char('c'), ctrl());
    let ctrl_d = KeyPress::new(KeyCode::Char('d'), ctrl());
    let ctrl_z = KeyPress::new(KeyCode::Char('z'), ctrl());
    assert!(should_dispatch_global_keymap(true, &ctrl_c));
    assert!(should_dispatch_global_keymap(true, &ctrl_d));
    assert!(should_dispatch_global_keymap(true, &ctrl_z));
}

#[test]
fn alt_chords_still_apply_while_capturing_input() {
    let alt_q = KeyPress::new(KeyCode::Char('q'), alt());
    assert!(should_dispatch_global_keymap(true, &alt_q));
}

#[test]
fn shift_alone_does_not_escape_capture() {
    let shift_q = KeyPress::new(
        KeyCode::Char('Q'),
        KeyModifiers { shift: true, ..KeyModifiers::none() },
    );
    assert!(!should_dispatch_global_keymap(true, &shift_q));
}

#[test]
fn editing_consumes_every_key() {
    for code in [KeyCode::Char('q'), KeyCode::Enter, KeyCode::Esc, KeyCode::Up, KeyCode::Other] {
        let key = KeyPress::plain(code);
        assert!(consumes(dictionary_command(InputMode::Editing, &key)));
        assert!(consumes(wikipedia_command(InputMode::Editing, &key)));
    }
}

#[test]
fn dictionary_normal_mode_opens_editing_on_esc_only() {
    let esc = KeyPress::plain(KeyCode::Esc);
    let c = dictionary_command(InputMode::Normal, &esc);
    assert!(consumes(c));
    assert_eq!(mode_after(InputMode::Normal, c), InputMode::Editing);
    let q = KeyPress::plain(KeyCode::Char('q'));
    let c = dictionary_command(InputMode::Normal, &q);
    assert!(!consumes(c));
    assert_eq!(mode_after(InputMode::Normal, c), InputMode::Normal);
}

#[test]
fn dictionary_editing_enter_submits_and_esc_leaves() {
    let enter = dictionary_command(InputMode::Editing, &KeyPress::plain(KeyCode::Enter));
    assert_eq!(enter, EditCommand::Submit);
    let esc = dictionary_command(InputMode::Editing, &KeyPress::plain(KeyCode::Esc));
    assert_eq!(mode_after(InputMode::Editing, esc), InputMode::Normal);
}

#[test]
fn wikipedia_normal_mode_opens_editing_on_slash_only() {
    let slash = wikipedia_command(InputMode::Normal, &KeyPress::plain(KeyCode::Char('/')));
    assert_eq!(mode_after(InputMode::Normal, slash), InputMode::Editing);
    let esc = wikipedia_command(InputMode::Normal, &KeyPress::plain(KeyCode::Esc));
    assert!(!consumes(esc));
    assert_eq!(mode_after(InputMode::Normal, esc), InputMode::Normal);
}

#[test]
fn news_keys_move_and_open() {
    assert_eq!(news_command(&KeyPress::plain(KeyCode::Down)), NewsCommand::SelectNext);
    assert_eq!(news_command(&KeyPress::plain(KeyCode::Char('j'))), NewsCommand::SelectNext);
    assert_eq!(news_command(&KeyPress::plain(KeyCode::Up)), NewsCommand::SelectPrevious);
    assert_eq!(news_command(&KeyPress::plain(KeyCode::Char('i'))), NewsCommand::SelectPrevious);
    assert_eq!(news_command(&KeyPress::plain(KeyCode::Enter)), NewsCommand::OpenSelected);
    assert_eq!(news_command(&KeyPress::plain(KeyCode::Char('x'))), NewsCommand::Ignore);
}

#[test]
fn move_selection_stays_within_the_list() {
    assert_eq!(move_selection(Some(0), 3, -1), Some(0));
    assert_eq!(move_selection(Some(0), 3, 1), Some(1));
    assert_eq!(move_selection(Some(2), 3, 1), Some(2));
    assert_eq!(move_selection(None, 3, 1), Some(1));
    assert_eq!(move_selection(Some(1), 0, 1), Some(1));
}
