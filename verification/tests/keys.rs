use ssm_monitor::app::App;
use ssm_monitor::filters::{AlarmFilter, Mode, Sort};
use ssm_monitor::input::{Action, Key, KeyEvent};
use ssm_monitor::instance::Instance;
use ssm_monitor::names::NameSet;
use ssm_monitor::pane::View;
use ssm_monitor::session::{session_args, session_message, session_notice, SessionEnd};
use ssm_monitor::update::AppCommand;

fn instance(id: &str) -> Instance {
    Instance {
        id: id.to_string(),
        name: "n".to_string(),
        status: "Online".to_string(),
        platform: String::new(),
        platform_version: String::new(),
        ip_address: String::new(),
        agent_version: String::new(),
        last_ping_secs: None,
        alarms: Vec::new(),
    }
}

fn app() -> App {
    App::new(
        vec![instance("i-1"), instance("i-2"), instance("i-3")],
        NameSet::new(),
        "eu".to_string(),
        "dev".to_string(),
        vec!["dev".to_string(), "prod".to_string()],
        0,
    )
}

fn press(app: &mut App, key: Key) -> Action {
    app.on_event(KeyEvent { key, pressed: true })
}

fn typed(app: &mut App, keys: &str) {
    for c in keys.chars() {
        assert!(matches!(press(app, Key::Char(c)), Action::Stay));
    }
}

#[test]
fn q_on_the_list_quits() {
    let mut a = app();
    assert!(matches!(press(&mut a, Key::Char('q')), Action::Quit));
    for mode in [Mode::Filtering, Mode::Detail, Mode::Help, Mode::ProfilePicker] {
        let mut a = app();
        a.mode = mode;
        assert!(!matches!(press(&mut a, Key::Char('q')), Action::Quit));
    }
}

#[test]
fn released_keys_do_nothing() {
    let mut a = app();
    let action = a.on_event(KeyEvent { key: Key::Char('q'), pressed: false });
    assert!(matches!(action, Action::Stay));
    a.on_event(KeyEvent { key: Key::Down, pressed: false });
    assert_eq!(a.table_state.selected, Some(0));
}

#[test]
fn arrows_and_letters_move_the_selection() {
    let mut a = app();
    press(&mut a, Key::Down);
    assert_eq!(a.table_state.selected, Some(1));
    typed(&mut a, "jj");
    assert_eq!(a.table_state.selected, Some(0));
    press(&mut a, Key::Up);
    assert_eq!(a.table_state.selected, Some(2));
    typed(&mut a, "k");
    assert_eq!(a.table_state.selected, Some(1));
}

#[test]
fn side_arrows_and_letters_change_the_view() {
    for key in [Key::Left, Key::Right, Key::Char('h'), Key::Char('l')] {
        let mut a = app();
        press(&mut a, key);
        assert_eq!(a.view, View::Favorites);
        assert_eq!(a.table_state.selected, None);
        press(&mut a, key);
        assert_eq!(a.view, View::All);
        assert_eq!(a.table_state.selected, Some(0));
    }
}

#[test]
fn letters_change_filters_and_order() {
    let mut a = app();
    typed(&mut a, "sao");
    assert_eq!(a.status_filter_idx, 1);
    assert_eq!(a.alarm_filter, AlarmFilter::Alarming);
    assert_eq!(a.sort, Sort::Alarms);
}

#[test]
fn the_find_text_is_edited_until_it_is_left() {
    let mut a = app();
    typed(&mut a, "fi-2qp");
    assert_eq!(a.mode, Mode::Filtering);
    assert_eq!(a.filter_text, "i-2qp");
    assert_eq!(a.table_state.selected, None);
    press(&mut a, Key::Backspace);
    press(&mut a, Key::Backspace);
    assert_eq!(a.filter_text, "i-2");
    assert_eq!(a.selected_id(), Some("i-2".to_string()));
    press(&mut a, Key::Left);
    assert_eq!(a.view, View::All);
    press(&mut a, Key::Enter);
    assert_eq!(a.mode, Mode::Normal);
    assert_eq!(a.filter_text, "i-2");
    typed(&mut a, "f");
    for _ in 0..5 {
        press(&mut a, Key::Backspace);
    }
    assert_eq!(a.filter_text, "");
    press(&mut a, Key::Esc);
    assert_eq!(a.mode, Mode::Normal);
}

#[test]
fn enter_opens_the_details_of_a_selected_row() {
    let mut a = app();
    press(&mut a, Key::Enter);
    assert_eq!(a.mode, Mode::Detail);
    let mut b = app();
    press(&mut b, Key::Right);
    press(&mut b, Key::Enter);
    assert_eq!(b.mode, Mode::Normal);
}

#[test]
fn details_are_closed_with_their_message() {
    for key in [Key::Esc, Key::Char('q')] {
        let mut a = app();
        press(&mut a, Key::Enter);
        a.last_message = Some("m".to_string());
        press(&mut a, key);
        assert_eq!(a.mode, Mode::Normal);
        assert_eq!(a.last_message, None);
    }
}

#[test]
fn details_move_bookmark_and_refresh() {
    let mut a = app();
    press(&mut a, Key::Enter);
    typed(&mut a, "jk");
    press(&mut a, Key::Down);
    assert_eq!(a.selected_id(), Some("i-2".to_string()));
    match press(&mut a, Key::Char('b')) {
        Action::StoreFavorites(text) => assert_eq!(text, "i-2"),
        _ => panic!("bookmarks are stored"),
    }
    assert!(matches!(press(&mut a, Key::Char('r')), Action::Send(AppCommand::Refresh)));
    assert!(matches!(press(&mut a, Key::Char('r')), Action::Stay));
    press(&mut a, Key::Up);
    typed(&mut a, "xs");
    assert_eq!(a.mode, Mode::Detail);
    assert_eq!(a.status_filter_idx, 0);
}

#[test]
fn c_starts_a_session_on_the_selected_instance() {
    let mut a = app();
    typed(&mut a, "c");
    press(&mut a, Key::Down);
    press(&mut a, Key::Enter);
    match press(&mut a, Key::Char('c')) {
        Action::StartSession { instance_id, profile } => {
            assert_eq!(instance_id, "i-2");
            assert_eq!(profile, "dev");
        }
        _ => panic!("a session is started"),
    }
}

#[test]
fn the_help_opens_and_closes() {
    for key in [Key::Esc, Key::Char('q'), Key::Char('?')] {
        let mut a = app();
        typed(&mut a, "?");
        assert_eq!(a.mode, Mode::Help);
        typed(&mut a, "xj");
        assert_eq!(a.mode, Mode::Help);
        press(&mut a, key);
        assert_eq!(a.mode, Mode::Normal);
    }
}

#[test]
fn the_help_opens_from_everywhere() {
    for mode in [Mode::Normal, Mode::Filtering, Mode::Detail, Mode::ProfilePicker] {
        let mut a = app();
        a.filter_text = "i".to_string();
        a.table_state.select(Some(1));
        a.profile_picker_idx = 1;
        a.mode = mode;
        typed(&mut a, "?");
        assert_eq!(a.mode, Mode::Help);
        assert_eq!(a.filter_text, "i");
        assert_eq!(a.table_state.selected, Some(1));
        assert_eq!(a.profile_picker_idx, 1);
    }
}

#[test]
fn p_asks_for_the_profiles() {
    let mut a = app();
    assert!(matches!(press(&mut a, Key::Char('p')), Action::ReadProfiles));
    assert_eq!(a.mode, Mode::Normal);
}

#[test]
fn another_profile_is_switched_to() {
    let mut a = app();
    a.open_profile_picker(vec!["dev".to_string(), "prod".to_string()]);
    press(&mut a, Key::Down);
    match press(&mut a, Key::Enter) {
        Action::Send(AppCommand::SwitchProfile(name)) => assert_eq!(name, "prod"),
        _ => panic!("the profile is switched"),
    }
    assert!(a.is_refreshing);
    assert_eq!(a.mode, Mode::Normal);
    assert_eq!(a.profile, "dev");
}

#[test]
fn the_current_profile_is_not_switched_to() {
    let mut a = app();
    a.open_profile_picker(vec!["dev".to_string(), "prod".to_string()]);
    typed(&mut a, "jkx");
    assert_eq!(a.profile_picker_idx, 0);
    assert!(matches!(press(&mut a, Key::Enter), Action::Stay));
    assert!(!a.is_refreshing);
    assert_eq!(a.mode, Mode::Normal);
}

#[test]
fn the_picker_is_left_without_a_choice() {
    for key in [Key::Esc, Key::Char('q'), Key::Char('p')] {
        let mut a = app();
        a.open_profile_picker(vec!["dev".to_string(), "prod".to_string()]);
        press(&mut a, Key::Up);
        assert_eq!(a.profile_picker_idx, 1);
        assert!(matches!(press(&mut a, key), Action::Stay));
        assert_eq!(a.mode, Mode::Normal);
    }
}

#[test]
fn other_keys_do_nothing() {
    let mut a = app();
    for key in [Key::Esc, Key::Backspace, Key::Other, Key::Char('z')] {
        assert!(matches!(press(&mut a, key), Action::Stay));
    }
    assert_eq!(a.mode, Mode::Normal);
    assert_eq!(a.table_state.selected, Some(0));
}

#[test]
fn a_session_is_run_by_the_command_line() {
    assert_eq!(session_args("i-2"), ["ssm", "start-session", "--target", "i-2"]);
}

#[test]
fn the_end_of_a_session_is_told() {
    let exited = SessionEnd::Exited("exit status: 255".to_string());
    let failed = SessionEnd::LaunchFailed("not found".to_string());
    assert_eq!(session_message(&SessionEnd::Success), None);
    assert_eq!(
        session_message(&exited),
        Some("SSM session exited: exit status: 255".to_string())
    );
    assert_eq!(session_message(&failed), Some("SSM launch failed: not found".to_string()));
    assert!(session_notice(&SessionEnd::Success).is_empty());
    assert_eq!(
        session_notice(&exited),
        ["\nSSM session exited with status exit status: 255. Press Enter to return."]
    );
    assert_eq!(
        session_notice(&failed),
        [
            "\nFailed to launch 'aws ssm start-session': not found",
            "Ensure the aws CLI and the Session Manager plugin are installed.",
            "Press Enter to return."
        ]
    );
}

#[test]
fn the_message_of_a_session_is_kept() {
    let mut a = app();
    a.session_finished(Ok(Some("done".to_string())));
    assert_eq!(a.last_message, Some("done".to_string()));
    a.session_finished(Err("tty".to_string()));
    assert_eq!(a.last_message, Some("Error: tty".to_string()));
    a.session_finished(Ok(None));
    assert_eq!(a.last_message, None);
}

#[test]
fn escape_leads_back_to_the_list() {
    for mode in [Mode::Normal, Mode::Filtering, Mode::Detail, Mode::Help, Mode::ProfilePicker] {
        let mut a = app();
        a.mode = mode;
        assert!(matches!(press(&mut a, Key::Esc), Action::Stay));
        assert_eq!(a.mode, Mode::Normal);
    }
}
