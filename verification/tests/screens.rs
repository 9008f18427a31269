use ssm_monitor::alarm::AlarmInfo;
use ssm_monitor::app::App;
use ssm_monitor::detail_screen::{detail_field, ui_detail};
use ssm_monitor::filters::{AlarmFilter, Mode, Sort};
use ssm_monitor::help_screen::{help_line, help_section, ui_help};
use ssm_monitor::instance::Instance;
use ssm_monitor::layout::{Constraint, Rect};
use ssm_monitor::list_screen::{list_screen, ui_list};
use ssm_monitor::names::NameSet;
use ssm_monitor::pane::View;
use ssm_monitor::picker_screen::ui_profile_picker;
use ssm_monitor::status_bar::top_status_line;
use ssm_monitor::style::{Color, Line, Style};
use ssm_monitor::ui::{ui, ui_at, Screen};

const AREA: Rect = Rect { x: 0, y: 0, width: 100, height: 30 };

fn instance(id: &str, name: &str) -> Instance {
    Instance {
        id: id.to_string(),
        name: name.to_string(),
        status: "Online".to_string(),
        platform: "Ubuntu (Linux)".to_string(),
        platform_version: "22.04".to_string(),
        ip_address: "10.0.0.9".to_string(),
        agent_version: "3.2".to_string(),
        last_ping_secs: Some(1000),
        alarms: Vec::new(),
    }
}

fn app() -> App {
    App::new(
        vec![instance("i-1", "web"), instance("i-2", "db")],
        NameSet::new(),
        "eu-west-1".to_string(),
        "dev".to_string(),
        vec!["dev".to_string(), "prod".to_string()],
        0,
    )
}

fn runs(line: &Line) -> Vec<(String, Style)> {
    line.spans.iter().map(|s| (s.text.clone(), s.style)).collect()
}

fn text(line: &Line) -> String {
    line.spans.iter().map(|s| s.text.as_str()).collect()
}

fn texts(lines: &[Line]) -> Vec<String> {
    lines.iter().map(text).collect()
}

#[test]
fn the_status_line_tells_profile_region_and_freshness() {
    let mut a = app();
    let dim = Style::fg(Color::DarkGray);
    let line = top_status_line(&a, 125_000_000_000);
    assert_eq!(text(&line), " profile: dev  ·  region: eu-west-1  ·  refreshed 2m ago");
    assert_eq!(runs(&line)[1].1, dim);
    assert_eq!(runs(&line)[2], ("dev".to_string(), Style::bold()));
    assert_eq!(runs(&line)[7].1, Style::fg(Color::Green));
    a.is_refreshing = true;
    let line = top_status_line(&a, 0);
    assert_eq!(runs(&line)[7], ("refreshing...".to_string(), Style::fg(Color::Cyan)));
    a.is_refreshing = false;
    a.last_refresh = None;
    a.last_error = Some("denied".to_string());
    let line = top_status_line(&a, 0);
    assert_eq!(runs(&line)[7], ("loaded".to_string(), Style::plain()));
    assert_eq!(runs(&line)[8], ("   ".to_string(), Style::plain()));
    assert_eq!(runs(&line)[9], ("⚠ denied".to_string(), Style::fg(Color::Red)));
    assert_eq!(line.spans.len(), 10);
}

#[test]
fn the_list_shows_tabs_rows_and_filters() {
    let mut a = app();
    a.favorites.insert("i-2".to_string());
    let screen = ui_list(&a, AREA, 1000, 0);
    assert_eq!(screen.tabs, [" ★ Favorites (1) ", " All Instances (2) "]);
    assert_eq!(screen.selected_tab, 1);
    assert_eq!(screen.title, "All  ·  shown 2  ·  sort: Default");
    assert_eq!(screen.header, ["", "ID", "Name", "Alarms", "Status"]);
    assert_eq!(
        screen.columns,
        [
            Constraint::Length(2),
            Constraint::Length(20),
            Constraint::Min(20),
            Constraint::Length(14),
            Constraint::Length(22)
        ]
    );
    assert_eq!(
        runs(&screen.rows[0]),
        [
            ("★".to_string(), Style::fg(Color::Yellow)),
            ("i-2".to_string(), Style::plain()),
            ("db".to_string(), Style::plain()),
            ("-".to_string(), Style::fg(Color::DarkGray)),
            ("Online".to_string(), Style::fg(Color::Green))
        ]
    );
    assert_eq!(texts(&screen.rows), ["★i-2db-Online", " i-1web-Online"]);
    assert!(screen.hint.is_none());
    assert_eq!(screen.filters_title, "Filters");
    assert_eq!(
        screen.filters,
        " [NORMAL]  name/id:     status: All    alarms: All\n ←/→ view · ↑/↓ nav · ? help"
    );
}

#[test]
fn the_filters_are_told() {
    let mut a = app();
    a.mode = Mode::Filtering;
    a.filter_text = "we".to_string();
    a.status_filter_idx = 2;
    a.alarm_filter = AlarmFilter::AnyAlarm;
    a.sort = Sort::Name;
    let screen = ui_list(&a, AREA, 1000, 0);
    assert_eq!(screen.title, "All  ·  shown 0  ·  sort: Name");
    assert_eq!(
        screen.filters,
        " [FILTER]  name/id: we_    status: ConnectionLost    alarms: Has alarms\n ←/→ view · ↑/↓ nav · ? help"
    );
    assert!(screen.hint.is_none());
}

#[test]
fn stale_rows_are_marked() {
    let screen = ui_list(&app(), AREA, 1301, 0);
    assert_eq!(
        runs(&screen.rows[0])[4],
        ("Online (stale)".to_string(), Style::fg(Color::Yellow))
    );
}

#[test]
fn the_list_is_laid_out_from_top_to_bottom() {
    let screen = ui_list(&app(), AREA, 1000, 0);
    let rows: Vec<(u16, u16)> = screen.areas.iter().map(|r| (r.y, r.height)).collect();
    assert_eq!(rows, [(0, 1), (1, 1), (2, 24), (26, 4)]);
    for area in &screen.areas {
        assert_eq!((area.x, area.width), (0, 100));
    }
}

#[test]
fn the_table_takes_what_the_other_parts_leave() {
    for y in [0, 1, 7, 500] {
        for height in (7..120).chain([1000, 65_000]) {
            let area = Rect { x: 2, y, width: 30, height };
            let screen = ui_list(&app(), area, 1000, 0);
            let rows: Vec<(u16, u16)> = screen.areas.iter().map(|r| (r.y, r.height)).collect();
            let expected =
                [(y, 1), (y + 1, 1), (y + 2, height - 6), (y + (height - 4), 4)];
            assert_eq!(rows, expected);
        }
    }
}

#[test]
fn the_details_take_what_the_other_parts_leave() {
    let mut a = app();
    a.mode = Mode::Detail;
    for y in [0, 1, 7, 500] {
        for height in (5..120).chain([1000, 65_000]) {
            let area = Rect { x: 2, y, width: 30, height };
            let screen = ui_detail(&mut a, area, 1000, 0).expect("details");
            let rows: Vec<(u16, u16)> = screen.areas.iter().map(|r| (r.y, r.height)).collect();
            assert_eq!(rows, [(y, 1), (y + 1, height - 4), (y + (height - 3), 3)]);
        }
    }
}

#[test]
fn the_areas_of_a_list_stay_inside_the_screen() {
    for area in [
        Rect { x: 3, y: 5, width: 40, height: 20 },
        Rect { x: 3, y: 5, width: 40, height: 3 },
        Rect { x: 0, y: 9, width: 1, height: 0 },
        Rect { x: 0, y: u16::MAX - 4, width: 9, height: 30 },
    ] {
        let bottom = area.y.saturating_add(area.height);
        let screen = ui_list(&app(), area, 1000, 0);
        assert_eq!(screen.areas.len(), 4);
        for part in &screen.areas {
            assert_eq!((part.x, part.width), (area.x, area.width));
            assert!(area.y <= part.y);
            assert!(part.y + part.height <= bottom);
        }
    }
}

#[test]
fn a_list_without_bookmarks_gives_a_hint() {
    let mut a = app();
    a.switch_view(View::Favorites);
    let screen = ui_list(&a, AREA, 1000, 0);
    assert_eq!(screen.selected_tab, 0);
    assert_eq!(screen.title, "Favorites  ·  shown 0  ·  sort: Default");
    let hint = screen.hint.expect("a hint");
    assert_eq!(hint.area, Rect { x: 1, y: 4, width: 98, height: 20 });
    assert_eq!(
        hint.span.text,
        "\n  No favorites yet — switch to All Instances with → and press b to star one."
    );
    assert_eq!(hint.span.style, Style::fg(Color::DarkGray));
}

#[test]
fn a_hint_without_room_has_an_empty_area() {
    let mut a = app();
    a.switch_view(View::Favorites);
    let flat = Rect { x: 5, y: 6, width: 10, height: 3 };
    let screen = list_screen(&a, vec![flat; 4], 0, 0);
    assert_eq!(screen.hint.map(|h| h.area), Some(Rect { x: 0, y: 0, width: 0, height: 0 }));
    let far = Rect { x: u16::MAX, y: u16::MAX - 1, width: 10, height: 4 };
    let screen = list_screen(&a, vec![far; 4], 0, 0);
    let area = Rect { x: u16::MAX, y: u16::MAX, width: 8, height: 0 };
    assert_eq!(screen.hint.map(|h| h.area), Some(area));
}

#[test]
fn details_tell_every_field() {
    let mut a = app();
    a.mode = Mode::Detail;
    let screen = ui_detail(&mut a, AREA, 1120, 0).expect("details");
    assert_eq!(screen.title, " Instance Details — i-1 (web) ");
    assert_eq!(
        texts(&screen.lines),
        [
            "",
            "  ID:                 i-1",
            "  Name:               web",
            "  Status:             Online",
            "  Platform:           Ubuntu (Linux)",
            "  Platform Version:   22.04",
            "  IP Address:         10.0.0.9",
            "  Agent Version:      3.2",
            "  Last Ping:          2m ago",
            "  Favorite:           no",
            "",
            "  Alarms (0)",
            "    (no alarms attached to this instance)"
        ]
    );
    assert_eq!(screen.lines[3].spans[2].style, Style::fg(Color::Green));
    assert_eq!(screen.lines[11].spans[0].style, Style::bold());
    assert_eq!(screen.actions_title, "Actions");
    let rows: Vec<(u16, u16)> = screen.areas.iter().map(|r| (r.y, r.height)).collect();
    assert_eq!(rows, [(0, 1), (1, 26), (27, 3)]);
}

#[test]
fn details_show_alarms_by_urgency_and_the_message() {
    let mut a = app();
    a.mode = Mode::Detail;
    a.favorites.insert("i-1".to_string());
    a.last_message = Some("SSM session exited: 1".to_string());
    let alarm = |name: &str, state: &str, reason: Option<&str>| AlarmInfo {
        name: name.to_string(),
        state: state.to_string(),
        reason: reason.map(|r| r.to_string()),
    };
    a.all_instances[0].alarms = vec![
        alarm("one", "OK", None),
        alarm("two", "ALARM", Some("too hot")),
        alarm("three", "odd", None),
        alarm("four", "INSUFFICIENT_DATA", Some("")),
        alarm("five", "ALARM", None),
    ];
    let screen = ui_detail(&mut a, AREA, 1000, 0).expect("details");
    assert_eq!(
        texts(&screen.lines[9..]),
        [
            "  Favorite:           ★ yes",
            "",
            "  Alarms (5)",
            "    [ALARM]  two",
            "            too hot",
            "    [ALARM]  five",
            "    [INSUF]  four",
            "    [OK]     one",
            "    [?]      three",
            "",
            "  SSM session exited: 1"
        ]
    );
    assert_eq!(screen.lines[12].spans[1].style, Style::bold_fg(Color::Red));
    assert_eq!(screen.lines[13].spans[1].style, Style::fg(Color::DarkGray));
    assert_eq!(screen.lines[19].spans[1].style, Style::fg(Color::Yellow));
}

#[test]
fn without_an_instance_the_list_comes_back() {
    let mut a = app();
    a.mode = Mode::Detail;
    a.table_state.select(None);
    assert!(ui_detail(&mut a, AREA, 0, 0).is_none());
    assert_eq!(a.mode, Mode::Normal);
}

#[test]
fn the_help_tells_the_keys() {
    let screen = ui_help();
    assert_eq!(screen.title, " Help — press Esc / q / ? to close ");
    assert_eq!(screen.lines.len(), 24);
    assert_eq!(text(&screen.lines[1]), "  Navigation");
    assert_eq!(text(&screen.lines[4]), "    Enter                 open instance details");
    assert_eq!(
        text(&screen.lines[23]),
        "    · SSM session requires the aws CLI and Session Manager plugin"
    );
    assert_eq!(screen.lines[0].spans.len(), 0);
}

#[test]
fn fields_keys_and_headings_are_set_in_columns() {
    let line = detail_field("ID:", "x");
    assert_eq!(line.spans[1].text, "ID:                 ");
    assert_eq!(line.spans[1].style, Style::bold());
    let long = detail_field("a label that is longer than that", "x");
    assert_eq!(long.spans[1].text, "a label that is longer than that");
    let line = help_line("↑", "up");
    assert_eq!(line.spans[1].text.chars().count(), 22);
    assert_eq!(line.spans[1].style, Style::bold_fg(Color::Yellow));
    let line = help_section("Notes");
    assert_eq!(runs(&line), [("  Notes".to_string(), Style::bold_fg(Color::Cyan))]);
}

#[test]
fn the_picker_marks_the_current_and_the_chosen_profile() {
    let mut a = app();
    a.profiles = vec!["a".to_string(), "dev".to_string(), "prod".to_string()];
    a.profile_picker_idx = 2;
    let screen = ui_profile_picker(&a, AREA);
    assert_eq!(screen.area, Rect { x: 25, y: 11, width: 50, height: 7 });
    assert_eq!(texts(&screen.lines), ["   a", " ● dev", "   prod"]);
    assert_eq!(screen.lines[0].spans[0].style, Style::plain());
    assert_eq!(screen.lines[1].spans[0].style, Style::fg(Color::Green));
    let chosen = Style { fg: Some(Color::Black), bg: Some(Color::Yellow), bold: true };
    assert_eq!(screen.lines[2].spans[0].style, chosen);
    assert_eq!(screen.title, " Switch profile — ↑/↓ · Enter to confirm · Esc to cancel ");
    assert_eq!(screen.style, Style { fg: None, bg: Some(Color::Black), bold: false });
}

#[test]
fn the_picker_grows_to_twenty_lines() {
    let mut a = app();
    a.profiles = (0..16).map(|n| n.to_string()).collect();
    assert_eq!(ui_profile_picker(&a, AREA).area.height, 20);
    a.profiles = (0..15).map(|n| n.to_string()).collect();
    assert_eq!(ui_profile_picker(&a, AREA).area.height, 19);
    a.profiles = (0..500).map(|n| n.to_string()).collect();
    assert_eq!(ui_profile_picker(&a, AREA).area.height, 20);
    a.profiles = Vec::new();
    assert_eq!(ui_profile_picker(&a, AREA).area.height, 4);
}

#[test]
fn each_mode_has_its_screen() {
    let mut a = app();
    assert!(matches!(ui(&mut a, AREA, 0), Screen::List(_)));
    a.mode = Mode::Filtering;
    assert!(matches!(ui_at(&mut a, AREA, 0, 0), Screen::List(_)));
    a.mode = Mode::Detail;
    assert!(matches!(ui_at(&mut a, AREA, 0, 0), Screen::Detail(_)));
    a.mode = Mode::Help;
    assert!(matches!(ui_at(&mut a, AREA, 0, 0), Screen::Help(_)));
    a.mode = Mode::ProfilePicker;
    assert!(matches!(ui_at(&mut a, AREA, 0, 0), Screen::Picker(_, _)));
    a.mode = Mode::Detail;
    a.table_state.select(None);
    assert!(matches!(ui(&mut a, AREA, 0), Screen::Blank));
    assert_eq!(a.mode, Mode::Normal);
}
