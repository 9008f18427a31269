use ssm_monitor::alarm::AlarmInfo;
use ssm_monitor::app::{App, TableState};
use ssm_monitor::filters::{AlarmFilter, Mode, Sort};
use ssm_monitor::instance::Instance;
use ssm_monitor::names::NameSet;
use ssm_monitor::pane::View;
use ssm_monitor::update::{request_refresh, AppCommand, DataUpdate};

fn instance(id: &str, name: &str, status: &str, states: &[&str]) -> Instance {
    Instance {
        id: id.to_string(),
        name: name.to_string(),
        status: status.to_string(),
        platform: String::new(),
        platform_version: String::new(),
        ip_address: String::new(),
        agent_version: String::new(),
        last_ping_secs: None,
        alarms: states
            .iter()
            .map(|s| AlarmInfo { name: "a".to_string(), state: s.to_string(), reason: None })
            .collect(),
    }
}

fn fleet() -> Vec<Instance> {
    vec![
        instance("i-1", "web", "Online", &["OK"]),
        instance("i-2", "DB", "ConnectionLost", &["ALARM", "OK"]),
        instance("i-3", "Cache", "Inactive", &[]),
        instance("i-4", "batch", "Online", &["INSUFFICIENT_DATA"]),
        instance("i-5", "db", "Online", &["ALARM"]),
    ]
}

fn app(favorites: &[&str]) -> App {
    let mut set = NameSet::new();
    for id in favorites {
        set.insert(id.to_string());
    }
    App::new(
        fleet(),
        set,
        "eu-west-1".to_string(),
        "default".to_string(),
        vec!["default".to_string(), "prod".to_string()],
        7,
    )
}

fn ids(app: &App) -> Vec<String> {
    app.visible().iter().map(|i| i.id.clone()).collect()
}

#[test]
fn it_starts_with_all_instances_where_nothing_is_bookmarked() {
    let a = app(&[]);
    assert_eq!(a.view, View::All);
    assert_eq!(a.table_state, TableState { offset: 0, selected: Some(0) });
    assert_eq!(a.last_refresh, Some(7));
    assert_eq!(a.mode, Mode::Normal);
    assert_eq!(ids(&a), ["i-1", "i-2", "i-3", "i-4", "i-5"]);
}

#[test]
fn it_starts_with_the_bookmarks_where_there_are_some() {
    let a = app(&["i-4", "i-9"]);
    assert_eq!(a.view, View::Favorites);
    assert_eq!(ids(&a), ["i-4"]);
    assert_eq!(a.selected_id(), Some("i-4".to_string()));
}

#[test]
fn an_empty_list_has_no_selected_row() {
    let mut a = app(&["i-9"]);
    assert_eq!(a.table_state.selected, None);
    assert_eq!(a.selected_id(), None);
    a.table_state.offset = 3;
    a.next();
    assert_eq!(a.table_state, TableState { offset: 0, selected: None });
    a.previous();
    assert_eq!(a.table_state.selected, None);
}

#[test]
fn the_find_text_matches_names_and_ids_in_any_case() {
    let mut a = app(&[]);
    a.filter_text = "dB".to_string();
    assert_eq!(ids(&a), ["i-2", "i-5"]);
    a.filter_text = "I-3".to_string();
    assert_eq!(ids(&a), ["i-3"]);
    a.filter_text = "nothing".to_string();
    assert!(ids(&a).is_empty());
}

#[test]
fn upper_case_letters_are_lowered_beyond_ascii() {
    let mut a = app(&[]);
    a.all_instances.push(instance("i-6", "ÄRGER", "Online", &[]));
    a.filter_text = "ärg".to_string();
    assert_eq!(ids(&a), ["i-6"]);
}

#[test]
fn the_status_filter_comes_round() {
    let mut a = app(&[]);
    let mut seen = Vec::new();
    for _ in 0..4 {
        a.cycle_status();
        seen.push((a.status_filter(), ids(&a).len()));
    }
    assert_eq!(
        seen,
        [
            (Some("Online"), 3),
            (Some("ConnectionLost"), 1),
            (Some("Inactive"), 1),
            (None, 5)
        ]
    );
}

#[test]
fn the_alarm_filter_comes_round() {
    let mut a = app(&[]);
    a.cycle_alarm_filter();
    assert_eq!(a.alarm_filter, AlarmFilter::Alarming);
    assert_eq!(ids(&a), ["i-2", "i-5"]);
    a.cycle_alarm_filter();
    assert_eq!(a.alarm_filter, AlarmFilter::AnyAlarm);
    assert_eq!(ids(&a), ["i-1", "i-2", "i-4", "i-5"]);
    a.cycle_alarm_filter();
    assert_eq!(a.alarm_filter, AlarmFilter::All);
    assert_eq!(ids(&a).len(), 5);
}

#[test]
fn bookmarks_come_first_in_the_default_order() {
    let mut a = app(&["i-5", "i-3"]);
    a.switch_view(View::All);
    assert_eq!(ids(&a), ["i-3", "i-5", "i-1", "i-2", "i-4"]);
}

#[test]
fn the_order_by_alarms_counts_the_urgent_ones_first() {
    let mut a = app(&[]);
    a.sort = Sort::Alarms;
    assert_eq!(ids(&a), ["i-2", "i-5", "i-4", "i-1", "i-3"]);
}

#[test]
fn the_order_by_status_keeps_the_order_of_equals() {
    let mut a = app(&[]);
    a.sort = Sort::Status;
    assert_eq!(ids(&a), ["i-2", "i-3", "i-1", "i-4", "i-5"]);
}

#[test]
fn the_order_by_name_ignores_case() {
    let mut a = app(&[]);
    a.sort = Sort::Name;
    assert_eq!(ids(&a), ["i-4", "i-3", "i-2", "i-5", "i-1"]);
}

#[test]
fn sort_orders_come_round_and_keep_the_selection() {
    let mut a = app(&[]);
    a.table_state.select(Some(2));
    for sort in [Sort::Alarms, Sort::Status, Sort::Name, Sort::Default] {
        a.cycle_sort();
        assert_eq!(a.sort, sort);
        assert_eq!(a.selected_id(), Some("i-3".to_string()));
    }
    assert_eq!(a.table_state.selected, Some(2));
}

#[test]
fn names_of_orders_filters_and_views() {
    assert_eq!(Sort::Default.label(), "Default");
    assert_eq!(Sort::Alarms.label(), "Alarms");
    assert_eq!(Sort::Status.label(), "Status");
    assert_eq!(Sort::Name.label(), "Name");
    assert_eq!(Sort::Name.next(), Sort::Default);
    assert_eq!(AlarmFilter::All.label(), "All");
    assert_eq!(AlarmFilter::Alarming.label(), "Alarming");
    assert_eq!(AlarmFilter::AnyAlarm.label(), "Has alarms");
    assert_eq!(AlarmFilter::AnyAlarm.next(), AlarmFilter::All);
    assert_eq!(View::All.toggle(), View::Favorites);
    assert_eq!(View::All.toggle().toggle(), View::All);
}

#[test]
fn moving_goes_round_the_list() {
    let mut a = app(&[]);
    let mut rows = Vec::new();
    for _ in 0..5 {
        a.next();
        rows.push(a.table_state.selected);
    }
    assert_eq!(rows, [Some(1), Some(2), Some(3), Some(4), Some(0)]);
    a.previous();
    assert_eq!(a.table_state.selected, Some(4));
    a.next();
    assert_eq!(a.table_state.selected, Some(0));
    a.table_state.select(None);
    a.previous();
    assert_eq!(a.table_state.selected, Some(4));
}

#[test]
fn moving_up_goes_round_the_other_way() {
    let mut a = app(&[]);
    a.table_state.select(Some(1));
    let mut rows = Vec::new();
    for _ in 0..5 {
        a.previous();
        rows.push(a.table_state.selected);
    }
    assert_eq!(rows, [Some(0), Some(4), Some(3), Some(2), Some(1)]);
}

#[test]
fn another_view_keeps_the_selection_where_it_can() {
    let mut a = app(&["i-2", "i-5"]);
    a.next();
    assert_eq!(a.selected_id(), Some("i-5".to_string()));
    a.switch_view(View::All);
    assert_eq!(a.selected_id(), Some("i-5".to_string()));
    a.table_state.select(Some(4));
    assert_eq!(a.selected_id(), Some("i-4".to_string()));
    a.switch_view(View::Favorites);
    assert_eq!(a.table_state.selected, Some(0));
    a.switch_view(View::Favorites);
    assert_eq!(a.view, View::Favorites);
}

#[test]
fn the_bookmark_of_one_instance_changes() {
    let mut a = app(&["i-5"]);
    a.switch_view(View::All);
    a.table_state.select(Some(2));
    assert_eq!(a.selected_id(), Some("i-2".to_string()));
    assert_eq!(a.toggle_favorite(), Some("i-2\ni-5".to_string()));
    assert_eq!(a.selected_id(), Some("i-2".to_string()));
    assert_eq!(ids(&a), ["i-2", "i-5", "i-1", "i-3", "i-4"]);
    assert_eq!(a.toggle_favorite(), Some("i-5".to_string()));
    assert_eq!(a.favorites.to_list(), ["i-5"]);
    assert_eq!(a.selected_id(), Some("i-2".to_string()));
}

#[test]
fn without_bookmarks_all_instances_are_listed() {
    let mut a = app(&["i-5"]);
    assert_eq!(a.view, View::Favorites);
    assert_eq!(a.toggle_favorite(), Some(String::new()));
    assert_eq!(a.view, View::All);
    assert_eq!(a.selected_id(), Some("i-5".to_string()));
}

#[test]
fn an_instance_that_leaves_the_bookmarks_leaves_the_list() {
    let mut a = app(&["i-1", "i-5"]);
    a.next();
    a.toggle_favorite();
    assert_eq!(a.view, View::Favorites);
    assert_eq!(ids(&a), ["i-1"]);
    assert_eq!(a.table_state.selected, Some(0));
}

#[test]
fn without_a_selected_row_nothing_is_bookmarked() {
    let mut a = app(&["i-9"]);
    assert_eq!(a.toggle_favorite(), None);
    assert_eq!(a.favorites.to_list(), ["i-9"]);
}

#[test]
fn a_refresh_keeps_the_selected_instance() {
    let mut a = app(&[]);
    a.table_state.select(Some(3));
    a.is_refreshing = true;
    a.last_error = Some("old".to_string());
    let mut list = fleet();
    list.reverse();
    a.apply_update(DataUpdate::Loaded(list), 99);
    assert_eq!(a.selected_id(), Some("i-4".to_string()));
    assert_eq!(a.table_state.selected, Some(1));
    assert_eq!(a.last_refresh, Some(99));
    assert_eq!(a.last_error, None);
    assert!(!a.is_refreshing);
    a.apply_update(DataUpdate::Loaded(vec![instance("i-7", "x", "Online", &[])]), 100);
    assert_eq!(a.table_state.selected, Some(0));
    a.apply_update(DataUpdate::Loaded(Vec::new()), 101);
    assert_eq!(a.table_state.selected, None);
}

#[test]
fn a_failed_refresh_is_told_and_keeps_the_list() {
    let mut a = app(&[]);
    a.is_refreshing = true;
    a.apply_update(DataUpdate::Failed("no network".to_string()), 99);
    assert_eq!(a.last_error, Some("no network".to_string()));
    assert!(!a.is_refreshing);
    assert_eq!(a.last_refresh, Some(7));
    assert_eq!(ids(&a).len(), 5);
}

#[test]
fn a_new_profile_is_taken_over() {
    let mut a = app(&[]);
    a.is_refreshing = true;
    a.last_error = Some("old".to_string());
    a.apply_update(
        DataUpdate::ProfileSwitched {
            profile: "prod".to_string(),
            region: "us-east-1".to_string(),
        },
        99,
    );
    assert_eq!(a.profile, "prod");
    assert_eq!(a.region, "us-east-1");
    assert_eq!(a.last_error, None);
    assert!(a.is_refreshing);
}

#[test]
fn one_refresh_is_asked_for_at_a_time() {
    let mut a = app(&[]);
    assert!(matches!(request_refresh(&mut a), Some(AppCommand::Refresh)));
    assert!(a.is_refreshing);
    assert!(request_refresh(&mut a).is_none());
    assert!(a.is_refreshing);
}

#[test]
fn the_picker_opens_at_the_current_profile_and_goes_round() {
    let mut a = app(&[]);
    a.profile = "b".to_string();
    a.open_profile_picker(vec!["a".to_string(), "b".to_string(), "c".to_string()]);
    assert_eq!(a.mode, Mode::ProfilePicker);
    assert_eq!(a.profile_picker_idx, 1);
    a.picker_next();
    a.picker_next();
    assert_eq!(a.profile_picker_idx, 0);
    a.picker_previous();
    assert_eq!(a.profile_picker_idx, 2);
    a.profile = "z".to_string();
    a.open_profile_picker(vec!["a".to_string()]);
    assert_eq!(a.profile_picker_idx, 0);
}

#[test]
fn without_profiles_the_picker_stays_closed() {
    let mut a = app(&[]);
    a.open_profile_picker(Vec::new());
    assert_eq!(a.mode, Mode::Normal);
    assert_eq!(a.last_error, Some("No profiles found in ~/.aws".to_string()));
    a.picker_next();
    a.picker_previous();
    assert_eq!(a.profile_picker_idx, 0);
}

#[test]
fn an_instance_is_found_by_its_id() {
    let a = app(&[]);
    assert_eq!(a.instance_by_id("i-3").map(|i| i.name.clone()), Some("Cache".to_string()));
    assert!(a.instance_by_id("i-0").is_none());
}

#[test]
fn a_refresh_keeps_filters_order_view_and_bookmarks() {
    let mut a = app(&["i-2"]);
    a.mode = Mode::Detail;
    a.cycle_status();
    a.cycle_alarm_filter();
    a.cycle_sort();
    a.filter_text = "b".to_string();
    a.apply_update(DataUpdate::Loaded(fleet()), 99);
    assert_eq!(a.mode, Mode::Detail);
    assert_eq!(a.status_filter_idx, 1);
    assert_eq!(a.alarm_filter, AlarmFilter::Alarming);
    assert_eq!(a.sort, Sort::Alarms);
    assert_eq!(a.filter_text, "b");
    assert_eq!(a.view, View::Favorites);
    assert_eq!(a.favorites.to_list(), ["i-2"]);
}

#[test]
fn erasing_what_was_typed_lists_the_same_rows() {
    let mut a = app(&[]);
    a.type_char('d');
    let before = ids(&a);
    a.type_char('x');
    assert!(ids(&a).is_empty());
    assert_eq!(a.table_state.selected, None);
    a.erase_char();
    assert_eq!(ids(&a), before);
    assert_eq!(a.table_state.selected, Some(0));
}
