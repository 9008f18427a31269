use ssm_monitor::alarm::{
    alarm_state_label, alarm_state_style, rank_of_state, AlarmInfo, AlarmSummary,
};
use ssm_monitor::clock::now_secs;
use ssm_monitor::instance::{
    rank_of_status, status_label_at, status_label_for, status_style_at, status_style_for,
    Instance,
};
use ssm_monitor::style::{Color, Style};

fn alarm(state: &str) -> AlarmInfo {
    AlarmInfo { name: "cpu".to_string(), state: state.to_string(), reason: None }
}

fn instance(status: &str, last_ping_secs: Option<i64>) -> Instance {
    Instance {
        id: "i-1".to_string(),
        name: "web".to_string(),
        status: status.to_string(),
        platform: String::new(),
        platform_version: String::new(),
        ip_address: String::new(),
        agent_version: String::new(),
        last_ping_secs,
        alarms: Vec::new(),
    }
}

#[test]
fn alarms_are_counted_by_state() {
    let mut inst = instance("Online", None);
    for state in ["OK", "ALARM", "INSUFFICIENT_DATA", "ALARM", "OTHER", "OK", "OK"] {
        inst.alarms.push(alarm(state));
    }
    let summary = inst.alarm_summary();
    assert_eq!(summary, AlarmSummary { ok: 3, alarm: 2, insufficient: 1 });
    assert_eq!(summary.total(), 6);
}

#[test]
fn the_label_names_the_most_urgent_state() {
    let label = |ok: usize, alarm: usize, insufficient: usize| {
        AlarmSummary { ok, alarm, insufficient }.label()
    };
    assert_eq!(label(0, 0, 0), "-");
    assert_eq!(label(3, 0, 0), "OK(3)");
    assert_eq!(label(3, 0, 12), "INSUF(12)");
    assert_eq!(label(3, 105, 12), "ALARM(105)");
}

#[test]
fn the_style_follows_the_most_urgent_state() {
    let style = |ok: usize, alarm: usize, insufficient: usize| {
        AlarmSummary { ok, alarm, insufficient }.style()
    };
    assert_eq!(style(0, 0, 0), Style::fg(Color::DarkGray));
    assert_eq!(style(1, 0, 0), Style::fg(Color::Green));
    assert_eq!(style(1, 0, 1), Style::fg(Color::Yellow));
    assert_eq!(style(1, 1, 1), Style::bold_fg(Color::Red));
}

#[test]
fn the_empty_summary_is_the_default() {
    assert_eq!(AlarmSummary::default(), AlarmSummary { ok: 0, alarm: 0, insufficient: 0 });
}

#[test]
fn alarm_states_have_tags_styles_and_ranks() {
    assert_eq!(alarm_state_label("OK"), "[OK]   ");
    assert_eq!(alarm_state_label("ALARM"), "[ALARM]");
    assert_eq!(alarm_state_label("INSUFFICIENT_DATA"), "[INSUF]");
    assert_eq!(alarm_state_label("ok"), "[?]    ");
    assert_eq!(alarm_state_style("OK"), Style::fg(Color::Green));
    assert_eq!(alarm_state_style("ALARM"), Style::bold_fg(Color::Red));
    assert_eq!(alarm_state_style("INSUFFICIENT_DATA"), Style::fg(Color::Yellow));
    assert_eq!(alarm_state_style(""), Style::fg(Color::DarkGray));
    assert_eq!(rank_of_state("ALARM"), 0);
    assert_eq!(rank_of_state("INSUFFICIENT_DATA"), 1);
    assert_eq!(rank_of_state("OK"), 2);
    assert_eq!(rank_of_state("x"), 3);
}

#[test]
fn statuses_have_ranks() {
    assert_eq!(rank_of_status("ConnectionLost"), 0);
    assert_eq!(rank_of_status("Inactive"), 1);
    assert_eq!(rank_of_status("Online"), 2);
    assert_eq!(rank_of_status(""), 3);
}

#[test]
fn an_online_instance_goes_stale_after_five_minutes() {
    let now = 10_000;
    assert!(!instance("Online", Some(now - 300)).is_stale_at(now));
    assert!(instance("Online", Some(now - 301)).is_stale_at(now));
    assert!(!instance("Inactive", Some(0)).is_stale_at(now));
    assert!(!instance("Online", None).is_stale_at(now));
}

#[test]
fn a_stale_instance_is_marked_in_yellow() {
    let inst = instance("Online", Some(0));
    assert_eq!(status_label_at(&inst, 301), "Online (stale)");
    assert_eq!(status_style_at(&inst, 301), Style::fg(Color::Yellow));
    assert_eq!(status_label_at(&inst, 300), "Online");
    assert_eq!(status_style_at(&inst, 300), Style::fg(Color::Green));
}

#[test]
fn statuses_have_colours() {
    assert_eq!(status_style_at(&instance("ConnectionLost", None), 0), Style::fg(Color::Red));
    assert_eq!(status_style_at(&instance("Inactive", None), 0), Style::fg(Color::DarkGray));
    assert_eq!(status_style_at(&instance("Else", None), 0), Style::fg(Color::Yellow));
}

#[test]
fn staleness_goes_by_the_system_clock() {
    let fresh = instance("Online", Some(now_secs()));
    let old = instance("Online", Some(now_secs() - 4000));
    assert!(!fresh.is_stale());
    assert!(old.is_stale());
    assert_eq!(status_label_for(&fresh), "Online");
    assert_eq!(status_label_for(&old), "Online (stale)");
    assert_eq!(status_style_for(&fresh), Style::fg(Color::Green));
    assert_eq!(status_style_for(&old), Style::fg(Color::Yellow));
    assert_eq!(old.last_ping_str(), "1h ago");
}

#[test]
fn the_last_ping_is_told() {
    assert_eq!(instance("Online", None).last_ping_str(), "never");
    assert_eq!(instance("Online", None).last_ping_str_at(5), "never");
    assert_eq!(instance("Online", Some(100)).last_ping_str_at(220), "2m ago");
}
