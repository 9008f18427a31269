use ssm_monitor::coordinator::{apply_command, Step, StepEvent, REFRESH_INTERVAL_SECS};
use ssm_monitor::fleet::{
    ec2_ids, id_chunks, platform_label, region_label, AlarmIndex, InstanceInformation, Label,
    MetricAlarm, NameIndex, TaggedInstance,
};
use ssm_monitor::instance::Instance;
use ssm_monitor::loading::{Load, LoadEvent};
use ssm_monitor::update::{AppCommand, DataUpdate};

fn some(s: &str) -> Option<String> {
    Some(s.to_string())
}

fn info(id: &str) -> InstanceInformation {
    InstanceInformation {
        instance_id: some(id),
        computer_name: some("host"),
        name: some("alias"),
        ping_status: some("Online"),
        platform_type: some("Linux"),
        platform_name: some("Amazon Linux"),
        platform_version: some("2023"),
        ip_address: some("10.0.0.1"),
        agent_version: some("3.2"),
        last_ping_secs: Some(42),
    }
}

fn label(key: &str, value: Option<&str>) -> Label {
    Label { key: some(key), value: value.map(|v| v.to_string()) }
}

fn tagged(id: Option<&str>, tags: Vec<Label>) -> TaggedInstance {
    TaggedInstance { instance_id: id.map(|i| i.to_string()), tags }
}

fn alarm(name: &str, dimensions: Vec<Label>) -> MetricAlarm {
    MetricAlarm {
        alarm_name: some(name),
        state_value: some("ALARM"),
        state_reason: some("why"),
        dimensions,
    }
}

fn loaded(load: Load) -> Vec<Instance> {
    match load {
        Load::Loaded(list) => list,
        _ => panic!("the fleet is loaded"),
    }
}

#[test]
fn a_report_becomes_an_instance() {
    let load = Load::start().next(LoadEvent::InstancePage(vec![info("i-1")]));
    let Load::Instances(list) = load else { panic!("instances are read") };
    let inst = &list[0];
    assert_eq!(inst.id, "i-1");
    assert_eq!(inst.name, "host");
    assert_eq!(inst.status, "Online");
    assert_eq!(inst.platform, "Amazon Linux (Linux)");
    assert_eq!(inst.platform_version, "2023");
    assert_eq!(inst.ip_address, "10.0.0.1");
    assert_eq!(inst.agent_version, "3.2");
    assert_eq!(inst.last_ping_secs, Some(42));
    assert!(inst.alarms.is_empty());
}

#[test]
fn what_a_report_lacks_is_empty() {
    let bare = InstanceInformation {
        instance_id: None,
        computer_name: None,
        name: some("alias"),
        ping_status: None,
        platform_type: None,
        platform_name: None,
        platform_version: None,
        ip_address: None,
        agent_version: None,
        last_ping_secs: None,
    };
    let load = Load::start().next(LoadEvent::InstancePage(vec![bare]));
    let Load::Instances(list) = load else { panic!("instances are read") };
    assert_eq!(list[0].id, "");
    assert_eq!(list[0].name, "alias");
    assert_eq!(list[0].status, "");
    assert_eq!(list[0].platform, "");
    assert_eq!(list[0].last_ping_secs, None);
}

#[test]
fn the_platform_leaves_out_what_is_empty() {
    let platform = |name: &str, kind: &str| platform_label(name.to_string(), kind.to_string());
    assert_eq!(platform("Ubuntu", "Linux"), "Ubuntu (Linux)");
    assert_eq!(platform("Ubuntu", ""), "Ubuntu");
    assert_eq!(platform("", "Linux"), "Linux");
    assert_eq!(platform("", ""), "");
}

#[test]
fn names_come_from_the_first_name_tag() {
    let mut names = NameIndex::new();
    names.add_page(&vec![
        tagged(Some("i-1"), vec![label("env", Some("x")), label("Name", Some("web")), label("Name", Some("no"))]),
        tagged(Some("i-2"), vec![label("name", Some("lower"))]),
        tagged(Some("i-3"), vec![label("Name", Some(""))]),
        tagged(Some("i-4"), vec![label("Name", None), label("Name", Some("late"))]),
        tagged(None, vec![label("Name", Some("lost"))]),
    ]);
    assert_eq!(names.get("i-1"), Some(&"web".to_string()));
    for id in ["i-2", "i-3", "i-4", ""] {
        assert_eq!(names.get(id), None);
    }
    names.add_page(&vec![tagged(Some("i-1"), vec![label("Name", Some("newer"))])]);
    assert_eq!(names.get("i-1"), Some(&"newer".to_string()));
}

#[test]
fn alarms_are_attached_to_the_instance_they_name() {
    let mut alarms = AlarmIndex::new();
    alarms.add_page(vec![
        alarm("cpu", vec![label("Host", Some("h")), label("InstanceId", Some("i-1"))]),
        alarm("disk", vec![label("InstanceId", Some("i-2"))]),
        alarm("none", vec![label("InstanceId", None)]),
        alarm("other", Vec::new()),
    ]);
    alarms.add_page(vec![MetricAlarm {
        alarm_name: None,
        state_value: None,
        state_reason: None,
        dimensions: vec![label("InstanceId", Some("i-1"))],
    }]);
    let list = alarms.get("i-1").expect("alarms of i-1");
    assert_eq!(list.len(), 2);
    assert_eq!(list[0].name, "cpu");
    assert_eq!(list[0].state, "ALARM");
    assert_eq!(list[0].reason, some("why"));
    assert_eq!(list[1].name, "");
    assert_eq!(list[1].state, "");
    assert_eq!(list[1].reason, None);
    assert_eq!(alarms.get("i-2").map(|l| l.len()), Some(1));
    assert!(alarms.get("i-3").is_none());
}

#[test]
fn only_compute_instances_are_asked_for() {
    let load = Load::start().next(LoadEvent::InstancePage(vec![info("i-1"), info("mi-2"), info("i-3"), info("I-4")]));
    let Load::Instances(list) = load else { panic!("instances are read") };
    assert_eq!(ec2_ids(&list), ["i-1", "i-3"]);
}

#[test]
fn ids_are_asked_for_in_lists_of_two_hundred() {
    let ids: Vec<String> = (0..401).map(|n| format!("i-{n}")).collect();
    let lists = id_chunks(&ids);
    let sizes: Vec<usize> = lists.iter().map(|l| l.len()).collect();
    assert_eq!(sizes, [200, 200, 1]);
    assert_eq!(lists.concat(), ids);
    assert!(id_chunks(&Vec::new()).is_empty());
    assert_eq!(id_chunks(&ids[..200].to_vec()).len(), 1);
}

#[test]
fn the_fleet_is_loaded_with_names_and_alarms() {
    let load = Load::start()
        .next(LoadEvent::InstancePage(vec![info("i-1")]))
        .next(LoadEvent::InstancePage(vec![info("i-2"), info("mi-3")]))
        .next(LoadEvent::End);
    assert_eq!(load.request(), Some(&vec!["i-1".to_string(), "i-2".to_string()]));
    let load = load
        .next(LoadEvent::NamePage(vec![tagged(Some("i-2"), vec![label("Name", Some("db"))])]))
        .next(LoadEvent::End);
    assert_eq!(load.request(), None);
    let list = loaded(
        load.next(LoadEvent::AlarmPage(vec![alarm("cpu", vec![label("InstanceId", Some("mi-3"))])]))
            .next(LoadEvent::End),
    );
    let names: Vec<&str> = list.iter().map(|i| i.name.as_str()).collect();
    let ids: Vec<&str> = list.iter().map(|i| i.id.as_str()).collect();
    assert_eq!(ids, ["i-1", "i-2", "mi-3"]);
    assert_eq!(names, ["host", "db", "host"]);
    assert_eq!(list[2].alarms.len(), 1);
    assert!(list[0].alarms.is_empty());
}

#[test]
fn without_compute_instances_no_names_are_asked_for() {
    let load = Load::start()
        .next(LoadEvent::InstancePage(vec![info("mi-3")]))
        .next(LoadEvent::End);
    assert!(matches!(load, Load::Alarms { .. }));
}

#[test]
fn each_request_for_names_is_answered() {
    let page: Vec<InstanceInformation> = (0..201).map(|n| info(&format!("i-{n}"))).collect();
    let load = Load::start().next(LoadEvent::InstancePage(page)).next(LoadEvent::End);
    assert_eq!(load.request().map(|r| r.len()), Some(200));
    let load = load.next(LoadEvent::End);
    assert_eq!(load.request(), Some(&vec!["i-200".to_string()]));
    assert!(matches!(load.next(LoadEvent::End), Load::Alarms { .. }));
}

#[test]
fn instances_and_names_are_needed() {
    let failed = Load::start().next(LoadEvent::Error("denied".to_string()));
    assert!(matches!(failed, Load::Failed(e) if e == "denied"));
    let failed = Load::start()
        .next(LoadEvent::InstancePage(vec![info("i-1")]))
        .next(LoadEvent::End)
        .next(LoadEvent::Error("throttled".to_string()));
    let still = failed.next(LoadEvent::End);
    assert!(matches!(still, Load::Failed(e) if e == "throttled"));
}

#[test]
fn alarms_are_not_needed() {
    let list = loaded(
        Load::start()
            .next(LoadEvent::InstancePage(vec![info("mi-1")]))
            .next(LoadEvent::End)
            .next(LoadEvent::AlarmPage(vec![alarm("cpu", vec![label("InstanceId", Some("mi-1"))])]))
            .next(LoadEvent::Error("denied".to_string())),
    );
    assert_eq!(list.len(), 1);
    assert!(list[0].alarms.is_empty());
}

#[test]
fn pages_that_are_not_waited_for_change_nothing() {
    let load = Load::start().next(LoadEvent::AlarmPage(Vec::new())).next(LoadEvent::NamePage(Vec::new()));
    assert!(matches!(load, Load::Instances(list) if list.is_empty()));
}

#[test]
fn a_missing_region_is_unknown() {
    assert_eq!(region_label(some("eu-west-1")), "eu-west-1");
    assert_eq!(region_label(None), "unknown");
}

#[test]
fn the_loader_refreshes_when_the_timer_fires() {
    assert_eq!(REFRESH_INTERVAL_SECS, 30);
    let (step, news) = Step::Wait.next(StepEvent::TimerFired);
    assert!(matches!(step, Step::Drain));
    assert!(news.is_none());
    let (step, _) = step.next(StepEvent::QueueEmpty);
    assert!(matches!(step, Step::Fetch));
    let (step, news) = step.next(StepEvent::Fetched(Vec::new()));
    assert!(matches!(step, Step::Deliver));
    assert!(matches!(news, Some(DataUpdate::Loaded(list)) if list.is_empty()));
    assert!(matches!(step.next(StepEvent::Sent), (Step::Wait, None)));
}

#[test]
fn a_failed_loading_is_delivered() {
    let (step, news) = Step::Fetch.next(StepEvent::FetchFailed("denied".to_string()));
    assert!(matches!(news, Some(DataUpdate::Failed(e)) if e == "denied"));
    assert!(matches!(step.next(StepEvent::Unsent), (Step::Stop, None)));
}

#[test]
fn a_switch_of_the_profile_is_announced_before_the_next_loading() {
    let command = AppCommand::SwitchProfile("prod".to_string());
    let (step, _) = Step::Wait.next(StepEvent::Received(command));
    assert!(matches!(&step, Step::Connect(p) if p == "prod"));
    let (step, news) = step.next(StepEvent::Connected { region: "eu".to_string() });
    assert!(matches!(step, Step::Announce));
    match news {
        Some(DataUpdate::ProfileSwitched { profile, region }) => {
            assert_eq!(profile, "prod");
            assert_eq!(region, "eu");
        }
        _ => panic!("the profile is announced"),
    }
    let (step, _) = step.next(StepEvent::Unsent);
    assert!(matches!(step, Step::Drain));
    let (step, _) = step.next(StepEvent::Received(AppCommand::Refresh));
    assert!(matches!(step, Step::Drain));
}

#[test]
fn commands_lead_to_steps() {
    assert!(matches!(apply_command(AppCommand::Refresh), Step::Drain));
    let step = apply_command(AppCommand::SwitchProfile("x".to_string()));
    assert!(matches!(step, Step::Connect(p) if p == "x"));
}

#[test]
fn the_loader_stops_when_the_monitor_is_gone() {
    let (step, _) = Step::Wait.next(StepEvent::Closed);
    assert!(matches!(step, Step::Stop));
    assert!(matches!(step.next(StepEvent::TimerFired), (Step::Stop, None)));
    assert!(matches!(Step::Drain.next(StepEvent::TimerFired), (Step::Drain, None)));
}

/// Hands the events to the loader and collects what it tells.
fn run(step: Step, events: Vec<StepEvent>) -> (Step, Vec<DataUpdate>) {
    let mut step = step;
    let mut told = Vec::new();
    for event in events {
        let (next, news) = step.next(event);
        step = next;
        told.extend(news);
    }
    (step, told)
}

#[test]
fn queued_refreshes_give_one_update() {
    let (step, told) = run(
        Step::Wait,
        vec![
            StepEvent::Received(AppCommand::Refresh),
            StepEvent::Received(AppCommand::Refresh),
            StepEvent::Received(AppCommand::Refresh),
            StepEvent::QueueEmpty,
            StepEvent::FetchFailed("denied".to_string()),
            StepEvent::Sent,
        ],
    );
    assert!(matches!(step, Step::Wait));
    assert_eq!(told.len(), 1);
    assert!(matches!(&told[0], DataUpdate::Failed(e) if e == "denied"));
}

#[test]
fn queued_commands_are_handled_in_order_before_the_loading() {
    let switch = |name: &str| StepEvent::Received(AppCommand::SwitchProfile(name.to_string()));
    let (step, told) = run(
        Step::Wait,
        vec![
            StepEvent::TimerFired,
            switch("a"),
            StepEvent::Connected { region: "r1".to_string() },
            StepEvent::Sent,
            StepEvent::Received(AppCommand::Refresh),
            switch("b"),
            StepEvent::Connected { region: "r2".to_string() },
            StepEvent::Sent,
            StepEvent::QueueEmpty,
            StepEvent::Fetched(Vec::new()),
            StepEvent::Sent,
        ],
    );
    assert!(matches!(step, Step::Wait));
    let words: Vec<String> = told
        .iter()
        .map(|update| match update {
            DataUpdate::ProfileSwitched { profile, region } => format!("{profile} {region}"),
            DataUpdate::Loaded(list) => format!("loaded {}", list.len()),
            DataUpdate::Failed(error) => error.clone(),
        })
        .collect();
    assert_eq!(words, ["a r1", "b r2", "loaded 0"]);
}
