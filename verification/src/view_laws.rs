//! What the views of the types say of their values: field by field what the value holds.

use vstd::prelude::*;
use crate::alarm::AlarmInfo;
use crate::app::App;
use crate::coordinator::{Step, StepEvent, StepEventView, StepView};
use crate::detail_screen::DetailScreen;
use crate::fleet;
use crate::fleet::{AlarmIndex, Label, MetricAlarm, TaggedInstance};
use crate::help_screen::HelpScreen;
use crate::input::{Action, ActionView};
use crate::instance::Instance;
use crate::list_screen::{ListScreen, Note};
use crate::loading::{Load, LoadEvent, LoadEventView, LoadView};
use crate::model;
use crate::picker_screen::PickerScreen;
use crate::session;
use crate::session::{SessionEnd, SessionEndView};
use crate::style::{Line, Span};
use crate::text;
use crate::ui::{Screen, ScreenView};
use crate::update::{AppCommand, CommandView, DataUpdate, UpdateView};

verus! {

/// Views of lists and of optional values go item by item.
pub proof fn law_views<T: View>(items: Seq<T>, item: Option<T>, i: int)
    ensures
        model::views(items).len() == items.len(),
        0 <= i < items.len() ==> model::views(items)[i] == items[i]@,
        item is None <==> model::view_opt(item) is None,
        item matches Some(t) ==> model::view_opt(item) == Some(t@),
{
}

/// Texts of lists and of optional texts go item by item.
pub proof fn law_texts(list: Seq<String>, s: Option<String>, lists: Seq<Vec<String>>, i: int)
    ensures
        text::texts(list).len() == list.len(),
        0 <= i < list.len() ==> text::texts(list)[i] == list[i]@,
        s is None <==> text::text_opt(s) is None,
        s matches Some(t) ==> text::text_opt(s) == Some(t@),
        fleet::all_texts(lists).len() == lists.len(),
        0 <= i < lists.len() ==> fleet::all_texts(lists)[i] == text::texts(lists[i]@),
{
}

/// The view of the monitor's state.
pub proof fn law_app_view(app: App)
    ensures
        app@.all_instances == model::views(app.all_instances@),
        app.table_state.selected matches Some(row) ==> app@.selected == Some(row as int),
        app.table_state.selected is None ==> app@.selected is None,
        app@.offset == app.table_state.offset,
        app@.mode == app.mode,
        app@.view == app.view,
        app@.sort == app.sort,
        app@.filter_text == app.filter_text@,
        app@.status_filter_idx == app.status_filter_idx,
        app@.alarm_filter == app.alarm_filter,
        app@.favorites == app.favorites@,
        app@.last_message == text::text_opt(app.last_message),
        app@.last_refresh == app.last_refresh,
        app@.last_error == text::text_opt(app.last_error),
        app@.is_refreshing == app.is_refreshing,
        app@.region == app.region@,
        app@.profile == app.profile@,
        app@.profiles == text::texts(app.profiles@),
        app@.profile_picker_idx == app.profile_picker_idx,
{
}

/// The views of instances, alarms and reports.
pub proof fn law_instance_views(
    inst: Instance,
    alarm: AlarmInfo,
    label: Label,
    tagged: TaggedInstance,
    report: MetricAlarm,
)
    ensures
        inst@.id == inst.id@,
        inst@.name == inst.name@,
        inst@.status == inst.status@,
        inst@.platform == inst.platform@,
        inst@.platform_version == inst.platform_version@,
        inst@.ip_address == inst.ip_address@,
        inst@.agent_version == inst.agent_version@,
        inst@.last_ping_secs == inst.last_ping_secs,
        inst@.alarms == model::views(inst.alarms@),
        alarm@.name == alarm.name@,
        alarm@.state == alarm.state@,
        alarm@.reason == text::text_opt(alarm.reason),
        label@.key == text::text_opt(label.key),
        label@.value == text::text_opt(label.value),
        tagged@.instance_id == text::text_opt(tagged.instance_id),
        tagged@.tags == model::views(tagged.tags@),
        report@.dimensions == model::views(report.dimensions@),
        report.alarm_name matches Some(s) ==> report@.info.name == s@,
        report.alarm_name is None ==> report@.info.name.len() == 0,
        report.state_value matches Some(s) ==> report@.info.state == s@,
        report.state_value is None ==> report@.info.state.len() == 0,
        report@.info.reason == text::text_opt(report.state_reason),
{
}

/// The views of what the monitor and the loader send to each other, and of what a key asks
/// for.
pub proof fn law_message_views(s: String, t: String, list: Vec<Instance>, command: AppCommand)
    ensures
        AppCommand::Refresh@ == CommandView::Refresh,
        AppCommand::SwitchProfile(s)@ == CommandView::SwitchProfile(s@),
        DataUpdate::Loaded(list)@ == UpdateView::Loaded(model::views(list@)),
        DataUpdate::Failed(s)@ == UpdateView::Failed(s@),
        (DataUpdate::ProfileSwitched { profile: s, region: t })@ == (UpdateView::ProfileSwitched {
            profile: s@,
            region: t@,
        }),
        Action::Stay@ == ActionView::Stay,
        Action::Quit@ == ActionView::Quit,
        Action::StoreFavorites(s)@ == ActionView::StoreFavorites(s@),
        Action::ReadProfiles@ == ActionView::ReadProfiles,
        Action::Send(command)@ == ActionView::Send(command@),
        (Action::StartSession { instance_id: s, profile: t })@ == (ActionView::StartSession {
            instance_id: s@,
            profile: t@,
        }),
        SessionEnd::Success@ == SessionEndView::Success,
        SessionEnd::Exited(s)@ == SessionEndView::Exited(s@),
        SessionEnd::LaunchFailed(s)@ == SessionEndView::LaunchFailed(s@),
{
}

/// The view of what came of a session, and of what is known of alarms.
pub proof fn law_outcome_views(
    message: Option<String>,
    error: String,
    alarms: Option<AlarmIndex>,
)
    ensures
        session::outcome_view(Ok(message)) == Ok::<Option<Seq<char>>, Seq<char>>(
            text::text_opt(message),
        ),
        session::outcome_view(Err(error)) == Err::<Option<Seq<char>>, Seq<char>>(error@),
        alarms matches Some(index) ==> fleet::known_alarms(alarms) == index@,
        alarms is None ==> forall|id: Seq<char>| !(#[trigger] fleet::known_alarms(
            alarms,
        ).contains_key(id)),
{
}

/// The views of the loader's steps and of how they went.
pub proof fn law_step_views(s: String, list: Vec<Instance>, command: AppCommand)
    ensures
        Step::Wait@ == StepView::Wait,
        Step::Drain@ == StepView::Drain,
        Step::Connect(s)@ == StepView::Connect(s@),
        Step::Announce@ == StepView::Announce,
        Step::Fetch@ == StepView::Fetch,
        Step::Deliver@ == StepView::Deliver,
        Step::Stop@ == StepView::Stop,
        StepEvent::TimerFired@ == StepEventView::TimerFired,
        StepEvent::Received(command)@ == StepEventView::Received(command@),
        StepEvent::Closed@ == StepEventView::Closed,
        StepEvent::QueueEmpty@ == StepEventView::QueueEmpty,
        (StepEvent::Connected { region: s })@ == (StepEventView::Connected { region: s@ }),
        StepEvent::Sent@ == StepEventView::Sent,
        StepEvent::Unsent@ == StepEventView::Unsent,
        StepEvent::Fetched(list)@ == StepEventView::Fetched(model::views(list@)),
        StepEvent::FetchFailed(s)@ == StepEventView::FetchFailed(s@),
{
}

/// The views of a loading and of what is read.
pub proof fn law_load_views(load: Load, event: LoadEvent)
    ensures
        load matches Load::Instances(list) ==> load@ == LoadView::Instances(model::views(list@)),
        load matches Load::Names { fleet, requests, names } ==> load@ == (LoadView::Names {
            fleet: model::views(fleet@),
            requests: fleet::all_texts(requests@),
            names: names@,
        }),
        load matches Load::Alarms { fleet, names, alarms } ==> load@ == (LoadView::Alarms {
            fleet: model::views(fleet@),
            names: names@,
            alarms: alarms@,
        }),
        load matches Load::Loaded(list) ==> load@ == LoadView::Loaded(model::views(list@)),
        load matches Load::Failed(error) ==> load@ == LoadView::Failed(error@),
        event matches LoadEvent::InstancePage(page) ==> event@ == LoadEventView::InstancePage(
            model::views(page@),
        ),
        event matches LoadEvent::NamePage(page) ==> event@ == LoadEventView::NamePage(
            model::views(page@),
        ),
        event matches LoadEvent::AlarmPage(page) ==> event@ == LoadEventView::AlarmPage(
            model::views(page@),
        ),
        event is End ==> event@ == LoadEventView::End,
        event matches LoadEvent::Error(error) ==> event@ == LoadEventView::Error(error@),
{
}

/// The views of what is drawn.
pub proof fn law_screen_views(
    span: Span,
    line: Line,
    note: Note,
    list: ListScreen,
    detail: DetailScreen,
    help: HelpScreen,
    picker: PickerScreen,
)
    ensures
        span@.text == span.text@,
        span@.style == span.style,
        line@ == model::views(line.spans@),
        note@.area == note.area,
        note@.span == note.span@,
        list@.areas == list.areas@,
        list@.status == list.status@,
        list@.tabs == text::texts(list.tabs@),
        list@.tab_style == list.tab_style,
        list@.selected_tab == list.selected_tab,
        list@.selected_tab_style == list.selected_tab_style,
        list@.title == list.title@,
        list@.columns == list.columns@,
        list@.header == text::texts(list.header@),
        list@.header_style == list.header_style,
        list@.rows == model::views(list.rows@),
        list@.selected_row_style == list.selected_row_style,
        list@.hint == model::view_opt(list.hint),
        list@.filters_title == list.filters_title@,
        list@.filters == list.filters@,
        detail@.areas == detail.areas@,
        detail@.status == detail.status@,
        detail@.title == detail.title@,
        detail@.lines == model::views(detail.lines@),
        detail@.actions_title == detail.actions_title@,
        detail@.actions == detail.actions@,
        help@.title == help.title@,
        help@.lines == model::views(help.lines@),
        picker@.area == picker.area,
        picker@.style == picker.style,
        picker@.title == picker.title@,
        picker@.lines == model::views(picker.lines@),
        Screen::List(list)@ == ScreenView::List(list@),
        Screen::Detail(detail)@ == ScreenView::Detail(detail@),
        Screen::Help(help)@ == ScreenView::Help(help@),
        Screen::Picker(list, picker)@ == ScreenView::Picker(list@, picker@),
        Screen::Blank@ == ScreenView::Blank,
{
}

} // verus!
