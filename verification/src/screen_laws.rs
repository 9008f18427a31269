//! What is on the screens, part by part.

use vstd::prelude::*;
use crate::alarm;
use crate::alarm::AlarmInfoView;
use crate::app::AppView;
use crate::clock;
use crate::detail_screen;
use crate::detail_screen::DetailScreenView;
use crate::filters::Mode;
use crate::help_screen;
use crate::help_screen::HelpScreenView;
use crate::instance::InstanceView;
use crate::layout;
use crate::layout::{Constraint, Rect};
use crate::list_screen;
use crate::list_screen::{ListScreenView, NoteView};
use crate::order;
use crate::pane;
use crate::picker_screen::PickerScreenView;
use crate::style::{Color, SpanView, Style};
use crate::text;
use crate::ui::ScreenView;

verus! {

/// The terminal's own style.
pub open spec fn bare() -> Style {
    Style { fg: None, bg: None, bold: false }
}

/// Bold text.
pub open spec fn strong() -> Style {
    Style { fg: None, bg: None, bold: true }
}

/// Text in a colour.
pub open spec fn colored(color: Color) -> Style {
    Style { fg: Some(color), bg: None, bold: false }
}

/// The status line names the profile and the region, tells how fresh the data is, and
/// tells an error if there is one.
pub proof fn law_status_line(a: AppView, clock: u64)
    ensures
        ({
            let line = a.status_line(clock);
            &&& line.len() == (if a.last_error is Some {
                10
            } else {
                8int
            })
            &&& line[0] == (SpanView { text: " "@, style: bare() })
            &&& line[1] == (SpanView { text: "profile: "@, style: colored(Color::DarkGray) })
            &&& line[2] == (SpanView { text: a.profile, style: strong() })
            &&& line[3] == (SpanView { text: "  ·  "@, style: colored(Color::DarkGray) })
            &&& line[4] == (SpanView { text: "region: "@, style: colored(Color::DarkGray) })
            &&& line[5] == (SpanView { text: a.region, style: strong() })
            &&& line[6] == (SpanView { text: "  ·  "@, style: colored(Color::DarkGray) })
            &&& a.is_refreshing ==> line[7] == (SpanView {
                text: "refreshing..."@,
                style: colored(Color::Cyan),
            })
            &&& !a.is_refreshing && a.last_refresh is Some ==> line[7] == (SpanView {
                text: "refreshed "@ + clock::elapsed_text(
                    clock::elapsed_secs(a.last_refresh->0, clock),
                ),
                style: colored(Color::Green),
            })
            &&& !a.is_refreshing && a.last_refresh is None ==> line[7] == (SpanView {
                text: "loaded"@,
                style: bare(),
            })
            &&& a.last_error matches Some(error) ==> line[8] == (SpanView {
                text: "   "@,
                style: bare(),
            }) && line[9] == (SpanView { text: "⚠ "@ + error, style: colored(Color::Red) })
        }),
{
}

/// The tabs tell how many bookmarks and how many instances there are, and the tab of the
/// list that is shown is selected.
pub proof fn law_tabs(a: AppView, areas: Seq<Rect>, now: i64, clock: u64)
    ensures
        ({
            let screen = a.list_screen(areas, now, clock);
            &&& screen.tabs.len() == 2
            &&& screen.tabs[0] == " ★ Favorites ("@ + text::decimal(a.favorites.len()) + ") "@
            &&& screen.tabs[1] == " All Instances ("@ + text::decimal(a.all_instances.len()) + ") "@
            &&& a.view == pane::View::Favorites <==> screen.selected_tab == 0
            &&& a.view == pane::View::All <==> screen.selected_tab == 1
            &&& screen.tab_style == colored(Color::DarkGray)
            &&& screen.selected_tab_style == (Style {
                fg: Some(Color::Black),
                bg: Some(Color::Yellow),
                bold: true,
            })
        }),
{
}

/// The table has a row for each visible instance, in their order: its bookmark, its id,
/// its name, its alarms and its status.
pub proof fn law_table(a: AppView, areas: Seq<Rect>, now: i64, clock: u64, k: int)
    ensures
        a.list_screen(areas, now, clock).rows.len() == a.visible().len(),
        0 <= k < a.visible().len() ==> {
            let i = a.visible()[k];
            let row = a.list_screen(areas, now, clock).rows[k];
            &&& row.len() == 5
            &&& a.favorites.contains(i.id) ==> row[0] == (SpanView {
                text: "★"@,
                style: colored(Color::Yellow),
            })
            &&& !a.favorites.contains(i.id) ==> row[0] == (SpanView {
                text: " "@,
                style: colored(Color::Yellow),
            })
            &&& row[1] == (SpanView { text: i.id, style: bare() })
            &&& row[2] == (SpanView { text: i.name, style: bare() })
            &&& row[3] == (SpanView {
                text: i.summary().label_text(),
                style: i.summary().label_style(),
            })
            &&& row[4] == (SpanView { text: i.status_text(now), style: i.status_style(now) })
        },
{
}

/// The table has a header and columns, and its title tells the list, the number of rows
/// and the order.
pub proof fn law_table_frame(a: AppView, areas: Seq<Rect>, now: i64, clock: u64)
    ensures
        ({
            let screen = a.list_screen(areas, now, clock);
            &&& screen.areas == areas
            &&& screen.status == a.status_line(clock)
            &&& screen.header == seq![""@, "ID"@, "Name"@, "Alarms"@, "Status"@]
            &&& screen.header_style == strong()
            &&& screen.columns == seq![
                Constraint::Length(2),
                Constraint::Length(20),
                Constraint::Min(20),
                Constraint::Length(14),
                Constraint::Length(22),
            ]
            &&& screen.selected_row_style == (Style {
                fg: None,
                bg: Some(Color::Blue),
                bold: true,
            })
            &&& a.view == pane::View::All ==> screen.title == "All"@ + "  ·  shown "@
                + text::decimal(a.visible().len()) + "  ·  sort: "@ + a.sort.title()
            &&& a.view == pane::View::Favorites ==> screen.title == "Favorites"@
                + "  ·  shown "@ + text::decimal(a.visible().len()) + "  ·  sort: "@
                + a.sort.title()
            &&& screen.filters_title == "Filters"@
        }),
{
}

/// A hint is given exactly where the list of bookmarks has no row, inside the table.
pub proof fn law_hint(a: AppView, areas: Seq<Rect>, now: i64, clock: u64)
    ensures
        ({
            let screen = a.list_screen(areas, now, clock);
            &&& screen.hint is Some <==> a.visible().len() == 0 && a.view
                == pane::View::Favorites
            &&& screen.hint matches Some(note) ==> note == (NoteView {
                area: layout::inside(areas[2], 1, 2),
                span: SpanView {
                    text:
                        "\n  No favorites yet — switch to All Instances with → and press b to star one."@,
                    style: colored(Color::DarkGray),
                },
            })
        }),
{
}

/// The filters tell the find text, with a cursor while it is edited, the status and the
/// alarms that are let through.
pub proof fn law_filters_box(a: AppView, areas: Seq<Rect>, now: i64, clock: u64)
    ensures
        ({
            let filters = a.list_screen(areas, now, clock).filters;
            let keys = "\n ←/→ view · ↑/↓ nav · ? help"@;
            &&& a.mode == Mode::Filtering && a.status_filter() is None ==> filters == " ["@
                + "FILTER"@ + "]  name/id: "@ + a.filter_text + "_"@ + "    status: "@ + "All"@
                + "    alarms: "@ + a.alarm_filter.title() + keys
            &&& a.mode == Mode::Filtering && a.status_filter() is Some ==> filters == " ["@
                + "FILTER"@ + "]  name/id: "@ + a.filter_text + "_"@ + "    status: "@
                + a.status_filter()->0 + "    alarms: "@ + a.alarm_filter.title() + keys
            &&& a.mode != Mode::Filtering && a.status_filter() is None ==> filters == " ["@
                + "NORMAL"@ + "]  name/id: "@ + a.filter_text + ""@ + "    status: "@ + "All"@
                + "    alarms: "@ + a.alarm_filter.title() + keys
            &&& a.mode != Mode::Filtering && a.status_filter() is Some ==> filters == " ["@
                + "NORMAL"@ + "]  name/id: "@ + a.filter_text + ""@ + "    status: "@
                + a.status_filter()->0 + "    alarms: "@ + a.alarm_filter.title() + keys
        }),
{
}

/// A field of the details has its label in a column of twenty characters.
pub proof fn law_field(label: Seq<char>, value: Seq<char>, span: SpanView)
    ensures
        detail_screen::text_field(label, value) == seq![
            SpanView { text: "  "@, style: bare() },
            SpanView { text: text::padded(label, 20), style: strong() },
            SpanView { text: value, style: bare() },
        ],
        detail_screen::field_line(label, span) == seq![
            SpanView { text: "  "@, style: bare() },
            SpanView { text: text::padded(label, 20), style: strong() },
            span,
        ],
{
}

/// The details are those of the selected instance: its fields one by one, then its alarms,
/// then the last message.
pub proof fn law_details(
    a: AppView,
    inst: InstanceView,
    areas: Seq<Rect>,
    now: i64,
    clock: u64,
)
    ensures
        ({
            let screen = a.detail_screen(inst, areas, now, clock);
            let field = |label: Seq<char>, value: Seq<char>|
                detail_screen::text_field(label, value);
            &&& screen.areas == areas
            &&& screen.status == a.status_line(clock)
            &&& screen.title == " Instance Details — "@ + inst.id + " ("@ + inst.name + ") "@
            &&& screen.lines.len() == 10 + inst.alarm_section().len() + a.message_lines().len()
            &&& screen.lines[0].len() == 0
            &&& screen.lines[1] == field("ID:"@, inst.id)
            &&& screen.lines[2] == field("Name:"@, inst.name)
            &&& screen.lines[3] == detail_screen::field_line(
                "Status:"@,
                SpanView { text: inst.status_text(now), style: inst.status_style(now) },
            )
            &&& screen.lines[4] == field("Platform:"@, inst.platform)
            &&& screen.lines[5] == field("Platform Version:"@, inst.platform_version)
            &&& screen.lines[6] == field("IP Address:"@, inst.ip_address)
            &&& screen.lines[7] == field("Agent Version:"@, inst.agent_version)
            &&& screen.lines[8] == field("Last Ping:"@, inst.last_ping_text(now))
            &&& a.favorites.contains(inst.id) ==> screen.lines[9] == field(
                "Favorite:"@,
                "★ yes"@,
            )
            &&& !a.favorites.contains(inst.id) ==> screen.lines[9] == field("Favorite:"@, "no"@)
            &&& screen.lines.skip(10) == inst.alarm_section() + a.message_lines()
            &&& screen.actions_title == "Actions"@
            &&& screen.actions
                == " c: SSM session · b: toggle bookmark · ↑/↓: prev/next · r: refresh · ? help · Esc/q: back"@
        }),
{
    let screen = a.detail_screen(inst, areas, now, clock);
    assert(screen.lines.skip(10) =~= inst.alarm_section() + a.message_lines());
}

/// The message of a session is shown below the alarms, set off by an empty line.
pub proof fn law_message_lines(a: AppView)
    ensures
        a.last_message is None ==> a.message_lines().len() == 0,
        a.last_message matches Some(message) ==> a.message_lines().len() == 2
            && a.message_lines()[0].len() == 0 && a.message_lines()[1] == seq![
            SpanView { text: "  "@, style: bare() },
            SpanView { text: message, style: colored(Color::Yellow) },
        ],
{
}

/// The alarms of an instance are counted in a heading and follow it, the most urgent
/// first; without alarms that is told.
pub proof fn law_alarm_section(inst: InstanceView)
    ensures
        inst.alarm_section().len() >= 2,
        inst.alarm_section()[0].len() == 0,
        inst.alarm_section()[1] == seq![
            SpanView {
                text: "  Alarms ("@ + text::decimal(inst.alarms.len()) + ")"@,
                style: strong(),
            },
        ],
        inst.alarms.len() == 0 ==> inst.alarm_section().len() == 3 && inst.alarm_section()[2]
            == seq![
            SpanView {
                text: "    (no alarms attached to this instance)"@,
                style: colored(Color::DarkGray),
            },
        ],
        inst.alarms.len() > 0 ==> inst.alarm_section().skip(2) == detail_screen::all_alarm_lines(
            order::stable_sort(inst.alarms, detail_screen::urgency()),
        ),
        forall|a: AlarmInfoView, b: AlarmInfoView| #[trigger]
            detail_screen::urgency()(a, b) <==> alarm::state_rank(a.state) < alarm::state_rank(
                b.state,
            ),
{
    if inst.alarms.len() > 0 {
        assert(inst.alarm_section().skip(2) =~= detail_screen::all_alarm_lines(
            order::stable_sort(inst.alarms, detail_screen::urgency()),
        ));
    }
}

/// Each alarm has a line with its state and name, and a line with its reason if one is
/// given that is not empty; the lines of an alarm follow those of the alarms before it.
pub proof fn law_alarm_lines(alarms: Seq<AlarmInfoView>, a: AlarmInfoView)
    ensures
        detail_screen::all_alarm_lines(Seq::empty()).len() == 0,
        detail_screen::all_alarm_lines(alarms.push(a)) == detail_screen::all_alarm_lines(alarms)
            + detail_screen::alarm_lines(a),
        detail_screen::alarm_lines(a).len() >= 1,
        detail_screen::alarm_lines(a)[0] == seq![
            SpanView { text: "    "@, style: bare() },
            SpanView { text: alarm::state_tag(a.state), style: alarm::state_tag_style(a.state) },
            SpanView { text: "  "@, style: bare() },
            SpanView { text: a.name, style: bare() },
        ],
        a.reason is None ==> detail_screen::alarm_lines(a).len() == 1,
        a.reason is Some && a.reason->0.len() == 0 ==> detail_screen::alarm_lines(a).len()
            == 1,
        a.reason is Some && a.reason->0.len() > 0 ==> detail_screen::alarm_lines(a).len()
            == 2 && detail_screen::alarm_lines(a)[1] == seq![
            SpanView { text: "            "@, style: bare() },
            SpanView { text: a.reason->0, style: colored(Color::DarkGray) },
        ],
{
    assert(alarms.push(a).drop_last() =~= alarms);
}

/// The instance whose details are shown is the first one that was loaded with the id of
/// the selected row.
pub proof fn law_detailed(a: AppView, k: int)
    ensures
        a.selected_id() is None ==> a.detailed() is None,
        a.selected_id() matches Some(id) && 0 <= k < a.all_instances.len() && a.all_instances[k].id
            == id && (forall|j: int| 0 <= j < k ==> (#[trigger] a.all_instances[j]).id != id)
            ==> a.detailed() == Some(a.all_instances[k]),
        a.selected_id() matches Some(id) && (forall|j: int|
            0 <= j < a.all_instances.len() ==> (#[trigger] a.all_instances[j]).id != id)
            ==> a.detailed() is None,
{
    match a.selected_id() {
        Some(id) => {
            crate::state_laws::law_instance_by_id(a, id, k);
        },
        None => {},
    }
}

/// The picker shows every profile in order: the current one with a mark, the chosen one
/// set off, the current one in green where it is not the chosen one.
pub proof fn law_picker(a: AppView, area: Rect, i: int)
    ensures
        ({
            let screen = a.picker_screen(area);
            let marked = |name: Seq<char>| " ● "@ + name;
            let plain = |name: Seq<char>| "   "@ + name;
            &&& screen.lines.len() == a.profiles.len()
            &&& screen.title == " Switch profile — ↑/↓ · Enter to confirm · Esc to cancel "@
            &&& screen.style == (Style { fg: None, bg: Some(Color::Black), bold: false })
            &&& screen.area == layout::centered(
                50,
                crate::picker_screen::picker_height(a.profiles.len()),
                area,
            )
            &&& 0 <= i < a.profiles.len() ==> {
                let line = screen.lines[i];
                let name = a.profiles[i];
                &&& line.len() == 1
                &&& name == a.profile ==> line[0].text == marked(name)
                &&& name != a.profile ==> line[0].text == plain(name)
                &&& i == a.profile_picker_idx ==> line[0].style == (Style {
                    fg: Some(Color::Black),
                    bg: Some(Color::Yellow),
                    bold: true,
                })
                &&& i != a.profile_picker_idx && name == a.profile ==> line[0].style == colored(
                    Color::Green,
                )
                &&& i != a.profile_picker_idx && name != a.profile ==> line[0].style == bare()
            }
        }),
{
}

/// Each mode shows its own screen.
pub proof fn law_screens(
    a: AppView,
    area: Rect,
    now: i64,
    clock: u64,
    list: ListScreenView,
    detail: DetailScreenView,
    help: HelpScreenView,
    picker: PickerScreenView,
)
    ensures
        a.shows(ScreenView::List(list), area, now, clock) <==> (a.mode == Mode::Normal || a.mode
            == Mode::Filtering) && list == a.list_screen(list.areas, now, clock)
            && layout::divided(list.areas, area, list_screen::list_division()),
        a.shows(ScreenView::Picker(list, picker), area, now, clock) <==> a.mode
            == Mode::ProfilePicker && list == a.list_screen(list.areas, now, clock)
            && layout::divided(list.areas, area, list_screen::list_division()) && picker
            == a.picker_screen(area),
        a.shows(ScreenView::Detail(detail), area, now, clock) <==> a.mode == Mode::Detail
            && a.detailed() is Some && detail == a.detail_screen(
            a.detailed()->0,
            detail.areas,
            now,
            clock,
        ) && layout::divided(detail.areas, area, detail_screen::detail_division()),
        a.shows(ScreenView::Help(help), area, now, clock) <==> a.mode == Mode::Help && help
            == help_screen::help_screen(),
        a.shows(ScreenView::Blank, area, now, clock) <==> a.mode == Mode::Detail && a.detailed()
            is None,
        a.mode == Mode::Detail && a.detailed() is None ==> a.drawn() == (AppView {
            mode: Mode::Normal,
            ..a
        }),
        a.mode != Mode::Detail || a.detailed() is Some ==> a.drawn() == a,
{
}

/// The screens are divided into a line for the status, one for the tabs, what is left and
/// four lines for the filters, or a line for the status, what is left and three lines for
/// the actions.
pub proof fn law_divisions()
    ensures
        list_screen::list_division() == seq![
            Constraint::Length(1),
            Constraint::Length(1),
            Constraint::Min(1),
            Constraint::Length(4),
        ],
        detail_screen::detail_division() == seq![
            Constraint::Length(1),
            Constraint::Min(1),
            Constraint::Length(3),
        ],
{
}

/// A line of the help has its key in a column of twenty-two characters.
pub proof fn law_help_line(key: Seq<char>, desc: Seq<char>)
    ensures
        help_screen::key_line(key, desc) == seq![
            SpanView { text: "    "@, style: bare() },
            SpanView {
                text: text::padded(key, 22),
                style: Style { fg: Some(Color::Yellow), bg: None, bold: true },
            },
            SpanView { text: desc, style: bare() },
        ],
        help_screen::section_line(desc) == seq![
            SpanView {
                text: "  "@ + desc,
                style: Style { fg: Some(Color::Cyan), bg: None, bold: true },
            },
        ],
        help_screen::note_line(desc) == seq![SpanView { text: desc, style: bare() }],
{
}

/// The help tells what every key does.
pub proof fn law_help()
    ensures
        ({
            let screen = help_screen::help_screen();
            let key = |k: Seq<char>, d: Seq<char>| help_screen::key_line(k, d);
            &&& screen.title == " Help — press Esc / q / ? to close "@
            &&& screen.lines.len() == 24
            &&& screen.lines[0].len() == 0
            &&& screen.lines[1] == help_screen::section_line("Navigation"@)
            &&& screen.lines[2] == key("↑/↓  or  j/k"@, "move selection (also in detail view)"@)
            &&& screen.lines[3] == key("←/→  or  h/l"@, "switch view (Favorites / All)"@)
            &&& screen.lines[4] == key("Enter"@, "open instance details"@)
            &&& screen.lines[5] == key("Esc / q"@, "back / close the current overlay"@)
            &&& screen.lines[6].len() == 0
            &&& screen.lines[7] == help_screen::section_line("Filters & sort"@)
            &&& screen.lines[8] == key(
                "f"@,
                "find by name or id (Esc/Enter to leave, Backspace to delete)"@,
            )
            &&& screen.lines[9] == key(
                "s"@,
                "cycle status filter (All / Online / ConnectionLost / Inactive)"@,
            )
            &&& screen.lines[10] == key(
                "a"@,
                "cycle alarm filter (All / Alarming / Has alarms)"@,
            )
            &&& screen.lines[11] == key(
                "o"@,
                "cycle order/sort (Default / Alarms / Status / Name)"@,
            )
            &&& screen.lines[12].len() == 0
            &&& screen.lines[13] == help_screen::section_line("Actions"@)
            &&& screen.lines[14] == key(
                "b"@,
                "bookmark / toggle favorite on selected instance (persisted)"@,
            )
            &&& screen.lines[15] == key("r"@, "refresh data immediately (auto every 30s)"@)
            &&& screen.lines[16] == key(
                "p"@,
                "switch AWS profile (lists ~/.aws/config and ~/.aws/credentials)"@,
            )
            &&& screen.lines[17] == key(
                "c"@,
                "(in detail view) start an SSM session on the selected instance"@,
            )
            &&& screen.lines[18].len() == 0
            &&& screen.lines[19] == help_screen::section_line("Notes"@)
            &&& screen.lines[20] == help_screen::note_line(
                "    · Favorites are stored at ~/.config/ssm-monitor/favorites"@,
            )
            &&& screen.lines[21] == help_screen::note_line(
                "    · Data auto-refreshes every 30 seconds in the background"@,
            )
            &&& screen.lines[22] == help_screen::note_line(
                "    · Online instances with last ping > 5 min show as (stale) in yellow"@,
            )
            &&& screen.lines[23] == help_screen::note_line(
                "    · SSM session requires the aws CLI and Session Manager plugin"@,
            )
        }),
{
}

} // verus!
