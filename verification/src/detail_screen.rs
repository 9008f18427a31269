//! The details of one instance.

use vstd::prelude::*;
use crate::alarm;
use crate::alarm::{AlarmInfo, AlarmInfoView};
use crate::app::{App, AppView};
use crate::filters::Mode;
use crate::instance;
use crate::instance::{Instance, InstanceView};
use crate::layout;
use crate::layout::{Constraint, Rect};
use crate::model;
use crate::order;
use crate::status_bar;
use crate::style;
use crate::style::{Color, Line, Span, SpanView, Style};
use crate::text;

verus! {

/// The width of the labels.
pub const LABEL_WIDTH: usize = 20;

/// The details of one instance.
pub struct DetailScreen {
    /// The areas of the status line, the details and the actions.
    pub areas: Vec<Rect>,
    pub status: Line,
    pub title: String,
    pub lines: Vec<Line>,
    pub actions_title: String,
    pub actions: String,
}

/// What a `DetailScreen` shows.
#[verifier::ext_equal]
pub struct DetailScreenView {
    pub areas: Seq<Rect>,
    pub status: Seq<SpanView>,
    pub title: Seq<char>,
    pub lines: Seq<Seq<SpanView>>,
    pub actions_title: Seq<char>,
    pub actions: Seq<char>,
}

impl View for DetailScreen {
    type V = DetailScreenView;

    open spec fn view(&self) -> DetailScreenView {
        DetailScreenView {
            areas: self.areas@,
            status: self.status@,
            title: self.title@,
            lines: model::views(self.lines@),
            actions_title: self.actions_title@,
            actions: self.actions@,
        }
    }
}

/// A label in its column, and a value.
pub open spec fn field_line(label: Seq<char>, value: SpanView) -> Seq<SpanView> {
    seq![
        style::run("  "@, style::plain_style()),
        style::run(text::padded(label, LABEL_WIDTH as nat), style::bold_style()),
        value,
    ]
}

/// A label and a text.
pub open spec fn text_field(label: Seq<char>, value: Seq<char>) -> Seq<SpanView> {
    field_line(label, style::run(value, style::plain_style()))
}

/// The order of the alarms of an instance: the most urgent ones first.
pub open spec fn urgency() -> spec_fn(AlarmInfoView, AlarmInfoView) -> bool {
    |a: AlarmInfoView, b: AlarmInfoView| alarm::state_rank(a.state) < alarm::state_rank(b.state)
}

/// The lines of one alarm: its state and name and, if one is given, the reason.
pub open spec fn alarm_lines(a: AlarmInfoView) -> Seq<Seq<SpanView>> {
    let head = seq![
        style::run("    "@, style::plain_style()),
        style::run(alarm::state_tag(a.state), alarm::state_tag_style(a.state)),
        style::run("  "@, style::plain_style()),
        style::run(a.name, style::plain_style()),
    ];
    match a.reason {
        Some(reason) => if reason.len() > 0 {
            seq![
                head,
                seq![
                    style::run("            "@, style::plain_style()),
                    style::run(reason, style::fg_style(Color::DarkGray)),
                ],
            ]
        } else {
            seq![head]
        },
        None => seq![head],
    }
}

/// The lines of several alarms, one after the other.
pub open spec fn all_alarm_lines(alarms: Seq<AlarmInfoView>) -> Seq<Seq<SpanView>>
    decreases alarms.len(),
{
    if alarms.len() == 0 {
        seq![]
    } else {
        all_alarm_lines(alarms.drop_last()) + alarm_lines(alarms.last())
    }
}

impl InstanceView {
    /// What is known of the instance at the time `now`, field by field.
    pub open spec fn field_lines(self, favorite: bool, now: i64) -> Seq<Seq<SpanView>> {
        seq![
            seq![],
            text_field("ID:"@, self.id),
            text_field("Name:"@, self.name),
            field_line("Status:"@, style::run(self.status_text(now), self.status_style(now))),
            text_field("Platform:"@, self.platform),
            text_field("Platform Version:"@, self.platform_version),
            text_field("IP Address:"@, self.ip_address),
            text_field("Agent Version:"@, self.agent_version),
            text_field("Last Ping:"@, self.last_ping_text(now)),
            text_field(
                "Favorite:"@,
                if favorite {
                    "★ yes"@
                } else {
                    "no"@
                },
            ),
        ]
    }

    /// The alarms of the instance, the most urgent ones first.
    pub open spec fn alarm_section(self) -> Seq<Seq<SpanView>> {
        seq![
            seq![],
            seq![
                style::run(
                    "  Alarms ("@ + text::decimal(self.alarms.len()) + ")"@,
                    style::bold_style(),
                ),
            ],
        ] + (if self.alarms.len() == 0 {
            seq![
                seq![
                    style::run(
                        "    (no alarms attached to this instance)"@,
                        style::fg_style(Color::DarkGray),
                    ),
                ],
            ]
        } else {
            all_alarm_lines(order::stable_sort(self.alarms, urgency()))
        })
    }
}

impl AppView {
    /// The instance whose details are shown: the one that the selected row names.
    pub open spec fn detailed(self) -> Option<InstanceView> {
        match self.selected_id() {
            Some(id) => self.instance_by_id(id),
            None => None,
        }
    }

    /// The last message, if there is one.
    pub open spec fn message_lines(self) -> Seq<Seq<SpanView>> {
        match self.last_message {
            Some(message) => seq![
                seq![],
                seq![
                    style::run("  "@, style::plain_style()),
                    style::run(message, style::fg_style(Color::Yellow)),
                ],
            ],
            None => seq![],
        }
    }

    /// The details of `inst` in the given areas, at the time `now` and the reading
    /// `clock` of a monotonic clock.
    pub open spec fn detail_screen(
        self,
        inst: InstanceView,
        areas: Seq<Rect>,
        now: i64,
        clock: u64,
    ) -> DetailScreenView {
        DetailScreenView {
            areas,
            status: self.status_line(clock),
            title: " Instance Details — "@ + inst.id + " ("@ + inst.name + ") "@,
            lines: inst.field_lines(self.is_favorite(inst), now) + inst.alarm_section()
                + self.message_lines(),
            actions_title: "Actions"@,
            actions:
                " c: SSM session · b: toggle bookmark · ↑/↓: prev/next · r: refresh · ? help · Esc/q: back"@,
        }
    }
}

fn styled_field(label: &str, value: Span) -> (line: Line)
    ensures
        line@ == field_line(label@, value@),
{
    let spans: Vec<Span> = vec![
        Span::raw("  "),
        Span::styled(text::pad_right(label, LABEL_WIDTH), Style::bold()),
        value,
    ];
    assert(model::views(spans@) =~= field_line(label@, value@));
    Line::from_spans(spans)
}

/// A label and a text.
pub fn detail_field(label: &str, value: &str) -> (line: Line)
    ensures
        line@ == text_field(label@, value@),
{
    styled_field(label, Span::raw(value))
}

fn field_lines(inst: &Instance, favorite: bool, now: i64) -> (lines: Vec<Line>)
    ensures
        model::views(lines@) == inst@.field_lines(favorite, now),
{
    let status = Span::styled(
        instance::status_label_at(inst, now),
        instance::status_style_at(inst, now),
    );
    let last_ping = inst.last_ping_str_at(now);
    let mark = if favorite {
        "★ yes"
    } else {
        "no"
    };
    let lines: Vec<Line> = vec![
        Line::blank(),
        detail_field("ID:", inst.id.as_str()),
        detail_field("Name:", inst.name.as_str()),
        styled_field("Status:", status),
        detail_field("Platform:", inst.platform.as_str()),
        detail_field("Platform Version:", inst.platform_version.as_str()),
        detail_field("IP Address:", inst.ip_address.as_str()),
        detail_field("Agent Version:", inst.agent_version.as_str()),
        detail_field("Last Ping:", last_ping.as_str()),
        detail_field("Favorite:", mark),
    ];
    assert(model::views(lines@) =~= inst@.field_lines(favorite, now));
    lines
}

fn push_line(lines: &mut Vec<Line>, line: Line)
    ensures
        model::views(final(lines)@) == model::views(old(lines)@).push(line@),
{
    proof {
        model::lemma_views_push(lines@, line);
    }
    lines.push(line);
}

fn push_alarm(lines: &mut Vec<Line>, a: &AlarmInfo)
    ensures
        model::views(final(lines)@) == model::views(old(lines)@) + alarm_lines(a@),
{
    let ghost before = model::views(lines@);
    let head: Vec<Span> = vec![
        Span::raw("    "),
        Span::styled(
            alarm::alarm_state_label(a.state.as_str()).to_owned(),
            alarm::alarm_state_style(a.state.as_str()),
        ),
        Span::raw("  "),
        Span::raw(a.name.as_str()),
    ];
    assert(model::views(head@) =~= alarm_lines(a@)[0]);
    push_line(lines, Line::from_spans(head));
    match &a.reason {
        Some(reason) => {
            if !reason.as_str().is_empty() {
                let spans: Vec<Span> = vec![
                    Span::raw("            "),
                    Span::styled(reason.clone(), Style::fg(Color::DarkGray)),
                ];
                assert(model::views(spans@) =~= alarm_lines(a@)[1]);
                push_line(lines, Line::from_spans(spans));
            }
        },
        None => {},
    }
    assert(model::views(lines@) =~= before + alarm_lines(a@));
}

fn by_urgency(alarms: &Vec<AlarmInfo>) -> (sorted: Vec<&AlarmInfo>)
    ensures
        model::views(sorted@) == order::stable_sort(model::views(alarms@), urgency()),
{
    let mut refs: Vec<&AlarmInfo> = Vec::new();
    let ghost all = model::views(alarms@);
    let mut n: usize = 0;
    assert(model::views(refs@) =~= all.take(0));
    while n < alarms.len()
        invariant
            n <= alarms@.len(),
            all == model::views(alarms@),
            model::views(refs@) == all.take(n as int),
        decreases alarms@.len() - n,
    {
        let a = &alarms[n];
        proof {
            model::lemma_views_push(refs@, a);
            assert(all.take(n + 1) =~= all.take(n as int).push(all[n as int]));
        }
        refs.push(a);
        n = n + 1;
    }
    assert(all.take(n as int) =~= all);
    let less = |a: &AlarmInfo, b: &AlarmInfo| -> (yes: bool)
        ensures
            (yes == (alarm::state_rank(a@.state) < alarm::state_rank(b@.state))),
    {
        alarm::rank_of_state(a.state.as_str()) < alarm::rank_of_state(b.state.as_str())
    };
    order::sort_refs(&refs, less, Ghost(urgency()))
}

fn push_alarm_section(lines: &mut Vec<Line>, inst: &Instance)
    ensures
        model::views(final(lines)@) == model::views(old(lines)@) + inst@.alarm_section(),
{
    let ghost before = model::views(lines@);
    push_line(lines, Line::blank());
    let count = text::number(inst.alarms.len() as u64);
    let heading = text::concat3("  Alarms (", count.as_str(), ")");
    push_line(lines, Line::single(Span::styled(heading, Style::bold())));
    if inst.alarms.len() == 0 {
        let none = "    (no alarms attached to this instance)";
        push_line(
            lines,
            Line::single(Span::styled(none.to_owned(), Style::fg(Color::DarkGray))),
        );
        assert(model::views(lines@) =~= before + inst@.alarm_section());
    } else {
        let sorted = by_urgency(&inst.alarms);
        let ghost all = model::views(sorted@);
        let ghost top = model::views(lines@);
        let mut n: usize = 0;
        assert(all.take(0) =~= seq![]);
        assert(top + all_alarm_lines(all.take(0)) =~= top);
        while n < sorted.len()
            invariant
                n <= sorted@.len(),
                all == model::views(sorted@),
                model::views(lines@) == top + all_alarm_lines(all.take(n as int)),
            decreases sorted@.len() - n,
        {
            let a = sorted[n];
            push_alarm(lines, a);
            proof {
                assert(all.take(n + 1).drop_last() =~= all.take(n as int));
                assert(all.take(n + 1).last() == a@);
                assert(top + all_alarm_lines(all.take(n as int)) + alarm_lines(a@) =~= top
                    + all_alarm_lines(all.take(n + 1)));
            }
            n = n + 1;
        }
        proof {
            assert(all.take(n as int) =~= all);
            assert(all == order::stable_sort(inst@.alarms, urgency()));
            assert(model::views(lines@) =~= before + inst@.alarm_section());
        }
    }
}

fn push_message(lines: &mut Vec<Line>, app: &App)
    ensures
        model::views(final(lines)@) == model::views(old(lines)@) + app@.message_lines(),
{
    let ghost before = model::views(lines@);
    match &app.last_message {
        Some(message) => {
            push_line(lines, Line::blank());
            let spans: Vec<Span> = vec![
                Span::raw("  "),
                Span::styled(message.clone(), Style::fg(Color::Yellow)),
            ];
            assert(model::views(spans@) =~= app@.message_lines()[1]);
            push_line(lines, Line::from_spans(spans));
        },
        None => {},
    }
    assert(model::views(lines@) =~= before + app@.message_lines());
}

/// The details of `inst` in the given areas, at the time `now` and the reading `clock`
/// of a monotonic clock in nanoseconds.
pub fn detail_screen(
    app: &App,
    inst: &Instance,
    areas: Vec<Rect>,
    now: i64,
    clock: u64,
) -> (screen: DetailScreen)
    ensures
        screen@ == app@.detail_screen(inst@, areas@, now, clock),
{
    let mut lines = field_lines(inst, app.is_favorite(inst), now);
    push_alarm_section(&mut lines, inst);
    push_message(&mut lines, app);
    let title = text::concat3(" Instance Details — ", inst.id.as_str(), " (");
    let title = text::concat3(title.as_str(), inst.name.as_str(), ") ");
    let actions =
        " c: SSM session · b: toggle bookmark · ↑/↓: prev/next · r: refresh · ? help · Esc/q: back";
    DetailScreen {
        areas,
        status: status_bar::top_status_line(app, clock),
        title,
        lines,
        actions_title: "Actions".to_owned(),
        actions: actions.to_owned(),
    }
}

/// How a screen with details is divided: a line for the status, the details, which take
/// what is left, and the actions in a frame.
pub open spec fn detail_division() -> Seq<Constraint> {
    seq![Constraint::Length(1), Constraint::Min(1), Constraint::Length(3)]
}

/// How a screen with details is divided.
pub fn detail_parts() -> (parts: Vec<Constraint>)
    ensures
        parts@ == detail_division(),
{
    let parts: Vec<Constraint> = vec![
        Constraint::Length(1),
        Constraint::Min(1),
        Constraint::Length(3),
    ];
    assert(parts@ =~= detail_division());
    parts
}

/// The details of the selected instance on a screen of the size `area`: a status line,
/// the details, which take what is left, and the actions. Without a selected instance
/// the list comes back.
pub fn ui_detail(app: &mut App, area: Rect, now: i64, clock: u64) -> (screen: Option<DetailScreen>)
    requires
        old(app).in_cycle(),
    ensures
        match old(app)@.detailed() {
            Some(inst) => {
                &&& final(app)@ == old(app)@
                &&& screen matches Some(s) && layout::divided(s@.areas, area, detail_division())
                    && s@ == old(app)@.detail_screen(inst, s@.areas, now, clock)
            },
            None => {
                &&& final(app)@ == old(app)@.in_mode(Mode::Normal)
                &&& screen is None
            },
        },
        final(app).in_cycle(),
{
    let id = match app.selected_id() {
        Some(id) => id,
        None => {
            app.mode = Mode::Normal;
            return None;
        },
    };
    let screen = match app.instance_by_id(id.as_str()) {
        Some(inst) => {
            let areas = layout::split_vertical(area, &detail_parts());
            Some(detail_screen(app, inst, areas, now, clock))
        },
        None => None,
    };
    if screen.is_none() {
        app.mode = Mode::Normal;
    }
    screen
}

/// On a screen with room for them the parts of the details lie where they belong: the
/// status on top, the actions at the bottom and the details in between.
pub proof fn law_detail_areas(areas: Seq<Rect>, area: Rect)
    requires
        layout::divided(areas, area, detail_division()),
        area.y + area.height <= u16::MAX,
        area.height >= 5,
    ensures
        areas == seq![
            Rect { height: 1, ..area },
            Rect { y: (area.y + 1) as u16, height: (area.height - 4) as u16, ..area },
            Rect { y: (area.y + area.height - 3) as u16, height: 3, ..area },
        ],
{
    let parts = detail_division();
    reveal_with_fuel(layout::fixed_rows, 4);
    assert(layout::fixed_rows(parts) == 4);
    assert(layout::fits(parts, area, 1));
    assert(areas[1].y == areas[0].y + areas[0].height);
    assert(areas[2].y == areas[1].y + areas[1].height);
}

/// The alarms of an instance are shown with the ringing ones first, then those without
/// data, those that are well and the rest; alarms of one state as they came.
pub proof fn law_alarms_by_urgency(alarms: Seq<AlarmInfoView>)
    ensures
        order::is_stable_sort(alarms, order::stable_sort(alarms, urgency()), urgency()),
{
    assert(order::strict_order(urgency()));
    order::lemma_stable_sort(alarms, urgency());
}

} // verus!
