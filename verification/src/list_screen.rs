//! The list of instances: tabs, table and filters.

use vstd::prelude::*;
use crate::app::{App, AppView};
use crate::filters::Mode;
use crate::instance;
use crate::instance::{Instance, InstanceView};
use crate::layout;
use crate::layout::{Constraint, Rect};
use crate::model;
use crate::pane;
use crate::status_bar;
use crate::style;
use crate::style::{Color, Line, Span, SpanView, Style};
use crate::text;

verus! {

/// The style of the selected tab.
pub open spec fn selected_tab_style() -> Style {
    Style { fg: Some(Color::Black), bg: Some(Color::Yellow), bold: true }
}

/// The style of the selected row.
pub open spec fn selected_row_style() -> Style {
    Style { fg: None, bg: Some(Color::Blue), bold: true }
}

/// A note in an area of the screen.
pub struct Note {
    pub area: Rect,
    pub span: Span,
}

/// What a `Note` shows.
pub struct NoteView {
    pub area: Rect,
    pub span: SpanView,
}

impl View for Note {
    type V = NoteView;

    open spec fn view(&self) -> NoteView {
        NoteView { area: self.area, span: self.span@ }
    }
}

/// The list of instances.
pub struct ListScreen {
    /// The areas of the status line, the tabs, the table and the filters.
    pub areas: Vec<Rect>,
    pub status: Line,
    pub tabs: Vec<String>,
    pub tab_style: Style,
    pub selected_tab: usize,
    pub selected_tab_style: Style,
    pub title: String,
    pub columns: Vec<Constraint>,
    pub header: Vec<String>,
    pub header_style: Style,
    /// The cells of each row.
    pub rows: Vec<Line>,
    pub selected_row_style: Style,
    /// What is said where there are no rows.
    pub hint: Option<Note>,
    pub filters_title: String,
    pub filters: String,
}

/// What a `ListScreen` shows.
#[verifier::ext_equal]
pub struct ListScreenView {
    pub areas: Seq<Rect>,
    pub status: Seq<SpanView>,
    pub tabs: Seq<Seq<char>>,
    pub tab_style: Style,
    pub selected_tab: int,
    pub selected_tab_style: Style,
    pub title: Seq<char>,
    pub columns: Seq<Constraint>,
    pub header: Seq<Seq<char>>,
    pub header_style: Style,
    pub rows: Seq<Seq<SpanView>>,
    pub selected_row_style: Style,
    pub hint: Option<NoteView>,
    pub filters_title: Seq<char>,
    pub filters: Seq<char>,
}

impl View for ListScreen {
    type V = ListScreenView;

    open spec fn view(&self) -> ListScreenView {
        ListScreenView {
            areas: self.areas@,
            status: self.status@,
            tabs: text::texts(self.tabs@),
            tab_style: self.tab_style,
            selected_tab: self.selected_tab as int,
            selected_tab_style: self.selected_tab_style,
            title: self.title@,
            columns: self.columns@,
            header: text::texts(self.header@),
            header_style: self.header_style,
            rows: model::views(self.rows@),
            selected_row_style: self.selected_row_style,
            hint: model::view_opt(self.hint),
            filters_title: self.filters_title@,
            filters: self.filters@,
        }
    }
}

impl AppView {
    /// The titles of the two tabs, with the numbers of bookmarks and of instances.
    pub open spec fn tab_titles(self) -> Seq<Seq<char>> {
        seq![
            " ★ Favorites ("@ + text::decimal(self.favorites.len()) + ") "@,
            " All Instances ("@ + text::decimal(self.all_instances.len()) + ") "@,
        ]
    }

    /// The cells of the row of an instance at the time `now`.
    pub open spec fn row(self, i: InstanceView, now: i64) -> Seq<SpanView> {
        seq![
            style::run(
                if self.is_favorite(i) {
                    "★"@
                } else {
                    " "@
                },
                style::fg_style(Color::Yellow),
            ),
            style::run(i.id, style::plain_style()),
            style::run(i.name, style::plain_style()),
            style::run(i.summary().label_text(), i.summary().label_style()),
            style::run(i.status_text(now), i.status_style(now)),
        ]
    }

    /// The rows of the table at the time `now`.
    pub open spec fn rows(self, now: i64) -> Seq<Seq<SpanView>> {
        self.visible().map_values(|i: InstanceView| self.row(i, now))
    }

    /// The title of the table.
    pub open spec fn list_title(self) -> Seq<char> {
        let label = match self.view {
            pane::View::Favorites => "Favorites"@,
            pane::View::All => "All"@,
        };
        label + "  ·  shown "@ + text::decimal(self.visible().len()) + "  ·  sort: "@
            + self.sort.title()
    }

    /// What is said where no bookmarked instance is listed; `area` is the table's.
    pub open spec fn list_hint(self, area: Rect) -> Option<NoteView> {
        if self.visible().len() == 0 && self.view == pane::View::Favorites {
            Some(
                NoteView {
                    area: layout::inside(area, 1, 2),
                    span: style::run(
                        "\n  No favorites yet — switch to All Instances with → and press b to star one."@,
                        style::fg_style(Color::DarkGray),
                    ),
                },
            )
        } else {
            None
        }
    }

    /// The filters that are set, with a cursor while the find text is edited.
    pub open spec fn filters_text(self) -> Seq<char> {
        let editing = self.mode == Mode::Filtering;
        let mode_label = if editing {
            "FILTER"@
        } else {
            "NORMAL"@
        };
        let cursor = if editing {
            "_"@
        } else {
            ""@
        };
        let status_label = match self.status_filter() {
            Some(status) => status,
            None => "All"@,
        };
        " ["@ + mode_label + "]  name/id: "@ + self.filter_text + cursor + "    status: "@
            + status_label + "    alarms: "@ + self.alarm_filter.title()
            + "\n ←/→ view · ↑/↓ nav · ? help"@
    }

    /// The list in the given areas, at the time `now` and the reading `clock` of a
    /// monotonic clock.
    pub open spec fn list_screen(self, areas: Seq<Rect>, now: i64, clock: u64) -> ListScreenView {
        ListScreenView {
            areas,
            status: self.status_line(clock),
            tabs: self.tab_titles(),
            tab_style: style::fg_style(Color::DarkGray),
            selected_tab: match self.view {
                pane::View::Favorites => 0,
                pane::View::All => 1,
            },
            selected_tab_style: selected_tab_style(),
            title: self.list_title(),
            columns: seq![
                Constraint::Length(2),
                Constraint::Length(20),
                Constraint::Min(20),
                Constraint::Length(14),
                Constraint::Length(22),
            ],
            header: seq![""@, "ID"@, "Name"@, "Alarms"@, "Status"@],
            header_style: style::bold_style(),
            rows: self.rows(now),
            selected_row_style: selected_row_style(),
            hint: self.list_hint(areas[2]),
            filters_title: "Filters"@,
            filters: self.filters_text(),
        }
    }
}

fn tab_titles(app: &App) -> (tabs: Vec<String>)
    ensures
        text::texts(tabs@) == app@.tab_titles(),
{
    let favorites = text::number(app.favorites.len() as u64);
    let total = text::number(app.all_instances.len() as u64);
    let tabs: Vec<String> = vec![
        text::concat3(" ★ Favorites (", favorites.as_str(), ") "),
        text::concat3(" All Instances (", total.as_str(), ") "),
    ];
    assert(text::texts(tabs@) =~= app@.tab_titles());
    tabs
}

fn row(app: &App, i: &Instance, now: i64) -> (cells: Line)
    ensures
        cells@ == app@.row(i@, now),
{
    let mark = if app.is_favorite(i) {
        "★"
    } else {
        " "
    };
    let summary = i.alarm_summary();
    let cells: Vec<Span> = vec![
        Span::styled(mark.to_owned(), Style::fg(Color::Yellow)),
        Span::raw(i.id.as_str()),
        Span::raw(i.name.as_str()),
        Span::styled(summary.label(), summary.style()),
        Span::styled(instance::status_label_at(i, now), instance::status_style_at(i, now)),
    ];
    assert(model::views(cells@) =~= app@.row(i@, now));
    Line::from_spans(cells)
}

fn rows(app: &App, visible: &Vec<&Instance>, now: i64) -> (rows: Vec<Line>)
    requires
        model::views(visible@) == app@.visible(),
    ensures
        model::views(rows@) == app@.rows(now),
{
    let mut rows: Vec<Line> = Vec::new();
    let mut n: usize = 0;
    assert(model::views(rows@) =~= app@.rows(now).take(0));
    while n < visible.len()
        invariant
            n <= visible@.len(),
            model::views(visible@) == app@.visible(),
            model::views(rows@) == app@.rows(now).take(n as int),
        decreases visible@.len() - n,
    {
        let cells = row(app, visible[n], now);
        proof {
            model::lemma_views_push(rows@, cells);
            assert(app@.visible()[n as int] == visible@[n as int]@);
            assert(app@.rows(now).take(n + 1) =~= app@.rows(now).take(n as int).push(
                app@.rows(now)[n as int],
            ));
        }
        rows.push(cells);
        n = n + 1;
    }
    assert(app@.rows(now).take(n as int) =~= app@.rows(now));
    rows
}

fn list_title(app: &App, shown: usize) -> (title: String)
    requires
        shown == app@.visible().len(),
    ensures
        title@ == app@.list_title(),
{
    let label = match app.view {
        pane::View::Favorites => "Favorites",
        pane::View::All => "All",
    };
    let count = text::number(shown as u64);
    let head = text::concat3(label, "  ·  shown ", count.as_str());
    text::concat3(head.as_str(), "  ·  sort: ", app.sort.label())
}

fn list_hint(app: &App, shown: usize, area: Rect) -> (hint: Option<Note>)
    requires
        shown == app@.visible().len(),
    ensures
        model::view_opt(hint) == app@.list_hint(area),
{
    if shown == 0 && app.view == pane::View::Favorites {
        let text =
            "\n  No favorites yet — switch to All Instances with → and press b to star one.";
        Some(
            Note {
                area: layout::inner(area, 1, 2),
                span: Span::styled(text.to_owned(), Style::fg(Color::DarkGray)),
            },
        )
    } else {
        None
    }
}

fn filters_text(app: &App) -> (s: String)
    requires
        app.in_cycle(),
    ensures
        s@ == app@.filters_text(),
{
    let editing = app.mode == Mode::Filtering;
    let mode_label = if editing {
        "FILTER"
    } else {
        "NORMAL"
    };
    let cursor = if editing {
        "_"
    } else {
        ""
    };
    let status_label = match app.status_filter() {
        Some(status) => status,
        None => "All",
    };
    let find = text::concat3(" [", mode_label, "]  name/id: ");
    let find = text::concat3(find.as_str(), app.filter_text.as_str(), cursor);
    let status = text::concat3(find.as_str(), "    status: ", status_label);
    let alarms = text::concat3(status.as_str(), "    alarms: ", app.alarm_filter.label());
    text::concat2(alarms.as_str(), "\n ←/→ view · ↑/↓ nav · ? help")
}

/// The list in the given areas, at the time `now` and the reading `clock` of a monotonic
/// clock in nanoseconds.
pub fn list_screen(app: &App, areas: Vec<Rect>, now: i64, clock: u64) -> (screen: ListScreen)
    requires
        app.in_cycle(),
        areas@.len() == 4,
    ensures
        screen@ == app@.list_screen(areas@, now, clock),
{
    let visible = app.visible();
    let shown: usize = visible.len();
    let columns: Vec<Constraint> = vec![
        Constraint::Length(2),
        Constraint::Length(20),
        Constraint::Min(20),
        Constraint::Length(14),
        Constraint::Length(22),
    ];
    let header: Vec<String> = vec![
        "".to_owned(),
        "ID".to_owned(),
        "Name".to_owned(),
        "Alarms".to_owned(),
        "Status".to_owned(),
    ];
    let screen = ListScreen {
        status: status_bar::top_status_line(app, clock),
        tabs: tab_titles(app),
        tab_style: Style::fg(Color::DarkGray),
        selected_tab: match app.view {
            pane::View::Favorites => 0,
            pane::View::All => 1,
        },
        selected_tab_style: Style { fg: Some(Color::Black), bg: Some(Color::Yellow), bold: true },
        title: list_title(app, shown),
        columns,
        header,
        header_style: Style::bold(),
        rows: rows(app, &visible, now),
        selected_row_style: Style { fg: None, bg: Some(Color::Blue), bold: true },
        hint: list_hint(app, shown, areas[2]),
        filters_title: "Filters".to_owned(),
        filters: filters_text(app),
        areas,
    };
    assert(screen@ =~= app@.list_screen(areas@, now, clock));
    screen
}

/// How a screen with the list is divided: a line for the status, a line for the tabs,
/// the table, which takes what is left, and the filters in a frame.
pub open spec fn list_division() -> Seq<Constraint> {
    seq![
        Constraint::Length(1),
        Constraint::Length(1),
        Constraint::Min(1),
        Constraint::Length(4),
    ]
}

/// How a screen with the list is divided.
pub fn list_parts() -> (parts: Vec<Constraint>)
    ensures
        parts@ == list_division(),
{
    let parts: Vec<Constraint> = vec![
        Constraint::Length(1),
        Constraint::Length(1),
        Constraint::Min(1),
        Constraint::Length(4),
    ];
    assert(parts@ =~= list_division());
    parts
}

/// The list on a screen of the size `area`: a status line, tabs, the table, which takes
/// what is left, and the filters.
pub fn ui_list(app: &App, area: Rect, now: i64, clock: u64) -> (screen: ListScreen)
    requires
        app.in_cycle(),
    ensures
        layout::divided(screen@.areas, area, list_division()),
        screen@ == app@.list_screen(screen@.areas, now, clock),
{
    let areas = layout::split_vertical(area, &list_parts());
    list_screen(app, areas, now, clock)
}

/// On a screen with room for them the parts of the list lie where they belong: the status
/// and the tabs on top, the filters at the bottom and the table in between.
pub proof fn law_list_areas(areas: Seq<Rect>, area: Rect)
    requires
        layout::divided(areas, area, list_division()),
        area.y + area.height <= u16::MAX,
        area.height >= 7,
    ensures
        areas == seq![
            Rect { height: 1, ..area },
            Rect { y: (area.y + 1) as u16, height: 1, ..area },
            Rect { y: (area.y + 2) as u16, height: (area.height - 6) as u16, ..area },
            Rect { y: (area.y + area.height - 4) as u16, height: 4, ..area },
        ],
{
    let parts = list_division();
    reveal_with_fuel(layout::fixed_rows, 5);
    assert(layout::fixed_rows(parts) == 6);
    assert(layout::fits(parts, area, 2));
    assert(areas[1].y == areas[0].y + areas[0].height);
    assert(areas[2].y == areas[1].y + areas[1].height);
    assert(areas[3].y == areas[2].y + areas[2].height);
}

} // verus!
