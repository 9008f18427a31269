//! The help screen.

use vstd::prelude::*;
use crate::model;
use crate::style;
use crate::style::{Color, Line, Span, SpanView, Style};
use crate::text;

verus! {

/// The width of the column of keys.
pub const KEY_WIDTH: usize = 22;

/// The help screen.
pub struct HelpScreen {
    pub title: String,
    pub lines: Vec<Line>,
}

/// What a `HelpScreen` shows.
#[verifier::ext_equal]
pub struct HelpScreenView {
    pub title: Seq<char>,
    pub lines: Seq<Seq<SpanView>>,
}

impl View for HelpScreen {
    type V = HelpScreenView;

    open spec fn view(&self) -> HelpScreenView {
        HelpScreenView { title: self.title@, lines: model::views(self.lines@) }
    }
}

/// A key in its column, and what it does.
pub open spec fn key_line(key: Seq<char>, desc: Seq<char>) -> Seq<SpanView> {
    seq![
        style::run("    "@, style::plain_style()),
        style::run(text::padded(key, KEY_WIDTH as nat), style::bold_fg_style(Color::Yellow)),
        style::run(desc, style::plain_style()),
    ]
}

/// A heading.
pub open spec fn section_line(title: Seq<char>) -> Seq<SpanView> {
    seq![style::run("  "@ + title, style::bold_fg_style(Color::Cyan))]
}

/// A line of plain text.
pub open spec fn note_line(note: Seq<char>) -> Seq<SpanView> {
    seq![style::run(note, style::plain_style())]
}

/// The keys for moving about.
pub open spec fn navigation_lines() -> Seq<Seq<SpanView>> {
    seq![
        seq![],
        section_line("Navigation"@),
        key_line("↑/↓  or  j/k"@, "move selection (also in detail view)"@),
        key_line("←/→  or  h/l"@, "switch view (Favorites / All)"@),
        key_line("Enter"@, "open instance details"@),
        key_line("Esc / q"@, "back / close the current overlay"@),
    ]
}

/// The keys for choosing what is listed.
pub open spec fn filter_lines() -> Seq<Seq<SpanView>> {
    seq![
        seq![],
        section_line("Filters & sort"@),
        key_line("f"@, "find by name or id (Esc/Enter to leave, Backspace to delete)"@),
        key_line("s"@, "cycle status filter (All / Online / ConnectionLost / Inactive)"@),
        key_line("a"@, "cycle alarm filter (All / Alarming / Has alarms)"@),
        key_line("o"@, "cycle order/sort (Default / Alarms / Status / Name)"@),
    ]
}

/// The keys that do something.
pub open spec fn action_lines() -> Seq<Seq<SpanView>> {
    seq![
        seq![],
        section_line("Actions"@),
        key_line("b"@, "bookmark / toggle favorite on selected instance (persisted)"@),
        key_line("r"@, "refresh data immediately (auto every 30s)"@),
        key_line("p"@, "switch AWS profile (lists ~/.aws/config and ~/.aws/credentials)"@),
        key_line("c"@, "(in detail view) start an SSM session on the selected instance"@),
    ]
}

/// Notes.
pub open spec fn note_lines() -> Seq<Seq<SpanView>> {
    seq![
        seq![],
        section_line("Notes"@),
        note_line("    · Favorites are stored at ~/.config/ssm-monitor/favorites"@),
        note_line("    · Data auto-refreshes every 30 seconds in the background"@),
        note_line("    · Online instances with last ping > 5 min show as (stale) in yellow"@),
        note_line("    · SSM session requires the aws CLI and Session Manager plugin"@),
    ]
}

/// The help screen.
pub open spec fn help_screen() -> HelpScreenView {
    HelpScreenView {
        title: " Help — press Esc / q / ? to close "@,
        lines: navigation_lines() + filter_lines() + action_lines() + note_lines(),
    }
}

/// A key in its column, and what it does.
pub fn help_line(key: &str, desc: &str) -> (line: Line)
    ensures
        line@ == key_line(key@, desc@),
{
    let spans: Vec<Span> = vec![
        Span::raw("    "),
        Span::styled(text::pad_right(key, KEY_WIDTH), Style::bold_fg(Color::Yellow)),
        Span::raw(desc),
    ];
    assert(model::views(spans@) =~= key_line(key@, desc@));
    Line::from_spans(spans)
}

/// A heading.
pub fn help_section(title: &str) -> (line: Line)
    ensures
        line@ == section_line(title@),
{
    Line::single(Span::styled(text::concat2("  ", title), Style::bold_fg(Color::Cyan)))
}

fn help_note(note: &str) -> (line: Line)
    ensures
        line@ == note_line(note@),
{
    Line::single(Span::raw(note))
}

/// The help screen.
pub fn ui_help() -> (screen: HelpScreen)
    ensures
        screen@ == help_screen(),
{
    let lines: Vec<Line> = vec![
        Line::blank(),
        help_section("Navigation"),
        help_line("↑/↓  or  j/k", "move selection (also in detail view)"),
        help_line("←/→  or  h/l", "switch view (Favorites / All)"),
        help_line("Enter", "open instance details"),
        help_line("Esc / q", "back / close the current overlay"),
        Line::blank(),
        help_section("Filters & sort"),
        help_line("f", "find by name or id (Esc/Enter to leave, Backspace to delete)"),
        help_line("s", "cycle status filter (All / Online / ConnectionLost / Inactive)"),
        help_line("a", "cycle alarm filter (All / Alarming / Has alarms)"),
        help_line("o", "cycle order/sort (Default / Alarms / Status / Name)"),
        Line::blank(),
        help_section("Actions"),
        help_line("b", "bookmark / toggle favorite on selected instance (persisted)"),
        help_line("r", "refresh data immediately (auto every 30s)"),
        help_line("p", "switch AWS profile (lists ~/.aws/config and ~/.aws/credentials)"),
        help_line("c", "(in detail view) start an SSM session on the selected instance"),
        Line::blank(),
        help_section("Notes"),
        help_note("    · Favorites are stored at ~/.config/ssm-monitor/favorites"),
        help_note("    · Data auto-refreshes every 30 seconds in the background"),
        help_note("    · Online instances with last ping > 5 min show as (stale) in yellow"),
        help_note("    · SSM session requires the aws CLI and Session Manager plugin"),
    ];
    assert(model::views(lines@) =~= help_screen().lines);
    HelpScreen { title: " Help — press Esc / q / ? to close ".to_owned(), lines }
}

} // verus!
