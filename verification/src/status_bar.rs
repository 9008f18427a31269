//! The line at the top of the screen: profile, region, freshness and the last error.

use vstd::prelude::*;
use crate::app::{App, AppView};
use crate::clock;
use crate::model;
use crate::style;
use crate::style::{Color, Line, Span, SpanView, Style};
use crate::text;

verus! {

impl AppView {
    /// How fresh the data is. `clock` is the reading of a monotonic clock.
    pub open spec fn freshness(self, clock: u64) -> SpanView {
        if self.is_refreshing {
            style::run("refreshing..."@, style::fg_style(Color::Cyan))
        } else {
            match self.last_refresh {
                Some(then) => style::run(
                    "refreshed "@ + clock::elapsed_text(clock::elapsed_secs(then, clock)),
                    style::fg_style(Color::Green),
                ),
                None => style::run("loaded"@, style::plain_style()),
            }
        }
    }

    /// The last error, if there is one, set off from what stands before it.
    pub open spec fn error_note(self) -> Seq<SpanView> {
        match self.last_error {
            Some(error) => seq![
                style::run("   "@, style::plain_style()),
                style::run("⚠ "@ + error, style::fg_style(Color::Red)),
            ],
            None => seq![],
        }
    }

    /// The line at the top of the screen. `clock` is the reading of a monotonic clock.
    pub open spec fn status_line(self, clock: u64) -> Seq<SpanView> {
        let dim = style::fg_style(Color::DarkGray);
        seq![
            style::run(" "@, style::plain_style()),
            style::run("profile: "@, dim),
            style::run(self.profile, style::bold_style()),
            style::run("  ·  "@, dim),
            style::run("region: "@, dim),
            style::run(self.region, style::bold_style()),
            style::run("  ·  "@, dim),
            self.freshness(clock),
        ] + self.error_note()
    }
}

fn freshness(app: &App, clock: u64) -> (span: Span)
    ensures
        span@ == app@.freshness(clock),
{
    if app.is_refreshing {
        return Span::styled("refreshing...".to_owned(), Style::fg(Color::Cyan));
    }
    match app.last_refresh {
        Some(then) => {
            let ago = clock::format_elapsed(clock::secs_elapsed(then, clock));
            Span::styled(text::concat2("refreshed ", ago.as_str()), Style::fg(Color::Green))
        },
        None => Span::raw("loaded"),
    }
}

/// The line at the top of the screen. `clock` is the reading of a monotonic clock in
/// nanoseconds.
pub fn top_status_line(app: &App, clock: u64) -> (line: Line)
    ensures
        line@ == app@.status_line(clock),
{
    let dim = Style::fg(Color::DarkGray);
    let mut spans: Vec<Span> = vec![
        Span::raw(" "),
        Span::styled("profile: ".to_owned(), dim),
        Span::styled(app.profile.clone(), Style::bold()),
        Span::styled("  ·  ".to_owned(), dim),
        Span::styled("region: ".to_owned(), dim),
        Span::styled(app.region.clone(), Style::bold()),
        Span::styled("  ·  ".to_owned(), dim),
        freshness(app, clock),
    ];
    match &app.last_error {
        Some(error) => {
            spans.push(Span::raw("   "));
            spans.push(
                Span::styled(text::concat2("⚠ ", error.as_str()), Style::fg(Color::Red)),
            );
        },
        None => {},
    }
    assert(model::views(spans@) =~= app@.status_line(clock));
    Line::from_spans(spans)
}

} // verus!
