//! The profile picker, which is drawn over the list.

use vstd::prelude::*;
use crate::app::{App, AppView};
use crate::layout;
use crate::layout::Rect;
use crate::model;
use crate::style;
use crate::style::{Color, Line, Span, SpanView, Style};
use crate::text;

verus! {

/// The width of the picker.
pub const PICKER_WIDTH: u16 = 50;

/// The picker is at most this high.
pub const PICKER_HEIGHT: u16 = 20;

/// The profile picker.
pub struct PickerScreen {
    pub area: Rect,
    pub style: Style,
    pub title: String,
    pub lines: Vec<Line>,
}

/// What a `PickerScreen` shows.
#[verifier::ext_equal]
pub struct PickerScreenView {
    pub area: Rect,
    pub style: Style,
    pub title: Seq<char>,
    pub lines: Seq<Seq<SpanView>>,
}

impl View for PickerScreen {
    type V = PickerScreenView;

    open spec fn view(&self) -> PickerScreenView {
        PickerScreenView {
            area: self.area,
            style: self.style,
            title: self.title@,
            lines: model::views(self.lines@),
        }
    }
}

/// The height of a picker of `n` profiles: four lines more than there are profiles, but
/// not more than fit. The number is counted in 16 bits.
pub open spec fn picker_height(n: nat) -> u16 {
    let needed = n % 0x1_0000 + 4;
    if needed < PICKER_HEIGHT {
        needed as u16
    } else {
        PICKER_HEIGHT
    }
}

impl AppView {
    /// The style of the profile at position `i` of the picker.
    pub open spec fn profile_style(self, i: int) -> Style {
        if i == self.profile_picker_idx {
            Style { fg: Some(Color::Black), bg: Some(Color::Yellow), bold: true }
        } else if self.profiles[i] == self.profile {
            style::fg_style(Color::Green)
        } else {
            style::plain_style()
        }
    }

    /// The line of the profile at position `i` of the picker; the current profile has a
    /// mark.
    pub open spec fn profile_line(self, i: int) -> Seq<SpanView> {
        let marker = if self.profiles[i] == self.profile {
            " ● "@
        } else {
            "   "@
        };
        seq![style::run(marker + self.profiles[i], self.profile_style(i))]
    }

    /// The lines of the picker.
    pub open spec fn profile_lines(self) -> Seq<Seq<SpanView>> {
        Seq::new(self.profiles.len(), |i: int| self.profile_line(i))
    }

    /// The picker in the middle of a screen of the size `area`.
    pub open spec fn picker_screen(self, area: Rect) -> PickerScreenView {
        PickerScreenView {
            area: layout::centered(PICKER_WIDTH, picker_height(self.profiles.len()), area),
            style: Style { fg: None, bg: Some(Color::Black), bold: false },
            title: " Switch profile — ↑/↓ · Enter to confirm · Esc to cancel "@,
            lines: self.profile_lines(),
        }
    }
}

fn height_for(n: usize) -> (height: u16)
    ensures
        height == picker_height(n as nat),
{
    let counted = (n % 0x1_0000) as u16;
    if counted < PICKER_HEIGHT - 4 {
        counted + 4
    } else {
        PICKER_HEIGHT
    }
}

fn profile_line(app: &App, i: usize) -> (line: Line)
    requires
        i < app.profiles@.len(),
    ensures
        line@ == app@.profile_line(i as int),
{
    let name = app.profiles[i].as_str();
    let is_current = text::text_eq(name, app.profile.as_str());
    let marker = if is_current {
        " ● "
    } else {
        "   "
    };
    let style = if i == app.profile_picker_idx {
        Style { fg: Some(Color::Black), bg: Some(Color::Yellow), bold: true }
    } else if is_current {
        Style::fg(Color::Green)
    } else {
        Style::plain()
    };
    Line::single(Span::styled(text::concat2(marker, name), style))
}

/// The picker in the middle of a screen of the size `area`.
pub fn ui_profile_picker(app: &App, area: Rect) -> (screen: PickerScreen)
    ensures
        screen@ == app@.picker_screen(area),
{
    let height = height_for(app.profiles.len());
    let mut lines: Vec<Line> = Vec::new();
    let mut n: usize = 0;
    assert(model::views(lines@) =~= app@.profile_lines().take(0));
    while n < app.profiles.len()
        invariant
            n <= app.profiles@.len(),
            model::views(lines@) == app@.profile_lines().take(n as int),
        decreases app.profiles@.len() - n,
    {
        let line = profile_line(app, n);
        proof {
            model::lemma_views_push(lines@, line);
            assert(app@.profile_lines().take(n + 1) =~= app@.profile_lines().take(n as int).push(
                app@.profile_lines()[n as int],
            ));
        }
        lines.push(line);
        n = n + 1;
    }
    assert(app@.profile_lines().take(n as int) =~= app@.profile_lines());
    PickerScreen {
        area: layout::centered_rect(PICKER_WIDTH, height, area),
        style: Style { fg: None, bg: Some(Color::Black), bold: false },
        title: " Switch profile — ↑/↓ · Enter to confirm · Esc to cancel ".to_owned(),
        lines,
    }
}

} // verus!
