//! What is on the screen in each mode.

use vstd::prelude::*;
use crate::app::{App, AppView};
use crate::clock;
use crate::detail_screen;
use crate::detail_screen::{DetailScreen, DetailScreenView};
use crate::filters::Mode;
use crate::help_screen;
use crate::help_screen::{HelpScreen, HelpScreenView};
use crate::laws;
use crate::layout;
use crate::layout::Rect;
use crate::list_screen;
use crate::list_screen::{ListScreen, ListScreenView};
use crate::picker_screen;
use crate::picker_screen::{PickerScreen, PickerScreenView};

verus! {

/// What is on the screen.
pub enum Screen {
    List(ListScreen),
    Detail(DetailScreen),
    Help(HelpScreen),
    /// The profile picker over the list.
    Picker(ListScreen, PickerScreen),
    /// Nothing.
    Blank,
}

/// What a `Screen` shows.
pub enum ScreenView {
    List(ListScreenView),
    Detail(DetailScreenView),
    Help(HelpScreenView),
    Picker(ListScreenView, PickerScreenView),
    Blank,
}

impl View for Screen {
    type V = ScreenView;

    open spec fn view(&self) -> ScreenView {
        match self {
            Screen::List(list) => ScreenView::List(list@),
            Screen::Detail(detail) => ScreenView::Detail(detail@),
            Screen::Help(help) => ScreenView::Help(help@),
            Screen::Picker(list, picker) => ScreenView::Picker(list@, picker@),
            Screen::Blank => ScreenView::Blank,
        }
    }
}

impl AppView {
    /// Whether `list` is the list on a screen of the size `area`.
    pub open spec fn shows_list(
        self,
        list: ListScreenView,
        area: Rect,
        now: i64,
        clock: u64,
    ) -> bool {
        &&& layout::divided(list.areas, area, list_screen::list_division())
        &&& list == self.list_screen(list.areas, now, clock)
    }

    /// Whether `detail` are the details of the selected instance on a screen of the size
    /// `area`.
    pub open spec fn shows_detail(
        self,
        detail: DetailScreenView,
        area: Rect,
        now: i64,
        clock: u64,
    ) -> bool {
        &&& self.detailed() is Some
        &&& layout::divided(detail.areas, area, detail_screen::detail_division())
        &&& detail == self.detail_screen(self.detailed()->0, detail.areas, now, clock)
    }

    /// Whether `screen` is what a screen of the size `area` shows at the time `now` and
    /// the reading `clock` of a monotonic clock. Where the parts of a screen do not fit,
    /// where its areas begin and how high they are is left open.
    pub open spec fn shows(self, screen: ScreenView, area: Rect, now: i64, clock: u64) -> bool {
        match self.mode {
            Mode::Help => screen == ScreenView::Help(help_screen::help_screen()),
            Mode::Detail => match screen {
                ScreenView::Detail(detail) => self.shows_detail(detail, area, now, clock),
                ScreenView::Blank => self.detailed() is None,
                _ => false,
            },
            Mode::ProfilePicker => match screen {
                ScreenView::Picker(list, picker) => {
                    &&& self.shows_list(list, area, now, clock)
                    &&& picker == self.picker_screen(area)
                },
                _ => false,
            },
            _ => match screen {
                ScreenView::List(list) => self.shows_list(list, area, now, clock),
                _ => false,
            },
        }
    }

    /// The state after the screen was drawn: where the details of no instance can be
    /// shown, the list comes back.
    pub open spec fn drawn(self) -> AppView {
        if self.mode == Mode::Detail && self.detailed() is None {
            self.in_mode(Mode::Normal)
        } else {
            self
        }
    }
}

/// What a screen of the size `area` shows at the time `now` and the reading `clock` of a
/// monotonic clock in nanoseconds.
pub fn ui_at(app: &mut App, area: Rect, now: i64, clock: u64) -> (screen: Screen)
    requires
        old(app).in_cycle(),
    ensures
        old(app)@.shows(screen@, area, now, clock),
        final(app)@ == old(app)@.drawn(),
        final(app).in_cycle(),
        old(app)@.well_formed() ==> final(app)@.well_formed(),
{
    proof {
        if app@.well_formed() {
            laws::law_drawing_keeps_invariant(app@);
        }
    }
    match app.mode {
        Mode::Help => Screen::Help(help_screen::ui_help()),
        Mode::Detail => match detail_screen::ui_detail(app, area, now, clock) {
            Some(detail) => Screen::Detail(detail),
            None => Screen::Blank,
        },
        Mode::ProfilePicker => {
            let list = list_screen::ui_list(app, area, now, clock);
            let picker = picker_screen::ui_profile_picker(app, area);
            Screen::Picker(list, picker)
        },
        _ => Screen::List(list_screen::ui_list(app, area, now, clock)),
    }
}

/// What a screen of the size `area` shows now, by the system clock. `clock` is the
/// reading of a monotonic clock in nanoseconds.
pub fn ui(app: &mut App, area: Rect, clock: u64) -> (screen: Screen)
    requires
        old(app).in_cycle(),
    ensures
        exists|now: i64| #[trigger] old(app)@.shows(screen@, area, now, clock),
        final(app)@ == old(app)@.drawn(),
        final(app).in_cycle(),
        old(app)@.well_formed() ==> final(app)@.well_formed(),
{
    let now = clock::now_secs();
    let screen = ui_at(app, area, now, clock);
    assert(old(app)@.shows(screen@, area, now, clock));
    screen
}

} // verus!
