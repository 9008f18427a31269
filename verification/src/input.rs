//! What each key does in each mode.

use vstd::prelude::*;
use crate::app::{App, AppView};
use crate::favorites;
use crate::filters::Mode;
use crate::laws;
use crate::text;
use crate::update;
use crate::update::{AppCommand, CommandView};

verus! {

/// A key of the keyboard.
#[derive(Clone, Copy, PartialEq, Eq, Structural, Debug)]
pub enum Key {
    Char(char),
    Down,
    Up,
    Left,
    Right,
    Enter,
    Esc,
    Backspace,
    Other,
}

/// A key that was pressed, or that was released or repeated.
#[derive(Clone, Copy, PartialEq, Eq, Structural, Debug)]
pub struct KeyEvent {
    pub key: Key,
    pub pressed: bool,
}

/// What has to be done outside the monitor's state after a key.
pub enum Action {
    /// Nothing.
    Stay,
    /// The program ends.
    Quit,
    /// The bookmarks have to be stored under this text.
    StoreFavorites(String),
    /// The profiles have to be read and handed to the profile picker.
    ReadProfiles,
    /// The loader has to be asked for something.
    Send(AppCommand),
    /// A session has to be started.
    StartSession { instance_id: String, profile: String },
}

/// What an `Action` says.
pub enum ActionView {
    Stay,
    Quit,
    StoreFavorites(Seq<char>),
    ReadProfiles,
    Send(CommandView),
    StartSession { instance_id: Seq<char>, profile: Seq<char> },
}

impl View for Action {
    type V = ActionView;

    open spec fn view(&self) -> ActionView {
        match self {
            Action::Stay => ActionView::Stay,
            Action::Quit => ActionView::Quit,
            Action::StoreFavorites(text) => ActionView::StoreFavorites(text@),
            Action::ReadProfiles => ActionView::ReadProfiles,
            Action::Send(command) => ActionView::Send(command@),
            Action::StartSession { instance_id, profile } => ActionView::StartSession {
                instance_id: instance_id@,
                profile: profile@,
            },
        }
    }
}

impl AppView {
    /// The state in another mode.
    pub open spec fn in_mode(self, mode: Mode) -> AppView {
        AppView { mode, ..self }
    }

    /// The bookmark key: the selected row, if there is one, is toggled and the bookmarks
    /// are stored.
    pub open spec fn bookmark_key(self) -> (AppView, ActionView) {
        (
            self.toggle_favorite(),
            match self.selected_id() {
                Some(id) => ActionView::StoreFavorites(favorites::stored_text(self.toggled(id))),
                None => ActionView::Stay,
            },
        )
    }

    /// The refresh key: a refresh is asked for unless one is under way.
    pub open spec fn refresh_key(self) -> (AppView, ActionView) {
        (
            self.refresh_requested(),
            if self.is_refreshing {
                ActionView::Stay
            } else {
                ActionView::Send(CommandView::Refresh)
            },
        )
    }

    /// What a key does on the list.
    pub open spec fn key_normal(self, key: Key) -> (AppView, ActionView) {
        let stay = ActionView::Stay;
        match key {
            Key::Down => (self.next(), stay),
            Key::Up => (self.previous(), stay),
            Key::Left => (self.switch_view(self.view.other()), stay),
            Key::Right => (self.switch_view(self.view.other()), stay),
            Key::Enter => if self.selected_id() is Some {
                (self.in_mode(Mode::Detail), stay)
            } else {
                (self, stay)
            },
            Key::Char(c) => if c == 'q' {
                (self, ActionView::Quit)
            } else if c == 'j' {
                (self.next(), stay)
            } else if c == 'k' {
                (self.previous(), stay)
            } else if c == 'h' || c == 'l' {
                (self.switch_view(self.view.other()), stay)
            } else if c == 'f' {
                (self.in_mode(Mode::Filtering), stay)
            } else if c == 's' {
                (self.cycle_status(), stay)
            } else if c == 'a' {
                (self.cycle_alarm_filter(), stay)
            } else if c == 'o' {
                (self.cycle_sort(), stay)
            } else if c == 'b' {
                self.bookmark_key()
            } else if c == 'r' {
                self.refresh_key()
            } else if c == 'p' {
                (self, ActionView::ReadProfiles)
            } else if c == '?' {
                (self.in_mode(Mode::Help), stay)
            } else {
                (self, stay)
            },
            Key::Esc => (self, stay),
            Key::Backspace => (self, stay),
            Key::Other => (self, stay),
        }
    }

    /// What a key does while the find text is edited.
    pub open spec fn key_filtering(self, key: Key) -> AppView {
        match key {
            Key::Esc => self.in_mode(Mode::Normal),
            Key::Enter => self.in_mode(Mode::Normal),
            Key::Backspace => self.erase_char(),
            Key::Char(c) => if c == '?' {
                self.in_mode(Mode::Help)
            } else {
                self.type_char(c)
            },
            _ => self,
        }
    }

    /// What a key does on the details of an instance.
    pub open spec fn key_detail(self, key: Key) -> (AppView, ActionView) {
        let stay = ActionView::Stay;
        let closed = AppView { mode: Mode::Normal, last_message: None, ..self };
        match key {
            Key::Esc => (closed, stay),
            Key::Down => (self.next(), stay),
            Key::Up => (self.previous(), stay),
            Key::Char(c) => if c == 'q' {
                (closed, stay)
            } else if c == 'j' {
                (self.next(), stay)
            } else if c == 'k' {
                (self.previous(), stay)
            } else if c == 'c' {
                (
                    self,
                    match self.selected_id() {
                        Some(id) => ActionView::StartSession {
                            instance_id: id,
                            profile: self.profile,
                        },
                        None => stay,
                    },
                )
            } else if c == 'b' {
                self.bookmark_key()
            } else if c == 'r' {
                self.refresh_key()
            } else if c == '?' {
                (self.in_mode(Mode::Help), stay)
            } else {
                (self, stay)
            },
            _ => (self, stay),
        }
    }

    /// What a key does on the help screen.
    pub open spec fn key_help(self, key: Key) -> AppView {
        if key == Key::Esc || key == Key::Char('q') || key == Key::Char('?') {
            self.in_mode(Mode::Normal)
        } else {
            self
        }
    }

    /// The profile that the picker points at, if it is another one than the current.
    pub open spec fn picked(self) -> Option<Seq<char>> {
        let i = self.profile_picker_idx;
        if 0 <= i < self.profiles.len() && self.profiles[i] != self.profile {
            Some(self.profiles[i])
        } else {
            None
        }
    }

    /// What a key does on the profile picker.
    pub open spec fn key_picker(self, key: Key) -> (AppView, ActionView) {
        let stay = ActionView::Stay;
        match key {
            Key::Esc => (self.in_mode(Mode::Normal), stay),
            Key::Down => (self.picker_next(), stay),
            Key::Up => (self.picker_previous(), stay),
            Key::Enter => match self.picked() {
                Some(name) => (
                    self.refresh_requested().in_mode(Mode::Normal),
                    ActionView::Send(CommandView::SwitchProfile(name)),
                ),
                None => (self.in_mode(Mode::Normal), stay),
            },
            Key::Char(c) => if c == 'q' || c == 'p' {
                (self.in_mode(Mode::Normal), stay)
            } else if c == 'j' {
                (self.picker_next(), stay)
            } else if c == 'k' {
                (self.picker_previous(), stay)
            } else if c == '?' {
                (self.in_mode(Mode::Help), stay)
            } else {
                (self, stay)
            },
            _ => (self, stay),
        }
    }

    /// What a key does.
    pub open spec fn on_key(self, key: Key) -> (AppView, ActionView) {
        match self.mode {
            Mode::Normal => self.key_normal(key),
            Mode::Filtering => (self.key_filtering(key), ActionView::Stay),
            Mode::Detail => self.key_detail(key),
            Mode::Help => (self.key_help(key), ActionView::Stay),
            Mode::ProfilePicker => self.key_picker(key),
        }
    }

    /// What a key event does: only a key that is pressed does something.
    pub open spec fn on_event(self, event: KeyEvent) -> (AppView, ActionView) {
        if event.pressed {
            self.on_key(event.key)
        } else {
            (self, ActionView::Stay)
        }
    }
}

impl App {
    /// The bookmark key.
    fn bookmark_key(&mut self) -> (action: Action)
        requires
            old(self).in_cycle(),
        ensures
            (final(self)@, action@) == old(self)@.bookmark_key(),
            final(self).in_cycle(),
    {
        match self.toggle_favorite() {
            Some(stored) => Action::StoreFavorites(stored),
            None => Action::Stay,
        }
    }

    /// The refresh key.
    fn refresh_key(&mut self) -> (action: Action)
        ensures
            (final(self)@, action@) == old(self)@.refresh_key(),
            final(self).status_filter_idx == old(self).status_filter_idx,
    {
        match update::request_refresh(self) {
            Some(command) => Action::Send(command),
            None => Action::Stay,
        }
    }

    /// A key on the list.
    fn key_normal(&mut self, key: Key) -> (action: Action)
        requires
            old(self).in_cycle(),
        ensures
            (final(self)@, action@) == old(self)@.key_normal(key),
            final(self).in_cycle(),
    {
        match key {
            Key::Down => {
                self.next();
            },
            Key::Up => {
                self.previous();
            },
            Key::Left | Key::Right => {
                let view = self.view.toggle();
                self.switch_view(view);
            },
            Key::Enter => {
                if self.selected_id().is_some() {
                    self.mode = Mode::Detail;
                }
            },
            Key::Char(c) => {
                if c == 'q' {
                    return Action::Quit;
                } else if c == 'j' {
                    self.next();
                } else if c == 'k' {
                    self.previous();
                } else if c == 'h' || c == 'l' {
                    let view = self.view.toggle();
                    self.switch_view(view);
                } else if c == 'f' {
                    self.mode = Mode::Filtering;
                } else if c == 's' {
                    self.cycle_status();
                } else if c == 'a' {
                    self.cycle_alarm_filter();
                } else if c == 'o' {
                    self.cycle_sort();
                } else if c == 'b' {
                    return self.bookmark_key();
                } else if c == 'r' {
                    return self.refresh_key();
                } else if c == 'p' {
                    return Action::ReadProfiles;
                } else if c == '?' {
                    self.mode = Mode::Help;
                }
            },
            _ => {},
        }
        Action::Stay
    }

    /// A key while the find text is edited.
    fn key_filtering(&mut self, key: Key)
        requires
            old(self).in_cycle(),
        ensures
            final(self)@ == old(self)@.key_filtering(key),
            final(self).in_cycle(),
    {
        match key {
            Key::Esc | Key::Enter => {
                self.mode = Mode::Normal;
            },
            Key::Backspace => {
                self.erase_char();
            },
            Key::Char(c) => {
                if c == '?' {
                    self.mode = Mode::Help;
                } else {
                    self.type_char(c);
                }
            },
            _ => {},
        }
    }

    /// A key on the details of an instance.
    fn key_detail(&mut self, key: Key) -> (action: Action)
        requires
            old(self).in_cycle(),
        ensures
            (final(self)@, action@) == old(self)@.key_detail(key),
            final(self).in_cycle(),
    {
        match key {
            Key::Esc => {
                self.mode = Mode::Normal;
                self.last_message = None;
            },
            Key::Down => {
                self.next();
            },
            Key::Up => {
                self.previous();
            },
            Key::Char(c) => {
                if c == 'q' {
                    self.mode = Mode::Normal;
                    self.last_message = None;
                } else if c == 'j' {
                    self.next();
                } else if c == 'k' {
                    self.previous();
                } else if c == 'c' {
                    match self.selected_id() {
                        Some(instance_id) => {
                            let profile = self.profile.clone();
                            return Action::StartSession { instance_id, profile };
                        },
                        None => {},
                    }
                } else if c == 'b' {
                    return self.bookmark_key();
                } else if c == 'r' {
                    return self.refresh_key();
                } else if c == '?' {
                    self.mode = Mode::Help;
                }
            },
            _ => {},
        }
        Action::Stay
    }

    /// A key on the profile picker.
    fn key_picker(&mut self, key: Key) -> (action: Action)
        requires
            old(self).in_cycle(),
            old(self).profiles@.len() > 0 ==> old(self).profile_picker_idx < usize::MAX,
        ensures
            (final(self)@, action@) == old(self)@.key_picker(key),
            final(self).in_cycle(),
    {
        match key {
            Key::Esc => {
                self.mode = Mode::Normal;
            },
            Key::Down => {
                self.picker_next();
            },
            Key::Up => {
                self.picker_previous();
            },
            Key::Enter => {
                let i = self.profile_picker_idx;
                let mut action = Action::Stay;
                if i < self.profiles.len() {
                    assert(self@.profiles[i as int] == self.profiles@[i as int]@);
                    if !text::text_eq(self.profiles[i].as_str(), self.profile.as_str()) {
                        self.is_refreshing = true;
                        action = Action::Send(AppCommand::SwitchProfile(self.profiles[i].clone()));
                    }
                }
                self.mode = Mode::Normal;
                return action;
            },
            Key::Char(c) => {
                if c == 'q' || c == 'p' {
                    self.mode = Mode::Normal;
                } else if c == 'j' {
                    self.picker_next();
                } else if c == 'k' {
                    self.picker_previous();
                } else if c == '?' {
                    self.mode = Mode::Help;
                }
            },
            _ => {},
        }
        Action::Stay
    }

    /// Reacts to a key that was pressed.
    pub fn on_key(&mut self, key: Key) -> (action: Action)
        requires
            old(self).in_cycle(),
            old(self).mode == Mode::ProfilePicker && old(self).profiles@.len() > 0 ==> old(
                self,
            ).profile_picker_idx < usize::MAX,
        ensures
            (final(self)@, action@) == old(self)@.on_key(key),
            final(self).in_cycle(),
    {
        match self.mode {
            Mode::Normal => self.key_normal(key),
            Mode::Filtering => {
                self.key_filtering(key);
                Action::Stay
            },
            Mode::Detail => self.key_detail(key),
            Mode::Help => {
                if key == Key::Esc || key == Key::Char('q') || key == Key::Char('?') {
                    self.mode = Mode::Normal;
                }
                Action::Stay
            },
            Mode::ProfilePicker => self.key_picker(key),
        }
    }

    /// Reacts to a key event; a key that is released or repeated does nothing.
    pub fn on_event(&mut self, event: KeyEvent) -> (action: Action)
        requires
            old(self).in_cycle(),
            old(self).mode == Mode::ProfilePicker && old(self).profiles@.len() > 0 ==> old(
                self,
            ).profile_picker_idx < usize::MAX,
        ensures
            (final(self)@, action@) == old(self)@.on_event(event),
            final(self).in_cycle(),
            old(self)@.well_formed() ==> final(self)@.well_formed(),
    {
        proof {
            if self@.well_formed() {
                laws::law_keys_keep_invariant(self@, event);
            }
        }
        if event.pressed {
            self.on_key(event.key)
        } else {
            Action::Stay
        }
    }
}

} // verus!
