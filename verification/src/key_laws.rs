//! What each key does in each mode, and that no other key does anything.

use vstd::prelude::*;
use crate::app::AppView;
use crate::favorites;
use crate::filters::Mode;
use crate::input::{ActionView, Key, KeyEvent};
use crate::pane;
use crate::update::CommandView;

verus! {

/// A key that is pressed does what the key does; one that is released does nothing.
pub proof fn law_events(a: AppView, key: Key)
    ensures
        a.on_event(KeyEvent { key, pressed: true }) == a.on_key(key),
        a.on_event(KeyEvent { key, pressed: false }) == (a, ActionView::Stay),
        forall|mode: Mode| #[trigger] a.in_mode(mode) == (AppView { mode, ..a }),
{
}

/// The keys of the list: moving, switching the view, finding, the filters, the order,
/// help and the details of the selected row.
pub proof fn law_list_keys(a: AppView)
    requires
        a.mode == Mode::Normal,
    ensures
        a.on_key(Key::Down) == (a.next(), ActionView::Stay),
        a.on_key(Key::Char('j')) == (a.next(), ActionView::Stay),
        a.on_key(Key::Up) == (a.previous(), ActionView::Stay),
        a.on_key(Key::Char('k')) == (a.previous(), ActionView::Stay),
        forall|key: Key|
            key == Key::Left || key == Key::Right || key == Key::Char('h') || key == Key::Char('l')
                ==> #[trigger] a.on_key(key) == (
                a.switch_view(
                    if a.view == pane::View::All {
                        pane::View::Favorites
                    } else {
                        pane::View::All
                    },
                ),
                ActionView::Stay,
            ),
        a.on_key(Key::Char('f')) == (AppView { mode: Mode::Filtering, ..a }, ActionView::Stay),
        a.on_key(Key::Char('s')) == (a.cycle_status(), ActionView::Stay),
        a.on_key(Key::Char('a')) == (a.cycle_alarm_filter(), ActionView::Stay),
        a.on_key(Key::Char('o')) == (a.cycle_sort(), ActionView::Stay),
        a.on_key(Key::Char('?')) == (AppView { mode: Mode::Help, ..a }, ActionView::Stay),
        a.on_key(Key::Char('q')) == (a, ActionView::Quit),
        a.on_key(Key::Char('p')) == (a, ActionView::ReadProfiles),
        a.selected_id() is Some ==> a.on_key(Key::Enter) == (
            AppView { mode: Mode::Detail, ..a },
            ActionView::Stay,
        ),
        a.selected_id() is None ==> a.on_key(Key::Enter) == (a, ActionView::Stay),
{
}

/// No other key does anything on the list.
pub proof fn law_list_keys_are_all(a: AppView, key: Key)
    requires
        a.mode == Mode::Normal,
        key == Key::Esc || key == Key::Backspace || key == Key::Other || (key matches Key::Char(c)
            && c != 'q' && c != 'j' && c != 'k' && c != 'h' && c != 'l' && c != 'f' && c != 's' && c
            != 'a' && c != 'o' && c != 'b' && c != 'r' && c != 'p' && c != '?'),
    ensures
        a.on_key(key) == (a, ActionView::Stay),
{
}

/// On the list and in the details, `b` changes the bookmark of the selected instance and
/// stores the bookmarks, and `r` asks for a refresh unless one is under way.
pub proof fn law_bookmark_and_refresh_keys(a: AppView, id: Seq<char>)
    requires
        a.mode == Mode::Normal || a.mode == Mode::Detail,
    ensures
        a.selected_id() is None ==> a.on_key(Key::Char('b')) == (a, ActionView::Stay),
        a.selected_id() == Some(id) ==> a.on_key(Key::Char('b')).0 == a.toggle_favorite()
            && a.on_key(Key::Char('b')).1 == ActionView::StoreFavorites(
            favorites::stored_text(a.toggle_favorite().favorites),
        ),
        a.is_refreshing ==> a.on_key(Key::Char('r')) == (a, ActionView::Stay),
        !a.is_refreshing ==> a.on_key(Key::Char('r')) == (
            AppView { is_refreshing: true, ..a },
            ActionView::Send(CommandView::Refresh),
        ),
{
}

/// The keys while the find text is edited: Enter and Escape leave it, Backspace takes the
/// last character off, `?` opens the help, every other character is typed, and no other
/// key does anything.
pub proof fn law_find_keys(a: AppView, key: Key, c: char)
    requires
        a.mode == Mode::Filtering,
    ensures
        a.on_key(Key::Esc) == (AppView { mode: Mode::Normal, ..a }, ActionView::Stay),
        a.on_key(Key::Enter) == (AppView { mode: Mode::Normal, ..a }, ActionView::Stay),
        a.on_key(Key::Backspace) == (a.erase_char(), ActionView::Stay),
        c != '?' ==> a.on_key(Key::Char(c)) == (a.type_char(c), ActionView::Stay),
        a.on_key(Key::Char('?')) == (AppView { mode: Mode::Help, ..a }, ActionView::Stay),
        key == Key::Down || key == Key::Up || key == Key::Left || key == Key::Right || key
            == Key::Other ==> a.on_key(key) == (a, ActionView::Stay),
{
}

/// The keys of the details: closing them, moving, a session and help; no other key does
/// anything but `b` and `r`.
pub proof fn law_detail_keys(a: AppView, key: Key, id: Seq<char>)
    requires
        a.mode == Mode::Detail,
    ensures
        a.on_key(Key::Esc) == (
            AppView { mode: Mode::Normal, last_message: None, ..a },
            ActionView::Stay,
        ),
        a.on_key(Key::Char('q')) == (
            AppView { mode: Mode::Normal, last_message: None, ..a },
            ActionView::Stay,
        ),
        a.on_key(Key::Down) == (a.next(), ActionView::Stay),
        a.on_key(Key::Char('j')) == (a.next(), ActionView::Stay),
        a.on_key(Key::Up) == (a.previous(), ActionView::Stay),
        a.on_key(Key::Char('k')) == (a.previous(), ActionView::Stay),
        a.selected_id() == Some(id) ==> a.on_key(Key::Char('c')) == (
            a,
            ActionView::StartSession { instance_id: id, profile: a.profile },
        ),
        a.selected_id() is None ==> a.on_key(Key::Char('c')) == (a, ActionView::Stay),
        a.on_key(Key::Char('?')) == (AppView { mode: Mode::Help, ..a }, ActionView::Stay),
        key == Key::Left || key == Key::Right || key == Key::Enter || key == Key::Backspace || key
            == Key::Other || (key matches Key::Char(c) && c != 'q' && c != 'j' && c != 'k' && c
            != 'c' && c != 'b' && c != 'r' && c != '?') ==> a.on_key(key) == (
            a,
            ActionView::Stay,
        ),
{
}

/// The keys of the help: three close it, no other does anything.
pub proof fn law_help_keys(a: AppView, key: Key)
    requires
        a.mode == Mode::Help,
    ensures
        key == Key::Esc || key == Key::Char('q') || key == Key::Char('?') ==> a.on_key(key) == (
            AppView { mode: Mode::Normal, ..a },
            ActionView::Stay,
        ),
        key != Key::Esc && key != Key::Char('q') && key != Key::Char('?') ==> a.on_key(key) == (
            a,
            ActionView::Stay,
        ),
{
}

/// Enter in the profile picker closes it. It asks for the profile that the picker points
/// at, whichever of the list that is, exactly if it is not the current one; a refresh is
/// then under way.
pub proof fn law_picker_enter(a: AppView, i: int)
    requires
        a.mode == Mode::ProfilePicker,
        a.profile_picker_idx == i,
        0 <= i < a.profiles.len(),
    ensures
        a.profiles[i] != a.profile ==> a.on_key(Key::Enter) == (
            AppView { mode: Mode::Normal, is_refreshing: true, ..a },
            ActionView::Send(CommandView::SwitchProfile(a.profiles[i])),
        ),
        a.profiles[i] == a.profile ==> a.on_key(Key::Enter) == (
            AppView { mode: Mode::Normal, ..a },
            ActionView::Stay,
        ),
{
}

/// The other keys of the profile picker: closing it, moving and help; no other key does
/// anything. Where the picker points at no profile, Enter only closes it.
pub proof fn law_picker_keys(a: AppView, key: Key)
    requires
        a.mode == Mode::ProfilePicker,
    ensures
        key == Key::Esc || key == Key::Char('q') || key == Key::Char('p') ==> a.on_key(key) == (
            AppView { mode: Mode::Normal, ..a },
            ActionView::Stay,
        ),
        key == Key::Down || key == Key::Char('j') ==> a.on_key(key) == (
            a.picker_next(),
            ActionView::Stay,
        ),
        key == Key::Up || key == Key::Char('k') ==> a.on_key(key) == (
            a.picker_previous(),
            ActionView::Stay,
        ),
        key == Key::Char('?') ==> a.on_key(key) == (
            AppView { mode: Mode::Help, ..a },
            ActionView::Stay,
        ),
        key == Key::Enter && a.profile_picker_idx >= a.profiles.len() ==> a.on_key(key) == (
            AppView { mode: Mode::Normal, ..a },
            ActionView::Stay,
        ),
        key == Key::Left || key == Key::Right || key == Key::Backspace || key == Key::Other || (key
            matches Key::Char(c) && c != 'q' && c != 'p' && c != 'j' && c != 'k' && c != '?')
            ==> a.on_key(key) == (a, ActionView::Stay),
{
}

} // verus!
