//! What holds of the monitor as a whole: its invariant, what each key keeps, and how the
//! list relates to the fleet.

use vstd::prelude::*;
use crate::app;
use crate::app::AppView;
use crate::favorites;
use crate::filters;
use crate::filters::{AlarmFilter, Mode, Sort};
use crate::input::{ActionView, Key, KeyEvent};
use crate::instance;
use crate::instance::InstanceView;
use crate::order;
use crate::pane;
use crate::style;
use crate::style::Color;
use crate::text;
use crate::update::{CommandView, UpdateView};

verus! {

impl AppView {
    /// The invariant of the monitor: the status filter stands at a step of its cycle, a
    /// row of the list is selected unless the list is empty, and the profile picker
    /// points at a profile.
    pub open spec fn well_formed(self) -> bool {
        &&& 0 <= self.status_filter_idx < filters::STATUS_STEPS
        &&& match self.selected {
            Some(row) => 0 <= row < self.visible().len(),
            None => self.visible().len() == 0 && self.offset == 0,
        }
        &&& self.profiles.len() > 0 ==> 0 <= self.profile_picker_idx < self.profiles.len()
        &&& self.mode == Mode::ProfilePicker ==> self.profiles.len() > 0
    }

    /// Everything that decides which rows are listed, and in which order, is as in
    /// `other`.
    pub open spec fn lists_as(self, other: AppView) -> bool {
        &&& self.all_instances == other.all_instances
        &&& self.view == other.view
        &&& self.sort == other.sort
        &&& self.filter_text == other.filter_text
        &&& self.status_filter_idx == other.status_filter_idx
        &&& self.alarm_filter == other.alarm_filter
        &&& self.favorites == other.favorites
    }
}

/// The rows depend on the fleet, the view, the sort order, the filters and the bookmarks
/// alone.
pub proof fn law_rows_depend_on(a: AppView, b: AppView)
    requires
        a.lists_as(b),
    ensures
        a.visible() == b.visible(),
{
    assert(a.listing() =~= b.listing()) by {
        assert forall|i: InstanceView| #[trigger] a.listing()(i) == b.listing()(i) by {
            assert(a.lists(i) == b.lists(i));
        }
    }
    assert(a.row_order() =~= b.row_order()) by {
        assert forall|i: InstanceView, j: InstanceView| #[trigger]
            a.row_order()(i, j) == b.row_order()(i, j) by {
            assert(a.precedes(i, j) == b.precedes(i, j));
        }
    }
}

proof fn lemma_select_keeps_rows(a: AppView, row: Option<int>)
    ensures
        a.select(row).visible() == a.visible(),
{
    law_rows_depend_on(a.select(row), a);
}

/// The first row is selected, or none of an empty list.
pub proof fn law_reset_selection(a: AppView)
    ensures
        a.reset_selection().visible() == a.visible(),
        a.visible().len() > 0 ==> a.reset_selection().selected == Some(0int),
        a.visible().len() == 0 ==> a.reset_selection().selected is None,
{
    lemma_select_keeps_rows(a, None);
    lemma_select_keeps_rows(a, Some(0));
}

/// An instance that is listed is found again under its id; otherwise the first row is
/// selected.
pub proof fn law_reselect(a: AppView, id: Seq<char>)
    ensures
        a.reselect(Some(id)).visible() == a.visible(),
        (exists|i: int| 0 <= i < a.visible().len() && (#[trigger] a.visible()[i]).id == id)
            ==> a.reselect(Some(id)).selected_id() == Some(id),
        !(exists|i: int| 0 <= i < a.visible().len() && (#[trigger] a.visible()[i]).id == id)
            ==> a.reselect(Some(id)) == a.reset_selection(),
{
    app::lemma_position_of(a.visible(), id);
    law_reset_selection(a);
    match app::position_of(a.visible(), id) {
        Some(row) => {
            lemma_select_keeps_rows(a, Some(row));
        },
        None => {},
    }
}

proof fn lemma_reselect_valid(a: AppView, id: Option<Seq<char>>)
    requires
        0 <= a.status_filter_idx < filters::STATUS_STEPS,
        a.profiles.len() > 0 ==> 0 <= a.profile_picker_idx < a.profiles.len(),
        a.mode == Mode::ProfilePicker ==> a.profiles.len() > 0,
    ensures
        a.reselect(id).well_formed(),
        a.reset_selection().well_formed(),
        a.select(None).reset_selection().well_formed(),
        a.select(None).reset_selection().visible() == a.visible(),
{
    law_reset_selection(a);
    lemma_select_keeps_rows(a, None);
    law_reset_selection(a.select(None));
    match id {
        Some(id) => {
            app::lemma_position_of(a.visible(), id);
            match app::position_of(a.visible(), id) {
                Some(row) => {
                    lemma_select_keeps_rows(a, Some(row));
                },
                None => {},
            }
        },
        None => {},
    }
}

/// The monitor starts with its invariant.
pub proof fn law_started(
    instances: Seq<InstanceView>,
    favorites: Set<Seq<char>>,
    region: Seq<char>,
    profile: Seq<char>,
    profiles: Seq<Seq<char>>,
    now: u64,
)
    ensures
        AppView::started(instances, favorites, region, profile, profiles, now).well_formed(),
{
    let a = AppView::started(instances, favorites, region, profile, profiles, now);
    let raw = AppView { selected: None, offset: 0, ..a };
    law_rows_depend_on(raw, a);
    lemma_reselect_valid(raw, None);
}

/// Moving the selection keeps the invariant.
pub proof fn law_moves_keep_invariant(a: AppView)
    requires
        a.well_formed(),
    ensures
        a.next().well_formed(),
        a.next().visible() == a.visible(),
        a.previous().well_formed(),
        a.previous().visible() == a.visible(),
{
    law_rows_depend_on(a.next(), a);
    law_rows_depend_on(a.previous(), a);
}

/// Bookmarking keeps the invariant.
pub proof fn law_toggle_keeps_invariant(a: AppView)
    requires
        a.well_formed(),
    ensures
        a.toggle_favorite().well_formed(),
{
    match a.selected_id() {
        Some(id) => {
            let favorites = a.toggled(id);
            let next = AppView { favorites, view: a.view_with(favorites), ..a };
            app::lemma_position_of(next.visible(), id);
            lemma_reselect_valid(next, Some(id));
        },
        None => {},
    }
}

proof fn lemma_normal_key(a: AppView, key: Key)
    requires
        a.well_formed(),
    ensures
        a.key_normal(key).0.well_formed(),
{
    law_moves_keep_invariant(a);
    law_toggle_keeps_invariant(a);
    lemma_reselect_valid(AppView { view: a.view.other(), ..a }, a.selected_id());
    lemma_reselect_valid(AppView { sort: a.sort.successor(), ..a }, a.selected_id());
    lemma_reselect_valid(AppView { alarm_filter: a.alarm_filter.successor(), ..a }, None);
    lemma_reselect_valid(
        AppView {
            status_filter_idx: (a.status_filter_idx + 1) % filters::STATUS_STEPS as int,
            ..a
        },
        None,
    );
    law_rows_depend_on(a.in_mode(Mode::Detail), a);
    law_rows_depend_on(a.in_mode(Mode::Filtering), a);
    law_rows_depend_on(a.in_mode(Mode::Help), a);
    law_rows_depend_on(a.refresh_requested(), a);
}

proof fn lemma_filtering_key(a: AppView, key: Key)
    requires
        a.well_formed(),
    ensures
        a.key_filtering(key).well_formed(),
{
    law_rows_depend_on(a.in_mode(Mode::Normal), a);
    law_rows_depend_on(a.in_mode(Mode::Help), a);
    match key {
        Key::Char(c) => {
            lemma_reselect_valid(AppView { filter_text: a.filter_text.push(c), ..a }, None);
        },
        Key::Backspace => {
            lemma_reselect_valid(a, None);
            lemma_reselect_valid(AppView { filter_text: a.filter_text.drop_last(), ..a }, None);
        },
        _ => {},
    }
}

proof fn lemma_detail_key(a: AppView, key: Key)
    requires
        a.well_formed(),
    ensures
        a.key_detail(key).0.well_formed(),
{
    law_moves_keep_invariant(a);
    law_toggle_keeps_invariant(a);
    law_rows_depend_on(AppView { mode: Mode::Normal, last_message: None, ..a }, a);
    law_rows_depend_on(a.in_mode(Mode::Help), a);
    law_rows_depend_on(a.refresh_requested(), a);
}

proof fn lemma_picker_key(a: AppView, key: Key)
    requires
        a.well_formed(),
    ensures
        a.key_picker(key).0.well_formed(),
{
    law_rows_depend_on(a.in_mode(Mode::Normal), a);
    law_rows_depend_on(a.in_mode(Mode::Help), a);
    law_rows_depend_on(a.refresh_requested().in_mode(Mode::Normal), a);
    law_rows_depend_on(a.picker_next(), a);
    law_rows_depend_on(a.picker_previous(), a);
}

/// Every key keeps the invariant.
pub proof fn law_keys_keep_invariant(a: AppView, event: KeyEvent)
    requires
        a.well_formed(),
    ensures
        a.on_event(event).0.well_formed(),
{
    lemma_normal_key(a, event.key);
    lemma_filtering_key(a, event.key);
    lemma_detail_key(a, event.key);
    lemma_picker_key(a, event.key);
    law_rows_depend_on(a.in_mode(Mode::Normal), a);
}

/// News from the loader keep the invariant.
pub proof fn law_updates_keep_invariant(a: AppView, update: UpdateView, now: u64)
    requires
        a.well_formed(),
    ensures
        a.apply_update(update, now).well_formed(),
{
    let b = a.apply_update(update, now);
    match update {
        UpdateView::Loaded(list) => {
            lemma_reselect_valid(AppView { all_instances: list, ..a }, a.selected_id());
            law_rows_depend_on(b, a.apply_instances(list));
        },
        _ => {
            law_rows_depend_on(b, a);
        },
    }
}

/// Opening the profile picker keeps the invariant, whatever profiles were read.
pub proof fn law_picker_keeps_invariant(a: AppView, profiles: Seq<Seq<char>>)
    requires
        a.well_formed(),
        a.mode != Mode::ProfilePicker,
    ensures
        a.open_profile_picker(profiles).well_formed(),
{
    law_rows_depend_on(a.open_profile_picker(profiles), a);
    assert(profiles.len() > 0 ==> 0 <= text::first_index_or_zero(profiles, a.profile)
        < profiles.len()) by {
        profiles.index_of_first_ensures(a.profile);
    }
}

/// The end of a session keeps the invariant.
pub proof fn law_sessions_keep_invariant(
    a: AppView,
    outcome: Result<Option<Seq<char>>, Seq<char>>,
)
    requires
        a.well_formed(),
    ensures
        a.session_finished(outcome).well_formed(),
{
    law_rows_depend_on(a.session_finished(outcome), a);
}

/// Drawing the screen keeps the invariant.
pub proof fn law_drawing_keeps_invariant(a: AppView)
    requires
        a.well_formed(),
    ensures
        a.drawn().well_formed(),
{
    law_rows_depend_on(a.drawn(), a);
}

/// One step down and one step up cancel each other out.
pub proof fn law_next_and_previous_cancel(a: AppView)
    requires
        a.well_formed(),
    ensures
        a.next().previous() == a,
        a.previous().next() == a,
{
    law_moves_keep_invariant(a);
    assert(a.next().previous() =~= a);
    assert(a.previous().next() =~= a);
}

impl AppView {
    /// The state after `k` steps down.
    pub open spec fn moved_down(self, k: nat) -> AppView
        decreases k,
    {
        if k == 0 {
            self
        } else {
            self.moved_down((k - 1) as nat).next()
        }
    }

    /// The state after `k` steps up.
    pub open spec fn moved_up(self, k: nat) -> AppView
        decreases k,
    {
        if k == 0 {
            self
        } else {
            self.moved_up((k - 1) as nat).previous()
        }
    }
}

/// Steps down go round the list: `k` of them lead `k` rows further, and as many as there
/// are rows lead back.
pub proof fn law_next_goes_round(a: AppView, k: nat)
    requires
        a.well_formed(),
        a.visible().len() > 0,
    ensures
        a.moved_down(k).visible() == a.visible(),
        a.moved_down(k).well_formed(),
        a.moved_down(k).selected == Some((a.selected->0 + k) % a.visible().len() as int),
        k == a.visible().len() ==> a.moved_down(k).selected == a.selected,
    decreases k,
{
    let n = a.visible().len() as int;
    let row = a.selected->0;
    if k > 0 {
        let before = a.moved_down((k - 1) as nat);
        law_next_goes_round(a, (k - 1) as nat);
        law_moves_keep_invariant(before);
        vstd::arithmetic::div_mod::lemma_add_mod_noop(row + k - 1, 1, n);
        vstd::arithmetic::div_mod::lemma_mod_bound(row + k - 1, n);
        let r = (row + k - 1) % n;
        if r == n - 1 {
            vstd::arithmetic::div_mod::lemma_mod_self_0(n);
            assert((row + k) % n == n % n) by {
                vstd::arithmetic::div_mod::lemma_fundamental_div_mod(row + k - 1, n);
                let q = (row + k - 1) / n;
                assert(row + k == n * q + n);
                vstd::arithmetic::div_mod::lemma_mod_multiples_vanish(q, n, n);
            }
        } else {
            vstd::arithmetic::div_mod::lemma_fundamental_div_mod(row + k - 1, n);
            let q = (row + k - 1) / n;
            assert(row + k == n * q + (r + 1));
            vstd::arithmetic::div_mod::lemma_mod_multiples_vanish(q, r + 1, n);
            vstd::arithmetic::div_mod::lemma_small_mod((r + 1) as nat, n as nat);
        }
    } else {
        vstd::arithmetic::div_mod::lemma_small_mod(row as nat, n as nat);
    }
    if k == n {
        vstd::arithmetic::div_mod::lemma_mod_multiples_vanish(1, row, n);
        vstd::arithmetic::div_mod::lemma_small_mod(row as nat, n as nat);
    }
}

/// Steps up go round the list the other way: `k` of them lead `k` rows back, and as many
/// as there are rows lead back to the start.
pub proof fn law_previous_goes_round(a: AppView, k: nat)
    requires
        a.well_formed(),
        a.visible().len() > 0,
    ensures
        a.moved_up(k).visible() == a.visible(),
        a.moved_up(k).well_formed(),
        a.moved_up(k).selected == Some((a.selected->0 - k) % a.visible().len() as int),
        k == a.visible().len() ==> a.moved_up(k).selected == a.selected,
    decreases k,
{
    let n = a.visible().len() as int;
    let row = a.selected->0;
    if k > 0 {
        let before = a.moved_up((k - 1) as nat);
        law_previous_goes_round(a, (k - 1) as nat);
        law_moves_keep_invariant(before);
        let x = row - k + 1;
        let q = x / n;
        let r = x % n;
        vstd::arithmetic::div_mod::lemma_mod_bound(x, n);
        vstd::arithmetic::div_mod::lemma_fundamental_div_mod(x, n);
        if r == 0 {
            assert(n * q - 1 == n * (q - 1) + (n - 1)) by (nonlinear_arith);
            vstd::arithmetic::div_mod::lemma_mod_multiples_vanish(q - 1, n - 1, n);
            vstd::arithmetic::div_mod::lemma_small_mod((n - 1) as nat, n as nat);
        } else {
            assert(row - k == n * q + (r - 1));
            vstd::arithmetic::div_mod::lemma_mod_multiples_vanish(q, r - 1, n);
            vstd::arithmetic::div_mod::lemma_small_mod((r - 1) as nat, n as nat);
        }
    } else {
        vstd::arithmetic::div_mod::lemma_small_mod(row as nat, n as nat);
    }
    if k == n {
        vstd::arithmetic::div_mod::lemma_mod_multiples_vanish(-1, row, n);
        vstd::arithmetic::div_mod::lemma_small_mod(row as nat, n as nat);
    }
}

/// The cycles of sort orders, of alarm filters and of views come round.
pub proof fn law_cycles_come_round(sort: Sort, filter: AlarmFilter, view: pane::View)
    ensures
        sort.successor().successor().successor().successor() == sort,
        sort.successor() != sort,
        sort.successor().successor() != sort,
        filter.successor().successor().successor() == filter,
        filter.successor() != filter,
        view.other().other() == view,
        view.other() != view,
{
}

/// Four steps of the status filter lead back to where it stood, through four different
/// filters.
pub proof fn law_status_cycle_comes_round(a: AppView)
    requires
        a.well_formed(),
    ensures
        a.cycle_status().cycle_status().cycle_status().cycle_status().status_filter()
            == a.status_filter(),
        forall|i: int, j: int|
            0 <= i < j < filters::STATUS_STEPS ==> #[trigger] filters::status_step(i)
                != #[trigger] filters::status_step(j),
{
    reveal_strlit("Online");
    reveal_strlit("ConnectionLost");
    reveal_strlit("Inactive");
    assert("Online"@.len() != "ConnectionLost"@.len());
    assert("Online"@.len() != "Inactive"@.len());
    assert("ConnectionLost"@.len() != "Inactive"@.len());
}

proof fn lemma_rows(a: AppView)
    ensures
        a.visible().len() == a.listed().len(),
        forall|i: InstanceView| #[trigger]
            a.visible().contains(i) <==> a.all_instances.contains(i) && a.lists(i),
{
    order::lemma_stable_sort_len(a.listed(), a.row_order());
    order::lemma_stable_sort_contains(a.listed(), a.row_order());
    assert forall|i: InstanceView| #[trigger]
        a.listed().contains(i) <==> a.all_instances.contains(i) && a.lists(i) by {
        lemma_filter_contains(a.all_instances, a.listing(), i);
        assert(a.listing()(i) == a.lists(i));
    }
}

proof fn lemma_filter_contains<A>(s: Seq<A>, pred: spec_fn(A) -> bool, x: A)
    ensures
        s.filter(pred).contains(x) <==> s.contains(x) && pred(x),
    decreases s.len(),
{
    reveal(Seq::filter);
    if s.len() > 0 {
        let head = s.drop_last();
        lemma_filter_contains(head, pred, x);
        assert(s =~= head.push(s.last()));
        assert(s.contains(x) <==> head.contains(x) || s.last() == x) by {
            if head.contains(x) {
                let k = choose|k: int| 0 <= k < head.len() && head[k] == x;
                assert(s[k] == x);
            }
            assert(s[s.len() - 1] == s.last());
        }
        if pred(s.last()) {
            let f = head.filter(pred);
            assert(s.filter(pred) == f.push(s.last()));
            assert(f.push(s.last()).contains(x) <==> f.contains(x) || s.last() == x) by {
                if f.contains(x) {
                    let k = choose|k: int| 0 <= k < f.len() && f[k] == x;
                    assert(f.push(s.last())[k] == x);
                }
                assert(f.push(s.last())[f.len() as int] == s.last());
            }
        }
    }
}

/// The rows are exactly the instances of the fleet that pass every filter, in the order
/// that the sort asks for, equals as they were loaded.
pub proof fn law_rows_are_the_listed_instances(a: AppView)
    ensures
        a.visible().len() == a.listed().len(),
        forall|i: InstanceView| #[trigger]
            a.visible().contains(i) <==> a.all_instances.contains(i) && a.lists(i),
        order::is_stable_sort(a.listed(), a.visible(), a.row_order()),
{
    lemma_rows(a);
    app::lemma_row_order(a);
    order::lemma_stable_sort(a.listed(), a.row_order());
}

/// No row stands behind one that it belongs before.
pub proof fn law_rows_are_sorted(a: AppView, i: int, j: int)
    requires
        0 <= i < j < a.visible().len(),
    ensures
        !a.precedes(a.visible()[j], a.visible()[i]),
{
    law_rows_are_the_listed_instances(a);
    let p = choose|p: Seq<int>| order::ordered_by(a.listed(), a.visible(), a.row_order(), p);
    assert(!a.row_order()(a.visible()[j], a.visible()[i]));
}

/// In the list of bookmarks every row is bookmarked.
pub proof fn law_favorites_view_lists_bookmarks(a: AppView, row: int)
    requires
        a.view == pane::View::Favorites,
        0 <= row < a.visible().len(),
    ensures
        a.favorites.contains(a.visible()[row].id),
{
    lemma_rows(a);
    assert(a.visible().contains(a.visible()[row]));
}

/// In the list of all instances the default order puts the bookmarked ones first.
pub proof fn law_default_order_puts_bookmarks_first(a: AppView, i: int, j: int)
    requires
        a.view == pane::View::All,
        a.sort == Sort::Default,
        0 <= i < j < a.visible().len(),
        a.is_favorite(a.visible()[j]),
    ensures
        a.is_favorite(a.visible()[i]),
{
    law_rows_are_sorted(a, i, j);
}

/// The order by alarms never shows an instance with fewer alarms that ring above one
/// with more.
pub proof fn law_alarm_order(a: AppView, i: int, j: int)
    requires
        a.sort == Sort::Alarms,
        0 <= i < j < a.visible().len(),
    ensures
        a.visible()[i].count("ALARM"@) >= a.visible()[j].count("ALARM"@),
{
    law_rows_are_sorted(a, i, j);
}

/// The order by status shows lost connections above inactive instances and those above
/// online ones.
pub proof fn law_status_order(a: AppView, i: int, j: int)
    requires
        a.sort == Sort::Status,
        0 <= i < j < a.visible().len(),
    ensures
        instance::status_rank(a.visible()[i].status) <= instance::status_rank(
            a.visible()[j].status,
        ),
{
    law_rows_are_sorted(a, i, j);
}

/// The order by name is alphabetical, upper and lower case alike.
pub proof fn law_name_order(a: AppView, i: int, j: int)
    requires
        a.sort == Sort::Name,
        0 <= i < j < a.visible().len(),
    ensures
        text::lowercase(a.visible()[i].name) == text::lowercase(a.visible()[j].name)
            || text::text_less(
            text::lowercase(a.visible()[i].name),
            text::lowercase(a.visible()[j].name),
        ),
{
    law_rows_are_sorted(a, i, j);
    text::lemma_text_less_total(
        text::lowercase(a.visible()[i].name),
        text::lowercase(a.visible()[j].name),
    );
}

/// An instance with a ringing alarm has alarms.
pub proof fn law_alarming_instances_have_alarms(a: AppView, i: InstanceView)
    ensures
        (AppView { alarm_filter: AlarmFilter::Alarming, ..a }).alarm_matches(i) ==> (AppView {
            alarm_filter: AlarmFilter::AnyAlarm,
            ..a
        }).alarm_matches(i),
        (AppView { alarm_filter: AlarmFilter::All, ..a }).alarm_matches(i),
{
}

proof fn lemma_selected_is_listed(a: AppView)
    requires
        a.selected_id() is Some,
    ensures
        exists|i: InstanceView|
            #[trigger] a.visible().contains(i) && i.id == a.selected_id()->0,
{
    let row = a.selected->0;
    assert(a.visible().contains(a.visible()[row]));
}

proof fn lemma_row_with_id(a: AppView, i: InstanceView)
    requires
        a.visible().contains(i),
    ensures
        exists|k: int| 0 <= k < a.visible().len() && (#[trigger] a.visible()[k]).id == i.id,
{
    let k = choose|k: int| 0 <= k < a.visible().len() && a.visible()[k] == i;
    assert(a.visible()[k].id == i.id);
}

/// Another sort order keeps the instance selected that was selected.
pub proof fn law_sort_keeps_selection(a: AppView)
    requires
        a.selected_id() is Some,
    ensures
        a.cycle_sort().selected_id() == a.selected_id(),
{
    let b = AppView { sort: a.sort.successor(), ..a };
    lemma_selected_is_listed(a);
    let i = choose|i: InstanceView|
        #[trigger] a.visible().contains(i) && i.id == a.selected_id()->0;
    lemma_rows(a);
    lemma_rows(b);
    assert(b.lists(i) == a.lists(i));
    assert(b.visible().contains(i));
    lemma_row_with_id(b, i);
    law_reselect(b, i.id);
}

/// Another view keeps the instance selected that was selected, if the view lists it.
pub proof fn law_view_keeps_selection(a: AppView, view: pane::View, i: InstanceView)
    requires
        a.selected_id() == Some(i.id),
        (AppView { view, ..a }).visible().contains(i),
    ensures
        a.switch_view(view).selected_id() == a.selected_id(),
{
    if a.view != view {
        let b = AppView { view, ..a };
        lemma_row_with_id(b, i);
        law_reselect(b, i.id);
    }
}

/// A refresh keeps the instance selected that was selected, if it is still listed.
pub proof fn law_refresh_keeps_selection(
    a: AppView,
    instances: Seq<InstanceView>,
    i: InstanceView,
    now: u64,
)
    requires
        a.selected_id() == Some(i.id),
        (AppView { all_instances: instances, ..a }).visible().contains(i),
    ensures
        a.apply_update(UpdateView::Loaded(instances), now).selected_id() == a.selected_id(),
{
    let b = AppView { all_instances: instances, ..a };
    lemma_row_with_id(b, i);
    law_reselect(b, i.id);
    law_rows_depend_on(
        a.apply_update(UpdateView::Loaded(instances), now),
        a.apply_instances(instances),
    );
}

/// News from the loader change neither filters, order, view nor bookmarks.
pub proof fn law_updates_keep_choices(a: AppView, update: UpdateView, now: u64)
    ensures
        ({
            let b = a.apply_update(update, now);
            &&& b.filter_text == a.filter_text
            &&& b.status_filter_idx == a.status_filter_idx
            &&& b.alarm_filter == a.alarm_filter
            &&& b.sort == a.sort
            &&& b.view == a.view
            &&& b.favorites == a.favorites
            &&& b.mode == a.mode
        }),
{
}

/// The bookmark key changes the bookmark of the selected instance and of no other.
pub proof fn law_toggle_changes_one_bookmark(a: AppView, other: Seq<char>)
    requires
        a.selected_id() is Some,
    ensures
        a.toggle_favorite().favorites.contains(a.selected_id()->0) != a.favorites.contains(
            a.selected_id()->0,
        ),
        other != a.selected_id()->0 ==> a.toggle_favorite().favorites.contains(other)
            == a.favorites.contains(other),
{
}

/// In the list of all instances the bookmark key keeps the instance selected, and a
/// second stroke undoes the first: the bookmarks, the view and the rows are as before.
pub proof fn law_toggle_twice(a: AppView)
    requires
        a.view == pane::View::All,
        a.selected_id() is Some,
    ensures
        a.toggle_favorite().selected_id() == a.selected_id(),
        a.toggle_favorite().toggle_favorite().favorites == a.favorites,
        a.toggle_favorite().toggle_favorite().view == a.view,
        a.toggle_favorite().toggle_favorite().visible() == a.visible(),
        a.toggle_favorite().toggle_favorite().selected_id() == a.selected_id(),
{
    lemma_toggle_keeps_selection(a);
    let b = a.toggle_favorite();
    lemma_toggle_keeps_selection(b);
    assert(b.toggle_favorite().favorites =~= a.favorites);
    law_rows_depend_on(b.toggle_favorite(), a);
}

proof fn lemma_toggle_keeps_selection(a: AppView)
    requires
        a.view == pane::View::All,
        a.selected_id() is Some,
    ensures
        a.toggle_favorite().selected_id() == a.selected_id(),
        a.toggle_favorite().view == pane::View::All,
        a.toggle_favorite().favorites == a.toggled(a.selected_id()->0),
{
    let id = a.selected_id()->0;
    let b = AppView { favorites: a.toggled(id), ..a };
    assert(a.view_with(a.toggled(id)) == a.view);
    lemma_selected_is_listed(a);
    let i = choose|i: InstanceView| #[trigger] a.visible().contains(i) && i.id == id;
    lemma_rows(a);
    lemma_rows(b);
    assert(b.lists(i) == a.lists(i));
    assert(b.visible().contains(i));
    lemma_row_with_id(b, i);
    app::lemma_position_of(b.visible(), id);
    let row = app::position_of(b.visible(), id)->0;
    lemma_select_keeps_rows(b, Some(row));
}

/// The bookmark key stores what the bookmarks are from then on: what it stores is read
/// back as they are.
pub proof fn law_bookmark_key_persists(a: AppView)
    requires
        a.selected_id() is Some,
        a.favorites.finite(),
        favorites::storable(a.selected_id()->0),
        forall|id: Seq<char>| #[trigger] a.favorites.contains(id) ==> favorites::storable(id),
    ensures
        a.bookmark_key().1 matches ActionView::StoreFavorites(text) && favorites::stored_ids(text)
            == a.bookmark_key().0.favorites,
{
    let ids = a.toggled(a.selected_id()->0);
    assert forall|id: Seq<char>| #[trigger] ids.contains(id) implies favorites::storable(id) by {
        if id != a.selected_id()->0 {
            assert(a.favorites.contains(id));
        }
    }
    favorites::law_bookmarks_persist(ids);
    assert(a.toggle_favorite().favorites == ids);
}

/// While a refresh is under way the refresh key asks for no other, and after it a
/// refresh is under way until news come.
pub proof fn law_one_refresh_at_a_time(a: AppView)
    ensures
        a.refresh_key().0.is_refreshing,
        a.refresh_key().0.refresh_key().1 == ActionView::Stay,
        a.refresh_key().1 == ActionView::Send(CommandView::Refresh) <==> !a.is_refreshing,
        forall|list: Seq<InstanceView>, now: u64|
            !(#[trigger] a.apply_update(UpdateView::Loaded(list), now)).is_refreshing,
        forall|error: Seq<char>, now: u64|
            !(#[trigger] a.apply_update(UpdateView::Failed(error), now)).is_refreshing,
{
}

/// The program ends on the key `q` on the list, and on nothing else.
pub proof fn law_quit(a: AppView, event: KeyEvent)
    ensures
        a.on_event(event).1 == ActionView::Quit <==> a.mode == Mode::Normal && event == (KeyEvent {
            key: Key::Char('q'),
            pressed: true,
        }),
{
}

/// Keys that are released or repeated do nothing.
pub proof fn law_only_presses_count(a: AppView, key: Key)
    ensures
        a.on_event(KeyEvent { key, pressed: false }) == (a, ActionView::Stay),
{
}

/// Details are opened by the Enter key, with a row selected, and by nothing else.
pub proof fn law_details_open(a: AppView, event: KeyEvent)
    requires
        a.mode != Mode::Detail,
    ensures
        a.on_event(event).0.mode == Mode::Detail <==> a.mode == Mode::Normal && a.selected_id()
            is Some && event == (KeyEvent { key: Key::Enter, pressed: true }),
{
}

/// A session is started by the key `c` on the details, on the selected instance and
/// under the current profile.
pub proof fn law_session_start(a: AppView, event: KeyEvent, id: Seq<char>, profile: Seq<char>)
    ensures
        a.on_event(event).1 == (ActionView::StartSession { instance_id: id, profile }) <==> {
            &&& a.mode == Mode::Detail
            &&& event == (KeyEvent { key: Key::Char('c'), pressed: true })
            &&& a.selected_id() == Some(id)
            &&& a.profile == profile
        },
{
}

/// A profile is asked for only if it is one of those to choose from and not the current
/// one.
pub proof fn law_profile_switch(a: AppView, event: KeyEvent, profile: Seq<char>)
    requires
        a.on_event(event).1 == ActionView::Send(CommandView::SwitchProfile(profile)),
    ensures
        a.mode == Mode::ProfilePicker,
        a.profiles.contains(profile),
        profile != a.profile,
        a.on_event(event).0.is_refreshing,
{
    assert(a.profiles[a.profile_picker_idx] == profile);
}

/// The key `?` opens the help from everywhere and changes nothing else, and it closes
/// the help.
pub proof fn law_help_key(a: AppView)
    ensures
        a.mode != Mode::Help ==> a.on_key(Key::Char('?')) == (
            a.in_mode(Mode::Help),
            ActionView::Stay,
        ),
        a.mode == Mode::Help ==> a.on_key(Key::Char('?')) == (
            a.in_mode(Mode::Normal),
            ActionView::Stay,
        ),
{
}

/// The Escape key leads back to the list from everywhere.
pub proof fn law_escape(a: AppView)
    ensures
        a.on_key(Key::Esc).0.mode == Mode::Normal,
        a.on_key(Key::Esc).1 == ActionView::Stay,
{
}

/// While the find text is edited, a character that is typed and erased leaves the text
/// as it was; the first row is selected.
pub proof fn law_type_and_erase(a: AppView, c: char)
    ensures
        a.type_char(c).erase_char().filter_text == a.filter_text,
        a.type_char(c).erase_char().visible() == a.visible(),
        a.type_char(c).filter_text == a.filter_text.push(c),
{
    let typed = a.type_char(c);
    assert(typed.filter_text.drop_last() =~= a.filter_text);
    law_rows_depend_on(typed.erase_char(), a);
}

/// An online instance whose last ping lies more than the threshold back is marked as
/// stale, in yellow; every other status is shown as it is.
pub proof fn law_stale_instances_are_marked(i: InstanceView, now: i64)
    requires
        i.last_ping_secs is Some ==> i64::MIN <= now - i.last_ping_secs->0 <= i64::MAX,
    ensures
        i.stale_at(now) <==> i.status == "Online"@ && i.last_ping_secs is Some && now
            - i.last_ping_secs->0 > 300,
        i.stale_at(now) ==> i.status_text(now) == "Online (stale)"@ && i.status_style(now)
            == style::fg_style(Color::Yellow),
        !i.stale_at(now) ==> i.status_text(now) == i.status,
{
    reveal_strlit("Online");
    reveal_strlit(" (stale)");
    reveal_strlit("Online (stale)");
    assert("Online"@ + " (stale)"@ =~= "Online (stale)"@);
}

} // verus!
