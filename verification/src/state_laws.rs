//! What each operation on the state of the monitor does, and what it leaves alone.

use vstd::prelude::*;
use crate::alarm;
use crate::app;
use crate::app::AppView;
use crate::favorites;
use crate::filters::{AlarmFilter, Mode, Sort};
use crate::instance;
use crate::instance::InstanceView;
use crate::laws;
use crate::pane;
use crate::session::SessionEndView;
use crate::text;
use crate::text_laws;
use crate::update::UpdateView;
use crate::value_laws;

verus! {

/// An instance is found if the find text stands anywhere in its name or in its id, in
/// upper or lower case, and not otherwise.
pub proof fn law_find(a: AppView, i: InstanceView, u: Seq<char>, v: Seq<char>)
    ensures
        text::lowercase(i.name) == u + text::lowercase(a.filter_text) + v ==> a.text_matches(i),
        text::lowercase(i.id) == u + text::lowercase(a.filter_text) + v ==> a.text_matches(i),
        text::lowercase(a.filter_text).len() == 0 ==> a.text_matches(i),
        text::lowercase(a.filter_text).len() > 0 && (forall|x: Seq<char>, y: Seq<char>|
            text::lowercase(i.name) != #[trigger] (x + text::lowercase(a.filter_text) + y)) && (
        forall|x: Seq<char>, y: Seq<char>|
            text::lowercase(i.id) != #[trigger] (x + text::lowercase(a.filter_text) + y))
            ==> !a.text_matches(i),
{
    let needle = text::lowercase(a.filter_text);
    text_laws::law_occurrence(needle, text::lowercase(i.name), u, v);
    text_laws::law_occurrence(needle, text::lowercase(i.id), u, v);
}

/// The status filter lets everything through, or exactly the instances with its status.
pub proof fn law_status_filter(a: AppView, i: InstanceView)
    ensures
        a.status_filter_idx == 0 ==> a.status_matches(i) && a.status_filter() is None,
        a.status_filter_idx == 1 ==> a.status_matches(i) == (i.status == "Online"@),
        a.status_filter_idx == 2 ==> a.status_matches(i) == (i.status == "ConnectionLost"@),
        a.status_filter_idx == 3 ==> a.status_matches(i) == (i.status == "Inactive"@),
        a.status_filter() matches Some(s) ==> a.status_matches(i) == (i.status == s),
{
}

/// The alarm filter lets everything through, or the instances with an alarm that rings,
/// or those with an alarm in one of the three states.
pub proof fn law_alarm_filter(a: AppView, i: InstanceView)
    ensures
        a.alarm_filter == AlarmFilter::All ==> a.alarm_matches(i),
        a.alarm_filter == AlarmFilter::Alarming ==> (a.alarm_matches(i) <==> exists|k: int|
            0 <= k < i.alarms.len() && (#[trigger] i.alarms[k]).state == "ALARM"@),
        a.alarm_filter == AlarmFilter::AnyAlarm ==> (a.alarm_matches(i) <==> exists|k: int|
            0 <= k < i.alarms.len() && ((#[trigger] i.alarms[k]).state == "ALARM"@
                || i.alarms[k].state == "OK"@ || i.alarms[k].state == "INSUFFICIENT_DATA"@)),
{
    value_laws::law_alarm_count_positive(i.alarms, "ALARM"@);
    value_laws::law_alarm_count_positive(i.alarms, "OK"@);
    value_laws::law_alarm_count_positive(i.alarms, "INSUFFICIENT_DATA"@);
}

/// An instance is listed if every filter lets it through and, in the list of bookmarks, it
/// is bookmarked.
pub proof fn law_listing(a: AppView, i: InstanceView)
    ensures
        a.lists(i) <==> a.text_matches(i) && a.status_matches(i) && a.alarm_matches(i) && (a.view
            == pane::View::All || a.favorites.contains(i.id)),
        a.matches(i) <==> a.text_matches(i) && a.status_matches(i) && a.alarm_matches(i),
        a.is_favorite(i) <==> a.favorites.contains(i.id),
        a.unfiltered() <==> a.view == pane::View::All && a.filter_text.len() == 0
            && a.status_filter_idx == 0 && a.alarm_filter == AlarmFilter::All,
{
}

proof fn lemma_filter_count<A>(s: Seq<A>, pred: spec_fn(A) -> bool, x: A)
    ensures
        s.filter(pred).to_multiset().count(x) == (if pred(x) {
            s.to_multiset().count(x)
        } else {
            0
        }),
    decreases s.len(),
{
    reveal(Seq::filter);
    broadcast use vstd::seq_lib::group_to_multiset_ensures;

    if s.len() > 0 {
        let head = s.drop_last();
        lemma_filter_count(head, pred, x);
        assert(head.push(s.last()) =~= s);
    }
}

/// Every instance of the fleet that is listed has as many rows as it was loaded times, and
/// nothing else has a row.
pub proof fn law_rows_count(a: AppView, i: InstanceView)
    ensures
        a.visible().to_multiset().count(i) == (if a.lists(i) {
            a.all_instances.to_multiset().count(i)
        } else {
            0
        }),
{
    app::lemma_row_order(a);
    text_laws::law_sorting(a.listed(), a.row_order(), 0, 0);
    lemma_filter_count(a.all_instances, a.listing(), i);
    assert(a.listing()(i) == a.lists(i));
}

/// Rows of which none belongs before another stand in the order in which they were loaded.
pub proof fn law_rows_keep_load_order(a: AppView, alike: spec_fn(InstanceView) -> bool)
    requires
        forall|x: InstanceView, y: InstanceView|
            alike(x) && alike(y) ==> !(#[trigger] a.precedes(x, y)),
    ensures
        a.visible().filter(alike) == a.all_instances.filter(|i: InstanceView| a.lists(i)).filter(
            alike,
        ),
{
    let lt = a.row_order();
    assert forall|x: InstanceView, y: InstanceView| alike(x) && alike(y) implies !(#[trigger] lt(
        x,
        y,
    )) by {
        assert(!a.precedes(x, y));
    }
    text_laws::law_sorting_keeps_equals(a.listed(), lt, alike);
    assert(a.listing() =~= (|i: InstanceView| a.lists(i)));
}

/// Which of two instances comes first, in each order.
pub proof fn law_order(a: AppView, x: InstanceView, y: InstanceView)
    ensures
        a.sort == Sort::Default && a.view == pane::View::Favorites ==> !a.precedes(x, y),
        a.sort == Sort::Default && a.view == pane::View::All ==> (a.precedes(x, y)
            <==> a.favorites.contains(x.id) && !a.favorites.contains(y.id)),
        a.sort == Sort::Status ==> (a.precedes(x, y) <==> instance::status_rank(x.status)
            < instance::status_rank(y.status)),
        a.sort == Sort::Name ==> (a.precedes(x, y) <==> text::text_less(
            text::lowercase(x.name),
            text::lowercase(y.name),
        )),
{
}

/// The order by alarms goes by the alarms that ring, then by those without data, then by
/// those that are well; more come first.
pub proof fn law_order_by_alarms(a: AppView, x: InstanceView, y: InstanceView)
    requires
        a.sort == Sort::Alarms,
    ensures
        ({
            let rings = |i: InstanceView| alarm::count_state(i.alarms, "ALARM"@);
            let lacks = |i: InstanceView| alarm::count_state(i.alarms, "INSUFFICIENT_DATA"@);
            let well = |i: InstanceView| alarm::count_state(i.alarms, "OK"@);
            &&& rings(x) > rings(y) ==> a.precedes(x, y)
            &&& rings(x) < rings(y) ==> !a.precedes(x, y)
            &&& rings(x) == rings(y) && lacks(x) > lacks(y) ==> a.precedes(x, y)
            &&& rings(x) == rings(y) && lacks(x) < lacks(y) ==> !a.precedes(x, y)
            &&& rings(x) == rings(y) && lacks(x) == lacks(y) ==> (a.precedes(x, y) <==> well(x)
                > well(y))
        }),
{
}

/// Whether `after` is `changed` with its first row selected, or none where it has none.
pub open spec fn at_the_top(changed: AppView, after: AppView) -> bool {
    &&& changed.visible().len() > 0 ==> after == (AppView { selected: Some(0int), ..changed })
    &&& changed.visible().len() == 0 ==> after == (AppView {
        selected: None,
        offset: 0,
        ..changed
    })
}

/// Whether `after` is `changed` with the first row selected that shows the instance which
/// is selected in `before`, or the top row where none shows it.
pub open spec fn follows(before: AppView, changed: AppView, after: AppView) -> bool {
    &&& forall|k: int|
        0 <= k < changed.visible().len() && before.selected_id() == Some(
            (#[trigger] changed.visible()[k]).id,
        ) && (forall|j: int|
            0 <= j < k ==> before.selected_id() != Some((#[trigger] changed.visible()[j]).id))
            ==> after == (AppView { selected: Some(k), ..changed })
    &&& (forall|k: int|
        0 <= k < changed.visible().len() ==> before.selected_id() != Some(
            (#[trigger] changed.visible()[k]).id,
        )) ==> at_the_top(changed, after)
}

proof fn lemma_follows(before: AppView, changed: AppView)
    ensures
        follows(before, changed, changed.reselect(before.selected_id())),
        at_the_top(changed, changed.reset_selection()),
{
    match before.selected_id() {
        Some(id) => {
            app::lemma_position_of(changed.visible(), id);
            match app::position_of(changed.visible(), id) {
                Some(row) => {
                    assert(changed.visible()[row].id == id);
                    assert forall|k: int|
                        0 <= k < changed.visible().len() && before.selected_id() == Some(
                            (#[trigger] changed.visible()[k]).id,
                        ) && (forall|j: int|
                            0 <= j < k ==> before.selected_id() != Some(
                                (#[trigger] changed.visible()[j]).id,
                            )) implies changed.reselect(before.selected_id()) == (AppView {
                        selected: Some(k),
                        ..changed
                    }) by {
                        if k < row {
                            assert(changed.visible()[k].id != id);
                        }
                        if row < k {
                            assert(before.selected_id() != Some(changed.visible()[row].id));
                        }
                    }
                },
                None => {},
            }
        },
        None => {},
    }
}

/// The selected instance is the one of the selected row; without a row there is none.
pub proof fn law_selected(a: AppView, row: int)
    ensures
        a.selected == Some(row) && 0 <= row < a.visible().len() ==> a.selected_id() == Some(
            a.visible()[row].id,
        ),
        a.selected == Some(row) && !(0 <= row < a.visible().len()) ==> a.selected_id() is None,
        a.selected is None ==> a.selected_id() is None,
        a.select(Some(row)) == (AppView { selected: Some(row), ..a }),
        a.select(None) == (AppView { selected: None, offset: 0, ..a }),
{
}

/// An instance is found under its id: the first one that was loaded with it.
pub proof fn law_instance_by_id(a: AppView, id: Seq<char>, k: int)
    ensures
        0 <= k < a.all_instances.len() && a.all_instances[k].id == id && (forall|j: int|
            0 <= j < k ==> (#[trigger] a.all_instances[j]).id != id) ==> a.instance_by_id(id)
            == Some(a.all_instances[k]),
        (forall|j: int| 0 <= j < a.all_instances.len() ==> (#[trigger] a.all_instances[j]).id != id)
            ==> a.instance_by_id(id) is None,
{
    app::lemma_position_of(a.all_instances, id);
    match app::position_of(a.all_instances, id) {
        Some(row) => {
            if 0 <= k < row {
                assert(a.all_instances[k].id != id);
            }
            assert(a.all_instances[row].id == id);
        },
        None => {
            if 0 <= k < a.all_instances.len() {
                assert(a.all_instances[k].id != id);
            }
        },
    }
}

/// One step down or up moves the selection by one row, round the ends of the list, and
/// changes nothing else.
pub proof fn law_steps(a: AppView, row: int)
    requires
        a.selected == Some(row),
        0 <= row < a.visible().len(),
    ensures
        row + 1 < a.visible().len() ==> a.next() == (AppView { selected: Some(row + 1), ..a }),
        row + 1 == a.visible().len() ==> a.next() == (AppView { selected: Some(0int), ..a }),
        row > 0 ==> a.previous() == (AppView { selected: Some(row - 1), ..a }),
        row == 0 ==> a.previous() == (AppView { selected: Some(a.visible().len() - 1), ..a }),
{
}

/// Without a selected row a step down goes to the first row and a step up to the last;
/// without rows nothing is selected.
pub proof fn law_first_steps(a: AppView)
    ensures
        a.visible().len() > 0 && a.selected is None ==> a.next() == (AppView {
            selected: Some(0int),
            ..a
        }) && a.previous() == (AppView { selected: Some(a.visible().len() - 1), ..a }),
        a.visible().len() == 0 ==> a.next() == (AppView { selected: None, offset: 0, ..a })
            && a.previous() == (AppView { selected: None, offset: 0, ..a }),
{
}

/// Another view keeps the selected instance where it can and changes nothing but the view
/// and the selection.
pub proof fn law_switch_view(a: AppView, view: pane::View)
    ensures
        view == a.view ==> a.switch_view(view) == a,
        view != a.view ==> follows(a, AppView { view, ..a }, a.switch_view(view)),
{
    lemma_follows(a, AppView { view, ..a });
}

/// The next sort order keeps the selected instance and changes nothing but the order and
/// the selection.
pub proof fn law_next_sort(a: AppView)
    ensures
        a.sort == Sort::Default ==> follows(a, AppView { sort: Sort::Alarms, ..a }, a.cycle_sort()),
        a.sort == Sort::Alarms ==> follows(a, AppView { sort: Sort::Status, ..a }, a.cycle_sort()),
        a.sort == Sort::Status ==> follows(a, AppView { sort: Sort::Name, ..a }, a.cycle_sort()),
        a.sort == Sort::Name ==> follows(a, AppView { sort: Sort::Default, ..a }, a.cycle_sort()),
{
    let next = match a.sort {
        Sort::Default => Sort::Alarms,
        Sort::Alarms => Sort::Status,
        Sort::Status => Sort::Name,
        Sort::Name => Sort::Default,
    };
    let changed = AppView { sort: next, ..a };
    lemma_follows(a, changed);
    assert(a.cycle_sort() == changed.reselect(a.selected_id()));
}

/// The next alarm filter leads to the top of the list and changes nothing else.
pub proof fn law_next_alarm_filter(a: AppView)
    ensures
        a.alarm_filter == AlarmFilter::All ==> at_the_top(
            AppView { alarm_filter: AlarmFilter::Alarming, ..a },
            a.cycle_alarm_filter(),
        ),
        a.alarm_filter == AlarmFilter::Alarming ==> at_the_top(
            AppView { alarm_filter: AlarmFilter::AnyAlarm, ..a },
            a.cycle_alarm_filter(),
        ),
        a.alarm_filter == AlarmFilter::AnyAlarm ==> at_the_top(
            AppView { alarm_filter: AlarmFilter::All, ..a },
            a.cycle_alarm_filter(),
        ),
{
    let next = match a.alarm_filter {
        AlarmFilter::All => AlarmFilter::Alarming,
        AlarmFilter::Alarming => AlarmFilter::AnyAlarm,
        AlarmFilter::AnyAlarm => AlarmFilter::All,
    };
    let changed = AppView { alarm_filter: next, ..a };
    lemma_follows(a, changed);
    assert(a.cycle_alarm_filter() == changed.reset_selection());
}

/// The next status filter leads to the top of the list and changes nothing else.
pub proof fn law_next_status_filter(a: AppView)
    ensures
        0 <= a.status_filter_idx < 3 ==> at_the_top(
            AppView { status_filter_idx: a.status_filter_idx + 1, ..a },
            a.cycle_status(),
        ),
        a.status_filter_idx == 3 ==> at_the_top(
            AppView { status_filter_idx: 0, ..a },
            a.cycle_status(),
        ),
{
    if 0 <= a.status_filter_idx < 3 {
        lemma_follows(a, AppView { status_filter_idx: a.status_filter_idx + 1, ..a });
    } else {
        lemma_follows(a, AppView { status_filter_idx: 0, ..a });
    }
}

/// A reset of the selection leads to the top of the list and changes nothing else.
pub proof fn law_top(a: AppView)
    ensures
        at_the_top(a, a.reset_selection()),
{
    lemma_follows(a, a);
}

/// Bookmarking changes the bookmark of the selected instance. Where the list of bookmarks
/// is shown and none is left, all instances are shown. The instance stays selected if it
/// is still listed; otherwise the list is shown from its top. Nothing else changes.
pub proof fn law_bookmarking(a: AppView, id: Seq<char>, k: int)
    ensures
        a.selected_id() is None ==> a.toggle_favorite() == a,
        a.selected_id() == Some(id) ==> {
            let after = a.toggle_favorite();
            let changed = AppView { favorites: after.favorites, view: after.view, ..a };
            let rows = changed.visible();
            &&& forall|other: Seq<char>| #[trigger]
                after.favorites.contains(other) == (if other == id {
                    !a.favorites.contains(other)
                } else {
                    a.favorites.contains(other)
                })
            &&& after.favorites =~= a.toggled(id)
            &&& a.view == pane::View::All ==> after.view == pane::View::All
            &&& a.view == pane::View::Favorites ==> (after.view == pane::View::All <==> forall|
                other: Seq<char>,
            |
                !(#[trigger] after.favorites.contains(other)))
            &&& 0 <= k < rows.len() && rows[k].id == id && (forall|j: int|
                0 <= j < k ==> (#[trigger] rows[j]).id != id) ==> after == (AppView {
                selected: Some(k),
                ..changed
            })
            &&& (forall|j: int| 0 <= j < rows.len() ==> (#[trigger] rows[j]).id != id) ==> {
                &&& rows.len() > 0 ==> after == (AppView {
                    selected: Some(0int),
                    offset: 0,
                    ..changed
                })
                &&& rows.len() == 0 ==> after == (AppView {
                    selected: None,
                    offset: 0,
                    ..changed
                })
            }
        },
{
    if a.selected_id() == Some(id) {
        let favorites = a.toggled(id);
        let changed = AppView { favorites, view: a.view_with(favorites), ..a };
        let rows = changed.visible();
        app::lemma_position_of(rows, id);
        laws::law_rows_depend_on(changed.select(None), changed);
        if forall|other: Seq<char>| !(#[trigger] favorites.contains(other)) {
            assert(favorites =~= Set::<Seq<char>>::empty());
        }
        match app::position_of(rows, id) {
            Some(row) => {
                assert(rows[row].id == id);
                if 0 <= k < row {
                    assert(rows[k].id != id);
                }
            },
            None => {
                if 0 <= k < rows.len() {
                    assert(rows[k].id != id);
                }
            },
        }
    }
}

/// A loaded fleet replaces the old one; the selected instance stays selected if it is
/// listed. The time is noted, the last error is gone and no refresh is under way. A
/// failure is noted and changes nothing else but that no refresh is under way. A new
/// profile comes with its region and clears the last error.
pub proof fn law_news(
    a: AppView,
    list: Seq<InstanceView>,
    error: Seq<char>,
    profile: Seq<char>,
    region: Seq<char>,
    now: u64,
)
    ensures
        follows(
            a,
            AppView { all_instances: list, ..a },
            AppView {
                last_refresh: a.last_refresh,
                last_error: a.last_error,
                is_refreshing: a.is_refreshing,
                ..a.apply_update(UpdateView::Loaded(list), now)
            },
        ),
        follows(a, AppView { all_instances: list, ..a }, a.apply_instances(list)),
        a.apply_update(UpdateView::Loaded(list), now).last_refresh == Some(now),
        a.apply_update(UpdateView::Loaded(list), now).last_error is None,
        !a.apply_update(UpdateView::Loaded(list), now).is_refreshing,
        a.apply_update(UpdateView::Failed(error), now) == (AppView {
            last_error: Some(error),
            is_refreshing: false,
            ..a
        }),
        a.apply_update(UpdateView::ProfileSwitched { profile, region }, now) == (AppView {
            profile,
            region,
            last_error: None,
            ..a
        }),
        a.refresh_requested() == (AppView { is_refreshing: true, ..a }),
{
    let changed = AppView { all_instances: list, ..a };
    lemma_follows(a, changed);
    let after = changed.reselect(a.selected_id());
    let b = a.apply_update(UpdateView::Loaded(list), now);
    assert(after =~= AppView {
        last_refresh: a.last_refresh,
        last_error: a.last_error,
        is_refreshing: a.is_refreshing,
        ..b
    });
}

/// A typed character is added to the find text and Backspace takes the last one off, if
/// there is one; the list is shown from its top row and nothing else changes.
pub proof fn law_editing(a: AppView, c: char, t: Seq<char>)
    ensures
        at_the_top(AppView { filter_text: a.filter_text + seq![c], ..a }, a.type_char(c)),
        a.filter_text == t + seq![c] ==> at_the_top(
            AppView { filter_text: t, ..a },
            a.erase_char(),
        ),
        a.filter_text.len() == 0 ==> at_the_top(a, a.erase_char()),
{
    assert(a.filter_text + seq![c] =~= a.filter_text.push(c));
    lemma_follows(a, AppView { filter_text: a.filter_text.push(c), ..a });
    if a.filter_text == t + seq![c] {
        assert(a.filter_text.drop_last() =~= t);
        lemma_follows(a, AppView { filter_text: t, ..a });
    }
    lemma_follows(a, a);
}

/// The profile picker opens with the profiles that were read and points at the first that
/// is the current one, or at the first of all. Without profiles it stays closed and the
/// error is told.
pub proof fn law_open_picker(a: AppView, profiles: Seq<Seq<char>>, k: int)
    ensures
        0 <= k < profiles.len() && profiles[k] == a.profile && (forall|j: int|
            0 <= j < k ==> profiles[j] != a.profile) ==> a.open_profile_picker(profiles)
            == (AppView { profiles, profile_picker_idx: k, mode: Mode::ProfilePicker, ..a }),
        profiles.len() > 0 && (forall|j: int| 0 <= j < profiles.len() ==> profiles[j] != a.profile)
            ==> a.open_profile_picker(profiles) == (AppView {
            profiles,
            profile_picker_idx: 0,
            mode: Mode::ProfilePicker,
            ..a
        }),
        profiles.len() == 0 ==> a.open_profile_picker(profiles) == (AppView {
            profiles,
            last_error: Some("No profiles found in ~/.aws"@),
            ..a
        }),
{
    text_laws::law_first_position(profiles, a.profile, k);
}

/// The picker moves by one profile, round the ends of its list, and changes nothing else.
pub proof fn law_picker_steps(a: AppView, i: int)
    requires
        a.profile_picker_idx == i,
        0 <= i,
        i < a.profiles.len() || a.profiles.len() == 0,
    ensures
        a.profiles.len() == 0 ==> a.picker_next() == a && a.picker_previous() == a,
        i + 1 < a.profiles.len() ==> a.picker_next() == (AppView {
            profile_picker_idx: i + 1,
            ..a
        }),
        i + 1 == a.profiles.len() ==> a.picker_next() == (AppView { profile_picker_idx: 0, ..a }),
        a.profiles.len() > 0 && i > 0 ==> a.picker_previous() == (AppView {
            profile_picker_idx: i - 1,
            ..a
        }),
        a.profiles.len() > 0 && i == 0 ==> a.picker_previous() == (AppView {
            profile_picker_idx: a.profiles.len() - 1,
            ..a
        }),
{
    if a.profiles.len() > 0 && i + 1 < a.profiles.len() {
        vstd::arithmetic::div_mod::lemma_small_mod((i + 1) as nat, a.profiles.len());
    }
    if i + 1 == a.profiles.len() {
        vstd::arithmetic::div_mod::lemma_mod_self_0(a.profiles.len() as int);
    }
}

/// The monitor starts with what was loaded and no filter, in the list of bookmarks if
/// there are any, at the top of the list.
pub proof fn law_start(
    instances: Seq<InstanceView>,
    favorites: Set<Seq<char>>,
    region: Seq<char>,
    profile: Seq<char>,
    profiles: Seq<Seq<char>>,
    now: u64,
    id: Seq<char>,
)
    ensures
        ({
            let a = AppView::started(instances, favorites, region, profile, profiles, now);
            &&& a.all_instances == instances
            &&& a.favorites == favorites
            &&& a.region == region
            &&& a.profile == profile
            &&& a.profiles == profiles
            &&& a.last_refresh == Some(now)
            &&& a.mode == Mode::Normal
            &&& a.sort == Sort::Default
            &&& a.filter_text.len() == 0
            &&& a.status_filter_idx == 0
            &&& a.alarm_filter == AlarmFilter::All
            &&& a.last_message is None
            &&& a.last_error is None
            &&& !a.is_refreshing
            &&& a.profile_picker_idx == 0
            &&& a.offset == 0
            &&& favorites.contains(id) ==> a.view == pane::View::Favorites
            &&& favorites == Set::<Seq<char>>::empty() ==> a.view == pane::View::All
            &&& a.visible().len() > 0 ==> a.selected == Some(0int)
            &&& a.visible().len() == 0 ==> a.selected is None
        }),
{
    let a = AppView::started(instances, favorites, region, profile, profiles, now);
    let raw = AppView { selected: None, offset: 0, ..a };
    laws::law_rows_depend_on(raw, a);
    assert(a =~= raw.reset_selection());
    if favorites.contains(id) {
        assert(favorites != Set::<Seq<char>>::empty());
    }
}

/// What is told of a session: nothing where it went well, else how it ended, in the
/// details and below the session.
pub proof fn law_session_end(status: Seq<char>, error: Seq<char>)
    ensures
        SessionEndView::Success.message() is None,
        SessionEndView::Success.notice().len() == 0,
        SessionEndView::Exited(status).message() == Some("SSM session exited: "@ + status),
        SessionEndView::Exited(status).notice() == seq![
            "\nSSM session exited with status "@ + status + ". Press Enter to return."@,
        ],
        SessionEndView::LaunchFailed(error).message() == Some("SSM launch failed: "@ + error),
        SessionEndView::LaunchFailed(error).notice() == seq![
            "\nFailed to launch 'aws ssm start-session': "@ + error,
            "Ensure the aws CLI and the Session Manager plugin are installed."@,
            "Press Enter to return."@,
        ],
{
}

/// The message of a session is kept as it came, or the error in its place; nothing else
/// changes.
pub proof fn law_session_kept(a: AppView, message: Option<Seq<char>>, error: Seq<char>)
    ensures
        a.session_finished(Ok(message)) == (AppView { last_message: message, ..a }),
        a.session_finished(Err(error)) == (AppView {
            last_message: Some("Error: "@ + error),
            ..a
        }),
{
}

/// What is stored of bookmarks: one id per line, in ascending order, without a line feed
/// at the end.
pub proof fn law_stored_text(ids: Set<Seq<char>>, least: Seq<char>)
    requires
        ids.finite(),
    ensures
        ids == Set::<Seq<char>>::empty() ==> favorites::stored_text(ids)
            == Seq::<char>::empty(),
        ids == Set::<Seq<char>>::empty().insert(least) ==> favorites::stored_text(ids) == least,
        ids.contains(least) && ids.len() >= 2 && (forall|other: Seq<char>|
            #[trigger] ids.contains(other) && other != least ==> text::text_less(least, other))
            ==> favorites::stored_text(ids) == least + seq!['\n'] + favorites::stored_text(
            ids.remove(least),
        ),
{
    reveal_strlit("\n");
    assert("\n"@ =~= seq!['\n']);
    crate::names::lemma_in_order_exists(ids);
    let list = crate::names::in_order(ids);
    crate::names::lemma_ascending_distinct(list);
    list.unique_seq_to_set();
    text_laws::law_joining(list, "\n"@);
    if ids == Set::<Seq<char>>::empty() {
        assert(list.len() == 0);
    }
    if ids == Set::<Seq<char>>::empty().insert(least) {
        assert(list.len() == 1);
        assert(list.to_set().contains(list[0]));
    }
    if ids.contains(least) && ids.len() >= 2 && (forall|other: Seq<char>|
        #[trigger] ids.contains(other) && other != least ==> text::text_less(least, other)) {
        assert(list.to_set().contains(least));
        let k = choose|k: int| 0 <= k < list.len() && list[k] == least;
        if k > 0 {
            assert(list.to_set().contains(list[0]));
            assert(text::text_less(list[0], list[k]));
            text::lemma_text_less_total(list[0], list[k]);
        }
        let tail = list.drop_first();
        assert forall|i: int, j: int| 0 <= i < j < tail.len() implies text::text_less(
            #[trigger] tail[i],
            #[trigger] tail[j],
        ) by {
            assert(tail[i] == list[i + 1] && tail[j] == list[j + 1]);
        }
        assert(tail.to_set() =~= ids.remove(least)) by {
            assert forall|x: Seq<char>| tail.to_set().contains(x) == ids.remove(least).contains(
                x,
            ) by {
                if tail.contains(x) {
                    let i = choose|i: int| 0 <= i < tail.len() && tail[i] == x;
                    assert(list[i + 1] == x);
                    assert(list.to_set().contains(x));
                }
                if ids.contains(x) && x != least {
                    assert(list.to_set().contains(x));
                    let i = choose|i: int| 0 <= i < list.len() && list[i] == x;
                    assert(tail[i - 1] == x);
                }
            }
        }
        crate::names::lemma_in_order(tail);
    }
}

} // verus!
