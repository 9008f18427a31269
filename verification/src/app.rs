//! The state of the monitor: what is loaded, what is listed and which row is selected.

use vstd::prelude::*;
use crate::favorites;
use crate::filters;
use crate::filters::{AlarmFilter, Mode, Sort};
use crate::instance;
use crate::instance::{Instance, InstanceView};
use crate::laws;
use crate::model;
use crate::names::NameSet;
use crate::order;
use crate::pane;
use crate::text;

verus! {

/// The selected row of the list and the first row that is drawn.
#[derive(Clone, Copy, PartialEq, Eq, Structural, Debug)]
pub struct TableState {
    pub offset: usize,
    pub selected: Option<usize>,
}

impl TableState {
    /// Selects a row; without one the list is drawn from its start again.
    pub fn select(&mut self, row: Option<usize>)
        ensures
            final(self).selected == row,
            final(self).offset == (if row is None { 0 } else { old(self).offset }),
    {
        self.selected = row;
        if row.is_none() {
            self.offset = 0;
        }
    }
}

/// The state of the monitor.
pub struct App {
    pub all_instances: Vec<Instance>,
    pub table_state: TableState,
    pub mode: Mode,
    pub view: pane::View,
    pub sort: Sort,
    pub filter_text: String,
    pub status_filter_idx: usize,
    pub alarm_filter: AlarmFilter,
    pub favorites: NameSet,
    pub last_message: Option<String>,
    /// The reading of a monotonic clock, in nanoseconds, at the last refresh.
    pub last_refresh: Option<u64>,
    pub last_error: Option<String>,
    pub is_refreshing: bool,
    pub region: String,
    pub profile: String,
    pub profiles: Vec<String>,
    pub profile_picker_idx: usize,
}

/// The state of the monitor as mathematical values.
#[verifier::ext_equal]
pub struct AppView {
    pub all_instances: Seq<InstanceView>,
    pub selected: Option<int>,
    pub offset: int,
    pub mode: Mode,
    pub view: pane::View,
    pub sort: Sort,
    pub filter_text: Seq<char>,
    pub status_filter_idx: int,
    pub alarm_filter: AlarmFilter,
    pub favorites: Set<Seq<char>>,
    pub last_message: Option<Seq<char>>,
    pub last_refresh: Option<u64>,
    pub last_error: Option<Seq<char>>,
    pub is_refreshing: bool,
    pub region: Seq<char>,
    pub profile: Seq<char>,
    pub profiles: Seq<Seq<char>>,
    pub profile_picker_idx: int,
}

impl View for App {
    type V = AppView;

    open spec fn view(&self) -> AppView {
        AppView {
            all_instances: model::views(self.all_instances@),
            selected: match self.table_state.selected {
                Some(row) => Some(row as int),
                None => None,
            },
            offset: self.table_state.offset as int,
            mode: self.mode,
            view: self.view,
            sort: self.sort,
            filter_text: self.filter_text@,
            status_filter_idx: self.status_filter_idx as int,
            alarm_filter: self.alarm_filter,
            favorites: self.favorites@,
            last_message: text::text_opt(self.last_message),
            last_refresh: self.last_refresh,
            last_error: text::text_opt(self.last_error),
            is_refreshing: self.is_refreshing,
            region: self.region@,
            profile: self.profile@,
            profiles: text::texts(self.profiles@),
            profile_picker_idx: self.profile_picker_idx as int,
        }
    }
}

/// The first row whose instance has the id `id`.
pub open spec fn position_of(rows: Seq<InstanceView>, id: Seq<char>) -> Option<int>
    decreases rows.len(),
{
    if rows.len() == 0 {
        None
    } else {
        match position_of(rows.drop_last(), id) {
            Some(row) => Some(row),
            None => if rows.last().id == id {
                Some(rows.len() - 1)
            } else {
                None
            },
        }
    }
}

/// `position_of` finds the first row with the id, and finds one if there is one.
pub proof fn lemma_position_of(rows: Seq<InstanceView>, id: Seq<char>)
    ensures
        match position_of(rows, id) {
            Some(row) => {
                &&& 0 <= row < rows.len()
                &&& rows[row].id == id
                &&& forall|i: int| 0 <= i < row ==> (#[trigger] rows[i]).id != id
            },
            None => forall|i: int| 0 <= i < rows.len() ==> (#[trigger] rows[i]).id != id,
        },
    decreases rows.len(),
{
    if rows.len() > 0 {
        let head = rows.drop_last();
        lemma_position_of(head, id);
        assert(forall|i: int| 0 <= i < head.len() ==> head[i] == rows[i]);
    }
}

impl AppView {
    /// The status that is let through, if only one is.
    pub open spec fn status_filter(self) -> Option<Seq<char>> {
        filters::status_step(self.status_filter_idx)
    }

    /// Whether the find text occurs in the name or the id, upper and lower case alike.
    pub open spec fn text_matches(self, i: InstanceView) -> bool {
        let needle = text::lowercase(self.filter_text);
        ||| needle.len() == 0
        ||| text::occurs_in(needle, text::lowercase(i.name))
        ||| text::occurs_in(needle, text::lowercase(i.id))
    }

    /// Whether the status filter lets the instance through.
    pub open spec fn status_matches(self, i: InstanceView) -> bool {
        match self.status_filter() {
            Some(status) => i.status == status,
            None => true,
        }
    }

    /// Whether the alarm filter lets the instance through.
    pub open spec fn alarm_matches(self, i: InstanceView) -> bool {
        match self.alarm_filter {
            AlarmFilter::All => true,
            AlarmFilter::Alarming => i.count("ALARM"@) > 0,
            AlarmFilter::AnyAlarm => i.counted() > 0,
        }
    }

    /// Whether every filter lets the instance through.
    pub open spec fn matches(self, i: InstanceView) -> bool {
        self.text_matches(i) && self.status_matches(i) && self.alarm_matches(i)
    }

    /// Whether all instances are to be listed: no filter is set.
    pub open spec fn unfiltered(self) -> bool {
        &&& self.view == pane::View::All
        &&& self.filter_text.len() == 0
        &&& self.status_filter() is None
        &&& self.alarm_filter == AlarmFilter::All
    }

    /// Whether the instance is bookmarked.
    pub open spec fn is_favorite(self, i: InstanceView) -> bool {
        self.favorites.contains(i.id)
    }

    /// Whether the instance is listed.
    pub open spec fn lists(self, i: InstanceView) -> bool {
        self.matches(i) && (self.view == pane::View::Favorites ==> self.is_favorite(i))
    }

    /// The test that listed instances pass.
    pub open spec fn listing(self) -> spec_fn(InstanceView) -> bool {
        |i: InstanceView| self.lists(i)
    }

    /// The listed instances in the order in which they were loaded.
    pub open spec fn listed(self) -> Seq<InstanceView> {
        self.all_instances.filter(self.listing())
    }

    /// Whether the sort order puts `a` before `b`.
    pub open spec fn precedes(self, a: InstanceView, b: InstanceView) -> bool {
        match self.sort {
            Sort::Default => {
                self.view == pane::View::All && self.is_favorite(a) && !self.is_favorite(b)
            },
            Sort::Alarms => {
                ||| a.count("ALARM"@) > b.count("ALARM"@)
                ||| a.count("ALARM"@) == b.count("ALARM"@) && (a.count("INSUFFICIENT_DATA"@)
                    > b.count("INSUFFICIENT_DATA"@) || a.count("INSUFFICIENT_DATA"@) == b.count(
                    "INSUFFICIENT_DATA"@,
                ) && a.count("OK"@) > b.count("OK"@))
            },
            Sort::Status => instance::status_rank(a.status) < instance::status_rank(b.status),
            Sort::Name => text::text_less(text::lowercase(a.name), text::lowercase(b.name)),
        }
    }

    /// The sort order.
    pub open spec fn row_order(self) -> spec_fn(InstanceView, InstanceView) -> bool {
        |a: InstanceView, b: InstanceView| self.precedes(a, b)
    }

    /// The rows of the list from top to bottom.
    pub open spec fn visible(self) -> Seq<InstanceView> {
        order::stable_sort(self.listed(), self.row_order())
    }

    /// The state with another selection; without one the list starts at its top.
    pub open spec fn select(self, row: Option<int>) -> AppView {
        AppView {
            selected: row,
            offset: if row is None {
                0
            } else {
                self.offset
            },
            ..self
        }
    }

    /// The id of the selected row.
    pub open spec fn selected_id(self) -> Option<Seq<char>> {
        match self.selected {
            Some(row) => if 0 <= row < self.visible().len() {
                Some(self.visible()[row].id)
            } else {
                None
            },
            None => None,
        }
    }

    /// The first loaded instance with the id `id`.
    pub open spec fn instance_by_id(self, id: Seq<char>) -> Option<InstanceView> {
        match position_of(self.all_instances, id) {
            Some(i) => Some(self.all_instances[i]),
            None => None,
        }
    }

    /// The first row is selected, if there is one.
    pub open spec fn reset_selection(self) -> AppView {
        if self.visible().len() == 0 {
            self.select(None)
        } else {
            self.select(Some(0))
        }
    }

    /// The row with the id `id` is selected if it is listed, else the first row.
    pub open spec fn reselect(self, id: Option<Seq<char>>) -> AppView {
        match id {
            Some(id) => match position_of(self.visible(), id) {
                Some(row) => self.select(Some(row)),
                None => self.reset_selection(),
            },
            None => self.reset_selection(),
        }
    }

    /// The selection moves one row down, from the last row to the first.
    pub open spec fn next(self) -> AppView {
        let len = self.visible().len();
        if len == 0 {
            self.select(None)
        } else {
            match self.selected {
                Some(row) => if row >= len - 1 {
                    self.select(Some(0))
                } else {
                    self.select(Some(row + 1))
                },
                None => self.select(Some(0)),
            }
        }
    }

    /// The selection moves one row up, from the first row to the last.
    pub open spec fn previous(self) -> AppView {
        let len = self.visible().len();
        if len == 0 {
            self.select(None)
        } else {
            match self.selected {
                Some(row) => if row == 0 {
                    self.select(Some(len - 1))
                } else {
                    self.select(Some(row - 1))
                },
                None => self.select(Some(len - 1)),
            }
        }
    }

    /// Another list is shown; the selected instance stays selected if it is listed.
    pub open spec fn switch_view(self, view: pane::View) -> AppView {
        if self.view == view {
            self
        } else {
            (AppView { view, ..self }).reselect(self.selected_id())
        }
    }

    /// The next sort order; the selected instance stays selected.
    pub open spec fn cycle_sort(self) -> AppView {
        (AppView { sort: self.sort.successor(), ..self }).reselect(self.selected_id())
    }

    /// The next alarm filter.
    pub open spec fn cycle_alarm_filter(self) -> AppView {
        (AppView { alarm_filter: self.alarm_filter.successor(), ..self }).reset_selection()
    }

    /// The next status filter.
    pub open spec fn cycle_status(self) -> AppView {
        (AppView {
            status_filter_idx: (self.status_filter_idx + 1) % filters::STATUS_STEPS as int,
            ..self
        }).reset_selection()
    }

    /// The bookmarks with `id` taken out if it is there, and put in if it is not.
    pub open spec fn toggled(self, id: Seq<char>) -> Set<Seq<char>> {
        if self.favorites.contains(id) {
            self.favorites.remove(id)
        } else {
            self.favorites.insert(id)
        }
    }

    /// The list that is shown once the bookmarks are `favorites`: the bookmarks, unless
    /// there are none left.
    pub open spec fn view_with(self, favorites: Set<Seq<char>>) -> pane::View {
        if self.view == pane::View::Favorites && favorites == Set::<Seq<char>>::empty() {
            pane::View::All
        } else {
            self.view
        }
    }

    /// The bookmark of the selected instance is set or taken away. The instance stays
    /// selected if it is still listed.
    pub open spec fn toggle_favorite(self) -> AppView {
        match self.selected_id() {
            None => self,
            Some(id) => {
                let favorites = self.toggled(id);
                let next = AppView { favorites, view: self.view_with(favorites), ..self };
                match position_of(next.visible(), id) {
                    Some(row) => next.select(Some(row)),
                    None => next.select(None).reset_selection(),
                }
            },
        }
    }

    /// New instances are loaded; the selected one stays selected if it is still listed.
    pub open spec fn apply_instances(self, instances: Seq<InstanceView>) -> AppView {
        (AppView { all_instances: instances, ..self }).reselect(self.selected_id())
    }

    /// The find text grows by one character.
    pub open spec fn type_char(self, c: char) -> AppView {
        (AppView { filter_text: self.filter_text.push(c), ..self }).reset_selection()
    }

    /// The find text loses its last character, if it has one.
    pub open spec fn erase_char(self) -> AppView {
        let shorter = if self.filter_text.len() == 0 {
            self.filter_text
        } else {
            self.filter_text.drop_last()
        };
        (AppView { filter_text: shorter, ..self }).reset_selection()
    }

    /// The profiles to choose from are shown, with the current one selected; without any
    /// an error is shown instead.
    pub open spec fn open_profile_picker(self, profiles: Seq<Seq<char>>) -> AppView {
        let listed = AppView { profiles, ..self };
        if profiles.len() == 0 {
            AppView { last_error: Some("No profiles found in ~/.aws"@), ..listed }
        } else {
            AppView {
                profile_picker_idx: text::first_index_or_zero(profiles, self.profile),
                mode: Mode::ProfilePicker,
                ..listed
            }
        }
    }

    /// The next profile of the picker, the first after the last.
    pub open spec fn picker_next(self) -> AppView {
        if self.profiles.len() == 0 {
            self
        } else {
            AppView {
                profile_picker_idx: (self.profile_picker_idx + 1) % self.profiles.len() as int,
                ..self
            }
        }
    }

    /// The previous profile of the picker, the last before the first.
    pub open spec fn picker_previous(self) -> AppView {
        if self.profiles.len() == 0 {
            self
        } else if self.profile_picker_idx == 0 {
            AppView { profile_picker_idx: self.profiles.len() - 1, ..self }
        } else {
            AppView { profile_picker_idx: self.profile_picker_idx - 1, ..self }
        }
    }

    /// The state with which the monitor starts: the bookmarks are listed if there are
    /// any, no filter is set and the first row is selected.
    pub open spec fn started(
        instances: Seq<InstanceView>,
        favorites: Set<Seq<char>>,
        region: Seq<char>,
        profile: Seq<char>,
        profiles: Seq<Seq<char>>,
        now: u64,
    ) -> AppView {
        (AppView {
            all_instances: instances,
            selected: None,
            offset: 0,
            mode: Mode::Normal,
            view: if favorites == Set::<Seq<char>>::empty() {
                pane::View::All
            } else {
                pane::View::Favorites
            },
            sort: Sort::Default,
            filter_text: Seq::empty(),
            status_filter_idx: 0,
            alarm_filter: AlarmFilter::All,
            favorites,
            last_message: None,
            last_refresh: Some(now),
            last_error: None,
            is_refreshing: false,
            region,
            profile,
            profiles,
            profile_picker_idx: 0,
        }).reset_selection()
    }
}

impl App {
    /// The status filter stands at a step of its cycle.
    pub open spec fn in_cycle(&self) -> bool {
        self.status_filter_idx < filters::STATUS_STEPS
    }

    /// The status that is let through, if only one is.
    pub fn status_filter(&self) -> (status: Option<&'static str>)
        requires
            self.in_cycle(),
        ensures
            status is None <==> self@.status_filter() is None,
            status matches Some(s) ==> self@.status_filter() == Some(s@),
    {
        filters::status_at(self.status_filter_idx)
    }

    /// Whether every filter lets the instance through.
    pub fn matches(&self, i: &Instance) -> (yes: bool)
        requires
            self.in_cycle(),
        ensures
            yes == self@.matches(i@),
            self.filter_text@.len() == 0 ==> yes == (self@.status_matches(i@)
                && self@.alarm_matches(i@)),
    {
        let needle = self.filter_text.as_str().to_lowercase();
        let text_ok = needle.as_str().is_empty() || text::contains_text(
            i.name.as_str().to_lowercase().as_str(),
            needle.as_str(),
        ) || text::contains_text(i.id.as_str().to_lowercase().as_str(), needle.as_str());
        let status_ok = match self.status_filter() {
            Some(status) => text::text_eq(i.status.as_str(), status),
            None => true,
        };
        let alarm_ok = match self.alarm_filter {
            AlarmFilter::All => true,
            AlarmFilter::Alarming => i.alarm_summary().alarm > 0,
            AlarmFilter::AnyAlarm => i.alarm_summary().total() > 0,
        };
        text_ok && status_ok && alarm_ok
    }

    /// Whether the instance is bookmarked.
    pub fn is_favorite(&self, i: &Instance) -> (yes: bool)
        ensures
            yes == self@.is_favorite(i@),
    {
        self.favorites.contains(i.id.as_str())
    }

    /// Whether the sort order puts `a` before `b`.
    pub fn precedes(&self, a: &Instance, b: &Instance) -> (yes: bool)
        ensures
            yes == self@.precedes(a@, b@),
    {
        match self.sort {
            Sort::Default => {
                self.view == pane::View::All && self.is_favorite(a) && !self.is_favorite(b)
            },
            Sort::Alarms => {
                let x = a.alarm_summary();
                let y = b.alarm_summary();
                x.alarm > y.alarm || x.alarm == y.alarm && (x.insufficient > y.insufficient
                    || x.insufficient == y.insufficient && x.ok > y.ok)
            },
            Sort::Status => {
                instance::rank_of_status(a.status.as_str()) < instance::rank_of_status(
                    b.status.as_str(),
                )
            },
            Sort::Name => {
                text::less(
                    a.name.as_str().to_lowercase().as_str(),
                    b.name.as_str().to_lowercase().as_str(),
                )
            },
        }
    }

    /// The rows of the list from top to bottom: the instances that every filter lets
    /// through, in the sort order, equals as they were loaded. Without filters all of
    /// them are listed.
    pub fn visible(&self) -> (rows: Vec<&Instance>)
        requires
            self.in_cycle(),
        ensures
            model::views(rows@) == self@.visible(),
            self@.unfiltered() ==> rows@.len() == self.all_instances@.len(),
            order::is_stable_sort(self@.listed(), model::views(rows@), self@.row_order()),
    {
        let mut listed: Vec<&Instance> = Vec::new();
        let ghost all = model::views(self.all_instances@);
        let ghost pred = self@.listing();
        let mut n: usize = 0;
        proof {
            reveal(Seq::filter);
            assert(model::views(listed@) =~= all.take(0).filter(pred));
        }
        while n < self.all_instances.len()
            invariant
                n <= self.all_instances@.len(),
                self.in_cycle(),
                all == model::views(self.all_instances@),
                pred == self@.listing(),
                model::views(listed@) == all.take(n as int).filter(pred),
                self@.unfiltered() ==> listed@.len() == n,
            decreases self.all_instances@.len() - n,
        {
            let i = &self.all_instances[n];
            let shown = match self.view {
                pane::View::Favorites => self.is_favorite(i),
                pane::View::All => true,
            };
            proof {
                reveal(Seq::filter);
                model::lemma_views_push(listed@, i);
                assert(all.take(n + 1).drop_last() =~= all.take(n as int));
                assert(all.take(n + 1).last() == i@);
                assert(pred(i@) == self@.lists(i@));
            }
            if self.matches(i) && shown {
                listed.push(i);
            }
            n = n + 1;
        }
        assert(all.take(n as int) =~= all);
        proof {
            lemma_row_order(self@);
            order::lemma_stable_sort(self@.listed(), self@.row_order());
            order::lemma_stable_sort_len(self@.listed(), self@.row_order());
        }
        let less = |a: &Instance, b: &Instance| -> (yes: bool)
            ensures
                (yes == self@.precedes(a@, b@)),
        {
            self.precedes(a, b)
        };
        order::sort_refs(&listed, less, Ghost(self@.row_order()))
    }

    /// The first row whose instance has the id `id`.
    fn row_of(&self, id: &str) -> (row: Option<usize>)
        requires
            self.in_cycle(),
        ensures
            position_of(self@.visible(), id@) == (match row {
                Some(k) => Some(k as int),
                None => None,
            }),
    {
        let rows = self.visible();
        let mut i: usize = 0;
        while i < rows.len()
            invariant
                i <= rows@.len(),
                model::views(rows@) == self@.visible(),
                position_of(model::views(rows@).take(i as int), id@) is None,
            decreases rows@.len() - i,
        {
            let ghost head = model::views(rows@).take(i + 1);
            assert(head.drop_last() =~= model::views(rows@).take(i as int));
            assert(head.last() == rows@[i as int]@);
            if text::text_eq(rows[i].id.as_str(), id) {
                proof {
                    assert(position_of(head, id@) == Some(i as int));
                    lemma_position_extends(model::views(rows@), id@, i + 1);
                }
                return Some(i);
            }
            i = i + 1;
        }
        assert(model::views(rows@).take(i as int) =~= model::views(rows@));
        None
    }

    /// The id of the selected row.
    pub fn selected_id(&self) -> (id: Option<String>)
        requires
            self.in_cycle(),
        ensures
            text::text_opt(id) == self@.selected_id(),
    {
        match self.table_state.selected {
            Some(row) => {
                let rows = self.visible();
                if row < rows.len() {
                    assert(model::views(rows@)[row as int] == rows@[row as int]@);
                    Some(rows[row].id.clone())
                } else {
                    None
                }
            },
            None => None,
        }
    }

    /// The first loaded instance with the id `id`.
    pub fn instance_by_id(&self, id: &str) -> (found: Option<&Instance>)
        ensures
            model::view_opt(found) == self@.instance_by_id(id@),
    {
        let mut i: usize = 0;
        let ghost all = model::views(self.all_instances@);
        while i < self.all_instances.len()
            invariant
                i <= self.all_instances@.len(),
                all == model::views(self.all_instances@),
                position_of(all.take(i as int), id@) is None,
            decreases self.all_instances@.len() - i,
        {
            let ghost head = all.take(i + 1);
            assert(head.drop_last() =~= all.take(i as int));
            assert(head.last() == self.all_instances@[i as int]@);
            if text::text_eq(self.all_instances[i].id.as_str(), id) {
                proof {
                    assert(position_of(head, id@) == Some(i as int));
                    lemma_position_extends(all, id@, i + 1);
                }
                return Some(&self.all_instances[i]);
            }
            i = i + 1;
        }
        assert(all.take(i as int) =~= all);
        None
    }

    /// Selects the first row, if there is one.
    pub fn reset_selection(&mut self)
        requires
            old(self).in_cycle(),
        ensures
            final(self)@ == old(self)@.reset_selection(),
            final(self).in_cycle(),
    {
        let n = self.visible().len();
        assert(n == self@.visible().len());
        if n == 0 {
            self.table_state.select(None);
        } else {
            self.table_state.select(Some(0));
        }
    }

    /// Selects the row with the id `id` if it is listed, else the first row.
    fn reselect(&mut self, id: Option<String>)
        requires
            old(self).in_cycle(),
        ensures
            final(self)@ == old(self)@.reselect(text::text_opt(id)),
            final(self).in_cycle(),
    {
        match id {
            Some(id) => match self.row_of(id.as_str()) {
                Some(row) => {
                    self.table_state.select(Some(row));
                },
                None => {
                    self.reset_selection();
                },
            },
            None => {
                self.reset_selection();
            },
        }
    }
}

impl App {
    /// The state with which the monitor starts; `now` is the reading of a monotonic
    /// clock in nanoseconds.
    pub fn new(
        instances: Vec<Instance>,
        favorites: NameSet,
        region: String,
        profile: String,
        profiles: Vec<String>,
        now: u64,
    ) -> (app: App)
        ensures
            app@ == AppView::started(
                model::views(instances@),
                favorites@,
                region@,
                profile@,
                text::texts(profiles@),
                now,
            ),
            app.in_cycle(),
            app@.well_formed(),
    {
        proof {
            laws::law_started(
                model::views(instances@),
                favorites@,
                region@,
                profile@,
                text::texts(profiles@),
                now,
            );
        }
        let view = if favorites.is_empty() {
            pane::View::All
        } else {
            pane::View::Favorites
        };
        let mut app = App {
            all_instances: instances,
            table_state: TableState { offset: 0, selected: None },
            mode: Mode::Normal,
            view,
            sort: Sort::Default,
            filter_text: String::new(),
            status_filter_idx: 0,
            alarm_filter: AlarmFilter::All,
            favorites,
            last_message: None,
            last_refresh: Some(now),
            last_error: None,
            is_refreshing: false,
            region,
            profile,
            profiles,
            profile_picker_idx: 0,
        };
        app.reset_selection();
        app
    }

    /// Moves the selection one row down, from the last row to the first.
    pub fn next(&mut self)
        requires
            old(self).in_cycle(),
        ensures
            final(self)@ == old(self)@.next(),
            final(self).in_cycle(),
    {
        let len = self.visible().len();
        assert(len == self@.visible().len());
        if len == 0 {
            self.table_state.select(None);
            return;
        }
        let row = match self.table_state.selected {
            Some(row) => if row >= len - 1 {
                0
            } else {
                row + 1
            },
            None => 0,
        };
        self.table_state.select(Some(row));
    }

    /// Moves the selection one row up, from the first row to the last.
    pub fn previous(&mut self)
        requires
            old(self).in_cycle(),
        ensures
            final(self)@ == old(self)@.previous(),
            final(self).in_cycle(),
    {
        let len = self.visible().len();
        assert(len == self@.visible().len());
        if len == 0 {
            self.table_state.select(None);
            return;
        }
        let row = match self.table_state.selected {
            Some(row) => if row == 0 {
                len - 1
            } else {
                row - 1
            },
            None => len - 1,
        };
        self.table_state.select(Some(row));
    }

    /// Shows another list; the selected instance stays selected if it is listed there.
    pub fn switch_view(&mut self, view: pane::View)
        requires
            old(self).in_cycle(),
        ensures
            final(self)@ == old(self)@.switch_view(view),
            final(self).in_cycle(),
    {
        if self.view == view {
            return;
        }
        let id = self.selected_id();
        self.view = view;
        self.reselect(id);
    }

    /// Steps to the next sort order; the selected instance stays selected.
    pub fn cycle_sort(&mut self)
        requires
            old(self).in_cycle(),
        ensures
            final(self)@ == old(self)@.cycle_sort(),
            final(self).in_cycle(),
    {
        let id = self.selected_id();
        self.sort = self.sort.next();
        self.reselect(id);
    }

    /// Steps to the next alarm filter.
    pub fn cycle_alarm_filter(&mut self)
        requires
            old(self).in_cycle(),
        ensures
            final(self)@ == old(self)@.cycle_alarm_filter(),
            final(self).in_cycle(),
    {
        self.alarm_filter = self.alarm_filter.next();
        self.reset_selection();
    }

    /// Steps to the next status filter.
    pub fn cycle_status(&mut self)
        requires
            old(self).status_filter_idx < usize::MAX,
        ensures
            final(self)@ == old(self)@.cycle_status(),
            final(self).in_cycle(),
    {
        self.status_filter_idx = (self.status_filter_idx + 1) % filters::STATUS_STEPS;
        self.reset_selection();
    }

    /// Sets the bookmark of the selected instance or takes it away. Returns the text
    /// that now has to be stored as the bookmarks, where a row is selected.
    pub fn toggle_favorite(&mut self) -> (stored: Option<String>)
        requires
            old(self).in_cycle(),
        ensures
            final(self)@ == old(self)@.toggle_favorite(),
            final(self).in_cycle(),
            text::text_opt(stored) == (match old(self)@.selected_id() {
                Some(id) => Some(favorites::stored_text(old(self)@.toggled(id))),
                None => None,
            }),
    {
        let id = match self.selected_id() {
            Some(id) => id,
            None => {
                return None;
            },
        };
        if self.favorites.contains(id.as_str()) {
            self.favorites.remove(id.as_str());
        } else {
            self.favorites.insert(id.clone());
        }
        let stored = favorites::favorites_text(&self.favorites);
        if self.view == pane::View::Favorites && self.favorites.is_empty() {
            self.view = pane::View::All;
        }
        let row = self.row_of(id.as_str());
        self.table_state.select(row);
        if row.is_none() {
            self.reset_selection();
        }
        Some(stored)
    }

    /// Takes over new instances; the selected one stays selected if it is still listed.
    pub fn apply_instances(&mut self, new_list: Vec<Instance>)
        requires
            old(self).in_cycle(),
        ensures
            final(self)@ == old(self)@.apply_instances(model::views(new_list@)),
            final(self).in_cycle(),
    {
        let id = self.selected_id();
        self.all_instances = new_list;
        self.reselect(id);
    }

    /// Adds a character to the find text.
    pub fn type_char(&mut self, c: char)
        requires
            old(self).in_cycle(),
        ensures
            final(self)@ == old(self)@.type_char(c),
            final(self).in_cycle(),
    {
        self.filter_text.push(c);
        self.reset_selection();
    }

    /// Takes the last character off the find text.
    pub fn erase_char(&mut self)
        requires
            old(self).in_cycle(),
        ensures
            final(self)@ == old(self)@.erase_char(),
            final(self).in_cycle(),
    {
        let _ = self.filter_text.pop();
        self.reset_selection();
    }

    /// Offers `profiles` to choose from, with the current one selected.
    pub fn open_profile_picker(&mut self, profiles: Vec<String>)
        ensures
            final(self)@ == old(self)@.open_profile_picker(text::texts(profiles@)),
            final(self).status_filter_idx == old(self).status_filter_idx,
            old(self)@.well_formed() && old(self).mode != Mode::ProfilePicker
                ==> final(self)@.well_formed(),
    {
        proof {
            if self@.well_formed() && self.mode != Mode::ProfilePicker {
                laws::law_picker_keeps_invariant(self@, text::texts(profiles@));
            }
        }
        self.profiles = profiles;
        if self.profiles.len() == 0 {
            self.last_error = Some("No profiles found in ~/.aws".to_owned());
            return;
        }
        self.profile_picker_idx = text::first_index(&self.profiles, self.profile.as_str());
        self.mode = Mode::ProfilePicker;
    }

    /// Steps to the next profile of the picker.
    pub fn picker_next(&mut self)
        requires
            old(self).profiles@.len() > 0 ==> old(self).profile_picker_idx < usize::MAX,
        ensures
            final(self)@ == old(self)@.picker_next(),
            final(self).status_filter_idx == old(self).status_filter_idx,
    {
        if self.profiles.len() == 0 {
            return;
        }
        self.profile_picker_idx = (self.profile_picker_idx + 1) % self.profiles.len();
    }

    /// Steps to the previous profile of the picker.
    pub fn picker_previous(&mut self)
        ensures
            final(self)@ == old(self)@.picker_previous(),
            final(self).status_filter_idx == old(self).status_filter_idx,
    {
        if self.profiles.len() == 0 {
            return;
        }
        if self.profile_picker_idx == 0 {
            self.profile_picker_idx = self.profiles.len() - 1;
        } else {
            self.profile_picker_idx = self.profile_picker_idx - 1;
        }
    }
}

/// A find in a longer sequence of rows gives what it gives in the part that holds a hit.
proof fn lemma_position_extends(rows: Seq<InstanceView>, id: Seq<char>, n: int)
    requires
        0 <= n <= rows.len(),
        position_of(rows.take(n), id) is Some,
    ensures
        position_of(rows, id) == position_of(rows.take(n), id),
    decreases rows.len() - n,
{
    if n == rows.len() {
        assert(rows.take(n) =~= rows);
    } else {
        assert(rows.take(n + 1).drop_last() =~= rows.take(n));
        lemma_position_extends(rows, id, n + 1);
    }
}

/// Each sort order is a strict order.
pub proof fn lemma_row_order(app: AppView)
    ensures
        order::strict_order(app.row_order()),
{
    let lt = app.row_order();
    assert forall|a: InstanceView| !#[trigger] lt(a, a) by {
        text::lemma_text_less_total(text::lowercase(a.name), text::lowercase(a.name));
    }
    assert forall|a: InstanceView, b: InstanceView, c: InstanceView| #[trigger]
        lt(a, b) && #[trigger] lt(b, c) implies lt(a, c) by {
        if app.sort == Sort::Name {
            text::lemma_text_less_transitive(
                text::lowercase(a.name),
                text::lowercase(b.name),
                text::lowercase(c.name),
            );
        }
    }
    assert forall|a: InstanceView, b: InstanceView, c: InstanceView| !#[trigger] lt(a, b)
        && !#[trigger] lt(b, c) implies !lt(a, c) by {
        if app.sort == Sort::Name {
            let (x, y, z) = (
                text::lowercase(a.name),
                text::lowercase(b.name),
                text::lowercase(c.name),
            );
            text::lemma_text_less_total(x, y);
            text::lemma_text_less_total(y, z);
            text::lemma_text_less_total(x, z);
            if text::text_less(x, z) && x != y && y != z {
                text::lemma_text_less_transitive(z, y, x);
            }
        }
    }
}

} // verus!
