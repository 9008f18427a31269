//! What the monitor and its background loader send to each other.

use vstd::prelude::*;
use crate::app::{App, AppView};
use crate::instance::{Instance, InstanceView};
use crate::laws;
use crate::model;
use crate::text;

verus! {

/// What the monitor asks of the loader.
pub enum AppCommand {
    Refresh,
    SwitchProfile(String),
}

/// What an `AppCommand` says.
pub enum CommandView {
    Refresh,
    SwitchProfile(Seq<char>),
}

impl View for AppCommand {
    type V = CommandView;

    open spec fn view(&self) -> CommandView {
        match self {
            AppCommand::Refresh => CommandView::Refresh,
            AppCommand::SwitchProfile(profile) => CommandView::SwitchProfile(profile@),
        }
    }
}

/// What the loader tells the monitor.
pub enum DataUpdate {
    Loaded(Vec<Instance>),
    Failed(String),
    ProfileSwitched { profile: String, region: String },
}

/// What a `DataUpdate` says.
pub enum UpdateView {
    Loaded(Seq<InstanceView>),
    Failed(Seq<char>),
    ProfileSwitched { profile: Seq<char>, region: Seq<char> },
}

impl View for DataUpdate {
    type V = UpdateView;

    open spec fn view(&self) -> UpdateView {
        match self {
            DataUpdate::Loaded(list) => UpdateView::Loaded(model::views(list@)),
            DataUpdate::Failed(error) => UpdateView::Failed(error@),
            DataUpdate::ProfileSwitched { profile, region } => UpdateView::ProfileSwitched {
                profile: profile@,
                region: region@,
            },
        }
    }
}

impl AppView {
    /// The state after news from the loader; `now` is the clock reading in nanoseconds.
    pub open spec fn apply_update(self, update: UpdateView, now: u64) -> AppView {
        match update {
            UpdateView::Loaded(list) => AppView {
                last_refresh: Some(now),
                last_error: None,
                is_refreshing: false,
                ..self.apply_instances(list)
            },
            UpdateView::Failed(error) => AppView {
                last_error: Some(error),
                is_refreshing: false,
                ..self
            },
            UpdateView::ProfileSwitched { profile, region } => AppView {
                profile,
                region,
                last_error: None,
                ..self
            },
        }
    }

    /// The state after a refresh was asked for.
    pub open spec fn refresh_requested(self) -> AppView {
        AppView { is_refreshing: true, ..self }
    }
}

impl App {
    /// Takes over news from the loader; `now` is the reading of a monotonic clock in
    /// nanoseconds.
    pub fn apply_update(&mut self, update: DataUpdate, now: u64)
        requires
            old(self).in_cycle(),
        ensures
            final(self)@ == old(self)@.apply_update(update@, now),
            final(self).in_cycle(),
            old(self)@.well_formed() ==> final(self)@.well_formed(),
    {
        proof {
            if self@.well_formed() {
                laws::law_updates_keep_invariant(self@, update@, now);
            }
        }
        match update {
            DataUpdate::Loaded(list) => {
                self.apply_instances(list);
                self.last_refresh = Some(now);
                self.last_error = None;
                self.is_refreshing = false;
            },
            DataUpdate::Failed(error) => {
                self.last_error = Some(error);
                self.is_refreshing = false;
            },
            DataUpdate::ProfileSwitched { profile, region } => {
                self.profile = profile;
                self.region = region;
                self.last_error = None;
            },
        }
    }
}

/// Asks for a refresh, unless one is under way.
pub fn request_refresh(app: &mut App) -> (command: Option<AppCommand>)
    ensures
        final(app)@ == old(app)@.refresh_requested(),
        final(app).status_filter_idx == old(app).status_filter_idx,
        model::view_opt(command) == (if old(app).is_refreshing {
            None
        } else {
            Some(CommandView::Refresh)
        }),
{
    if app.is_refreshing {
        return None;
    }
    app.is_refreshing = true;
    Some(AppCommand::Refresh)
}

} // verus!
