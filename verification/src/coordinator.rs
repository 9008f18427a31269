//! The background loader: when it loads the fleet, when it changes the profile and what
//! it tells the monitor.

use vstd::prelude::*;
use crate::instance::{Instance, InstanceView};
use crate::model;
use crate::update::{AppCommand, CommandView, DataUpdate, UpdateView};

verus! {

/// The fleet is loaded anew after this many seconds without a command.
pub const REFRESH_INTERVAL_SECS: u64 = 30;

/// What the loader has to do next.
pub enum Step {
    /// Sleep until the refresh interval is over or a command comes.
    Wait,
    /// Take the next command that has come already, if there is one.
    Drain,
    /// Connect with this profile.
    Connect(String),
    /// Tell the monitor of the new profile.
    Announce,
    /// Load the fleet.
    Fetch,
    /// Tell the monitor how the loading went.
    Deliver,
    /// End.
    Stop,
}

/// What a `Step` says.
pub enum StepView {
    Wait,
    Drain,
    Connect(Seq<char>),
    Announce,
    Fetch,
    Deliver,
    Stop,
}

impl View for Step {
    type V = StepView;

    open spec fn view(&self) -> StepView {
        match self {
            Step::Wait => StepView::Wait,
            Step::Drain => StepView::Drain,
            Step::Connect(profile) => StepView::Connect(profile@),
            Step::Announce => StepView::Announce,
            Step::Fetch => StepView::Fetch,
            Step::Deliver => StepView::Deliver,
            Step::Stop => StepView::Stop,
        }
    }
}

/// How a step went.
pub enum StepEvent {
    /// The refresh interval is over.
    TimerFired,
    /// A command came.
    Received(AppCommand),
    /// No more commands can come.
    Closed,
    /// No command is waiting.
    QueueEmpty,
    /// The connection is made.
    Connected { region: String },
    /// The monitor was told.
    Sent,
    /// The monitor is gone.
    Unsent,
    /// The fleet was loaded.
    Fetched(Vec<Instance>),
    /// The fleet could not be loaded.
    FetchFailed(String),
}

/// What a `StepEvent` says.
pub enum StepEventView {
    TimerFired,
    Received(CommandView),
    Closed,
    QueueEmpty,
    Connected { region: Seq<char> },
    Sent,
    Unsent,
    Fetched(Seq<InstanceView>),
    FetchFailed(Seq<char>),
}

impl View for StepEvent {
    type V = StepEventView;

    open spec fn view(&self) -> StepEventView {
        match self {
            StepEvent::TimerFired => StepEventView::TimerFired,
            StepEvent::Received(command) => StepEventView::Received(command@),
            StepEvent::Closed => StepEventView::Closed,
            StepEvent::QueueEmpty => StepEventView::QueueEmpty,
            StepEvent::Connected { region } => StepEventView::Connected { region: region@ },
            StepEvent::Sent => StepEventView::Sent,
            StepEvent::Unsent => StepEventView::Unsent,
            StepEvent::Fetched(list) => StepEventView::Fetched(model::views(list@)),
            StepEvent::FetchFailed(error) => StepEventView::FetchFailed(error@),
        }
    }
}

/// The step that a command leads to.
pub open spec fn step_of(command: CommandView) -> StepView {
    match command {
        CommandView::Refresh => StepView::Drain,
        CommandView::SwitchProfile(profile) => StepView::Connect(profile),
    }
}

/// The step that a command leads to: a change of the profile needs a connection, a
/// refresh comes anyway once the commands are taken.
pub fn apply_command(command: AppCommand) -> (step: Step)
    ensures
        step@ == step_of(command@),
{
    match command {
        AppCommand::Refresh => Step::Drain,
        AppCommand::SwitchProfile(profile) => Step::Connect(profile),
    }
}

impl StepView {
    /// The next step after `event`, and what it has to tell the monitor. An event that
    /// the step does not wait for changes nothing.
    pub open spec fn after(self, event: StepEventView) -> (StepView, Option<UpdateView>) {
        match (self, event) {
            (StepView::Wait, StepEventView::TimerFired) => (StepView::Drain, None),
            (StepView::Wait, StepEventView::Received(command)) => (step_of(command), None),
            (StepView::Wait, StepEventView::Closed) => (StepView::Stop, None),
            (StepView::Drain, StepEventView::Received(command)) => (step_of(command), None),
            (StepView::Drain, StepEventView::QueueEmpty) => (StepView::Fetch, None),
            (StepView::Connect(profile), StepEventView::Connected { region }) => (
                StepView::Announce,
                Some(UpdateView::ProfileSwitched { profile, region }),
            ),
            (StepView::Announce, StepEventView::Sent) => (StepView::Drain, None),
            (StepView::Announce, StepEventView::Unsent) => (StepView::Drain, None),
            (StepView::Fetch, StepEventView::Fetched(list)) => (
                StepView::Deliver,
                Some(UpdateView::Loaded(list)),
            ),
            (StepView::Fetch, StepEventView::FetchFailed(error)) => (
                StepView::Deliver,
                Some(UpdateView::Failed(error)),
            ),
            (StepView::Deliver, StepEventView::Sent) => (StepView::Wait, None),
            (StepView::Deliver, StepEventView::Unsent) => (StepView::Stop, None),
            _ => (self, None),
        }
    }

    /// The step after all of `events`.
    pub open spec fn after_all(self, events: Seq<StepEventView>) -> StepView
        decreases events.len(),
    {
        if events.len() == 0 {
            self
        } else {
            self.after_all(events.drop_last()).after(events.last()).0
        }
    }
}

impl Step {
    /// The next step after `event`, and what it has to tell the monitor.
    pub fn next(self, event: StepEvent) -> (next: (Step, Option<DataUpdate>))
        ensures
            (next.0@, model::view_opt(next.1)) == self@.after(event@),
    {
        match (self, event) {
            (Step::Wait, StepEvent::TimerFired) => (Step::Drain, None),
            (Step::Wait, StepEvent::Received(command)) => (apply_command(command), None),
            (Step::Wait, StepEvent::Closed) => (Step::Stop, None),
            (Step::Drain, StepEvent::Received(command)) => (apply_command(command), None),
            (Step::Drain, StepEvent::QueueEmpty) => (Step::Fetch, None),
            (Step::Connect(profile), StepEvent::Connected { region }) => (
                Step::Announce,
                Some(DataUpdate::ProfileSwitched { profile, region }),
            ),
            (Step::Announce, StepEvent::Sent) => (Step::Drain, None),
            (Step::Announce, StepEvent::Unsent) => (Step::Drain, None),
            (Step::Fetch, StepEvent::Fetched(list)) => (
                Step::Deliver,
                Some(DataUpdate::Loaded(list)),
            ),
            (Step::Fetch, StepEvent::FetchFailed(error)) => (
                Step::Deliver,
                Some(DataUpdate::Failed(error)),
            ),
            (Step::Deliver, StepEvent::Sent) => (Step::Wait, None),
            (Step::Deliver, StepEvent::Unsent) => (Step::Stop, None),
            (step, _) => (step, None),
        }
    }
}

/// The fleet is loaded only when no command is waiting.
pub proof fn law_fetch_after_drain(step: StepView, event: StepEventView)
    requires
        !(step is Fetch),
    ensures
        step.after(event).0 is Fetch <==> step is Drain && event is QueueEmpty,
{
}

/// A new profile is announced with its region before the fleet is loaded with it, and the
/// loader goes on whether or not the monitor was told.
pub proof fn law_profile_is_announced(profile: Seq<char>, region: Seq<char>)
    ensures
        StepView::Connect(profile).after(StepEventView::Connected { region }) == (
            StepView::Announce,
            Some(UpdateView::ProfileSwitched { profile, region }),
        ),
        StepView::Announce.after(StepEventView::Sent).0 == StepView::Drain,
        StepView::Announce.after(StepEventView::Unsent).0 == StepView::Drain,
{
}

/// The loader connects only on a command, with the profile that the command names.
pub proof fn law_connect_on_command(step: StepView, event: StepEventView, profile: Seq<char>)
    requires
        !(step is Connect),
    ensures
        step.after(event).0 == StepView::Connect(profile) <==> (step is Wait || step is Drain)
            && event == StepEventView::Received(CommandView::SwitchProfile(profile)),
{
}

/// Whatever comes of a loading is delivered as it came.
pub proof fn law_outcome_is_delivered(list: Seq<InstanceView>, error: Seq<char>)
    ensures
        StepView::Fetch.after(StepEventView::Fetched(list)) == (
            StepView::Deliver,
            Some(UpdateView::Loaded(list)),
        ),
        StepView::Fetch.after(StepEventView::FetchFailed(error)) == (
            StepView::Deliver,
            Some(UpdateView::Failed(error)),
        ),
{
}

/// The monitor is told something exactly when the loader comes to a step that tells it.
pub proof fn law_news_come_with_their_step(step: StepView, event: StepEventView)
    requires
        !(step is Announce || step is Deliver),
    ensures
        step.after(event).1 is Some <==> step.after(event).0 is Announce || step.after(event).0
            is Deliver,
{
}

/// The loader stops only when no more commands can come while it waits, or when nobody
/// takes what it delivers.
pub proof fn law_stop(step: StepView, event: StepEventView)
    requires
        !(step is Stop),
    ensures
        step.after(event).0 is Stop <==> step is Wait && event is Closed || step is Deliver
            && event is Unsent,
{
}

/// A loader that has stopped does nothing more.
pub proof fn law_stopped(events: Seq<StepEventView>)
    ensures
        StepView::Stop.after_all(events) == StepView::Stop,
    decreases events.len(),
{
    if events.len() > 0 {
        law_stopped(events.drop_last());
    }
}

/// A command that came and how it was handled: the region of the connection and whether
/// the monitor could be told matter where it changes the profile.
pub struct Handled {
    pub command: CommandView,
    pub region: Seq<char>,
    pub told: bool,
}

impl Handled {
    /// The events with which the command is handled.
    pub open spec fn events(self) -> Seq<StepEventView> {
        let received = StepEventView::Received(self.command);
        match self.command {
            CommandView::Refresh => seq![received],
            CommandView::SwitchProfile(_) => seq![
                received,
                StepEventView::Connected { region: self.region },
                if self.told {
                    StepEventView::Sent
                } else {
                    StepEventView::Unsent
                },
            ],
        }
    }

    /// What the monitor is told on account of the command.
    pub open spec fn news(self) -> Seq<UpdateView> {
        match self.command {
            CommandView::Refresh => seq![],
            CommandView::SwitchProfile(profile) => seq![
                UpdateView::ProfileSwitched { profile, region: self.region },
            ],
        }
    }
}

/// The events with which commands are handled, one after the other.
pub open spec fn handling(commands: Seq<Handled>) -> Seq<StepEventView>
    decreases commands.len(),
{
    if commands.len() == 0 {
        seq![]
    } else {
        handling(commands.drop_last()) + commands.last().events()
    }
}

/// What the monitor is told on account of commands, in the order of the commands.
pub open spec fn announcements(commands: Seq<Handled>) -> Seq<UpdateView>
    decreases commands.len(),
{
    if commands.len() == 0 {
        seq![]
    } else {
        announcements(commands.drop_last()) + commands.last().news()
    }
}

/// The events up to the loading: the timer, if it is the timer that ends the wait, then
/// the commands that have come, until none is left.
pub open spec fn waking(timer: bool, commands: Seq<Handled>) -> Seq<StepEventView> {
    (if timer {
        seq![StepEventView::TimerFired]
    } else {
        seq![]
    }) + handling(commands) + seq![StepEventView::QueueEmpty]
}

/// What the monitor is told of a loading.
pub open spec fn outcome_news(outcome: StepEventView) -> UpdateView
    recommends
        outcome is Fetched || outcome is FetchFailed,
{
    match outcome {
        StepEventView::FetchFailed(error) => UpdateView::Failed(error),
        StepEventView::Fetched(list) => UpdateView::Loaded(list),
        _ => UpdateView::Loaded(seq![]),
    }
}

impl StepView {
    /// What the monitor is told while `events` happen.
    pub open spec fn news_of(self, events: Seq<StepEventView>) -> Seq<UpdateView>
        decreases events.len(),
    {
        if events.len() == 0 {
            seq![]
        } else {
            let head = events.drop_last();
            match self.after_all(head).after(events.last()).1 {
                Some(update) => self.news_of(head).push(update),
                None => self.news_of(head),
            }
        }
    }
}

proof fn lemma_one_after_the_other(
    step: StepView,
    a: Seq<StepEventView>,
    b: Seq<StepEventView>,
)
    ensures
        step.after_all(a + b) == step.after_all(a).after_all(b),
        step.news_of(a + b) == step.news_of(a) + step.after_all(a).news_of(b),
    decreases b.len(),
{
    if b.len() == 0 {
        assert(a + b =~= a);
        assert(step.news_of(a) + step.after_all(a).news_of(b) =~= step.news_of(a));
    } else {
        let head = b.drop_last();
        lemma_one_after_the_other(step, a, head);
        assert((a + b).drop_last() =~= a + head);
        assert((a + b).last() == b.last());
        assert(step.news_of(a + b) =~= step.news_of(a) + step.after_all(a).news_of(b));
    }
}

proof fn lemma_single(step: StepView, event: StepEventView)
    ensures
        step.after_all(seq![event]) == step.after(event).0,
        step.news_of(seq![event]) == (match step.after(event).1 {
            Some(update) => seq![update],
            None => seq![],
        }),
{
    let events = seq![event];
    assert(events.drop_last() =~= seq![]);
    assert(step.after_all(events.drop_last()) == step);
    assert(step.news_of(events.drop_last()) =~= seq![]);
    assert(step.news_of(events) =~= (match step.after(event).1 {
        Some(update) => seq![update],
        None => seq![],
    }));
}

proof fn lemma_command_is_handled(step: StepView, h: Handled)
    requires
        step is Wait || step is Drain,
    ensures
        step.after_all(h.events()) == StepView::Drain,
        step.news_of(h.events()) == h.news(),
{
    let received = StepEventView::Received(h.command);
    lemma_single(step, received);
    match h.command {
        CommandView::Refresh => {},
        CommandView::SwitchProfile(profile) => {
            let connected = StepEventView::Connected { region: h.region };
            let told = if h.told {
                StepEventView::Sent
            } else {
                StepEventView::Unsent
            };
            lemma_single(StepView::Connect(profile), connected);
            lemma_single(StepView::Announce, told);
            lemma_one_after_the_other(step, seq![received], seq![connected]);
            lemma_one_after_the_other(step, seq![received] + seq![connected], seq![told]);
            assert(h.events() =~= seq![received] + seq![connected] + seq![told]);
            assert(step.news_of(h.events()) =~= h.news());
        },
    }
}

proof fn lemma_commands_are_handled(step: StepView, commands: Seq<Handled>)
    requires
        step is Drain || step is Wait && commands.len() > 0,
    ensures
        step.after_all(handling(commands)) == StepView::Drain,
        step.news_of(handling(commands)) == announcements(commands),
    decreases commands.len(),
{
    if commands.len() > 0 {
        let head = commands.drop_last();
        if head.len() > 0 || step is Drain {
            lemma_commands_are_handled(step, head);
        }
        lemma_command_is_handled(step.after_all(handling(head)), commands.last());
        lemma_one_after_the_other(step, handling(head), commands.last().events());
    }
}

/// A round of the loader. Its wait ends when the timer fires or a command comes. All
/// commands that have come by then are handled in their order: each change of the profile
/// is connected and announced before the next command. Then the fleet is loaded, once,
/// and exactly one update tells what came of it, whether or not the loading failed, and
/// the loader waits again.
pub proof fn law_refresh_round(timer: bool, commands: Seq<Handled>, outcome: StepEventView)
    requires
        timer || commands.len() > 0,
        outcome is Fetched || outcome is FetchFailed,
    ensures
        StepView::Wait.after_all(waking(timer, commands)) == StepView::Fetch,
        StepView::Wait.news_of(waking(timer, commands)) == announcements(commands),
        StepView::Wait.after_all(waking(timer, commands) + seq![outcome, StepEventView::Sent])
            == StepView::Wait,
        StepView::Wait.news_of(waking(timer, commands) + seq![outcome, StepEventView::Sent])
            == announcements(commands).push(outcome_news(outcome)),
{
    let wait = StepView::Wait;
    let timed: Seq<StepEventView> = if timer {
        seq![StepEventView::TimerFired]
    } else {
        seq![]
    };
    let start = wait.after_all(timed);
    lemma_single(wait, StepEventView::TimerFired);
    assert(wait.news_of(timed) =~= seq![]);
    lemma_commands_are_handled(start, commands);
    lemma_one_after_the_other(wait, timed, handling(commands));
    let drained = timed + handling(commands);
    assert(wait.news_of(drained) =~= announcements(commands));
    lemma_single(StepView::Drain, StepEventView::QueueEmpty);
    lemma_one_after_the_other(wait, drained, seq![StepEventView::QueueEmpty]);
    assert(wait.news_of(waking(timer, commands)) =~= announcements(commands));

    lemma_single(StepView::Fetch, outcome);
    lemma_single(StepView::Deliver, StepEventView::Sent);
    lemma_one_after_the_other(StepView::Fetch, seq![outcome], seq![StepEventView::Sent]);
    let end = seq![outcome] + seq![StepEventView::Sent];
    assert(end =~= seq![outcome, StepEventView::Sent]);
    lemma_one_after_the_other(wait, waking(timer, commands), end);
    assert(wait.news_of(waking(timer, commands) + end) =~= announcements(commands).push(
        outcome_news(outcome),
    ));
}

/// However many refreshes are asked for in a round, one update comes of them.
pub proof fn law_refreshes_are_merged(
    timer: bool,
    commands: Seq<Handled>,
    outcome: StepEventView,
)
    requires
        timer || commands.len() > 0,
        outcome is Fetched || outcome is FetchFailed,
        forall|i: int| 0 <= i < commands.len() ==> (#[trigger] commands[i]).command is Refresh,
    ensures
        StepView::Wait.news_of(waking(timer, commands) + seq![outcome, StepEventView::Sent])
            == seq![outcome_news(outcome)],
{
    lemma_no_announcements(commands);
    law_refresh_round(timer, commands, outcome);
    assert(announcements(commands).push(outcome_news(outcome)) =~= seq![outcome_news(outcome)]);
}

proof fn lemma_no_announcements(commands: Seq<Handled>)
    requires
        forall|i: int| 0 <= i < commands.len() ==> (#[trigger] commands[i]).command is Refresh,
    ensures
        announcements(commands) == Seq::<UpdateView>::empty(),
    decreases commands.len(),
{
    if commands.len() > 0 {
        let head = commands.drop_last();
        assert forall|i: int| 0 <= i < head.len() implies (#[trigger] head[i]).command is Refresh by {
            assert(commands[i].command is Refresh);
        }
        lemma_no_announcements(head);
        assert(commands[commands.len() - 1].command is Refresh);
        assert(announcements(commands) =~= Seq::<UpdateView>::empty());
    }
}

/// What the loader does after each event that a step waits for.
pub proof fn law_loader_steps(profile: Seq<char>)
    ensures
        StepView::Wait.after(StepEventView::TimerFired) == (StepView::Drain, None::<UpdateView>),
        forall|step: StepView|
            step == StepView::Wait || step == StepView::Drain ==> #[trigger] step.after(
                StepEventView::Received(CommandView::Refresh),
            ) == (StepView::Drain, None::<UpdateView>),
        forall|step: StepView|
            step == StepView::Wait || step == StepView::Drain ==> #[trigger] step.after(
                StepEventView::Received(CommandView::SwitchProfile(profile)),
            ) == (StepView::Connect(profile), None::<UpdateView>),
        StepView::Wait.after(StepEventView::Closed) == (StepView::Stop, None::<UpdateView>),
        StepView::Drain.after(StepEventView::QueueEmpty) == (StepView::Fetch, None::<UpdateView>),
        StepView::Announce.after(StepEventView::Sent) == (StepView::Drain, None::<UpdateView>),
        StepView::Announce.after(StepEventView::Unsent) == (StepView::Drain, None::<UpdateView>),
        StepView::Deliver.after(StepEventView::Sent) == (StepView::Wait, None::<UpdateView>),
        StepView::Deliver.after(StepEventView::Unsent) == (StepView::Stop, None::<UpdateView>),
        REFRESH_INTERVAL_SECS == 30,
{
}

/// An event that a step does not wait for changes nothing.
pub proof fn law_unexpected_events(step: StepView, event: StepEventView)
    requires
        event is TimerFired || event is Closed ==> !(step is Wait),
        event is Received ==> !(step is Wait || step is Drain),
        event is QueueEmpty ==> !(step is Drain),
        event is Connected ==> !(step is Connect),
        event is Sent || event is Unsent ==> !(step is Announce || step is Deliver),
        event is Fetched || event is FetchFailed ==> !(step is Fetch),
    ensures
        step.after(event) == (step, None::<UpdateView>),
{
}

} // verus!
