//! Alarms and their counts.

use vstd::prelude::*;
use crate::model;
use crate::style;
use crate::style::{Color, Style};
use crate::text;

verus! {

/// An alarm that is attached to an instance.
pub struct AlarmInfo {
    pub name: String,
    pub state: String,
    pub reason: Option<String>,
}

/// What an `AlarmInfo` says.
pub struct AlarmInfoView {
    pub name: Seq<char>,
    pub state: Seq<char>,
    pub reason: Option<Seq<char>>,
}

impl View for AlarmInfo {
    type V = AlarmInfoView;

    open spec fn view(&self) -> AlarmInfoView {
        AlarmInfoView {
            name: self.name@,
            state: self.state@,
            reason: text::text_opt(self.reason),
        }
    }
}

impl Clone for AlarmInfo {
    fn clone(&self) -> (copy: AlarmInfo)
        ensures
            copy@ == self@,
    {
        AlarmInfo {
            name: self.name.clone(),
            state: self.state.clone(),
            reason: match &self.reason {
                Some(reason) => Some(reason.clone()),
                None => None,
            },
        }
    }
}

/// A copy of a list of alarms.
pub fn clone_alarms(alarms: &Vec<AlarmInfo>) -> (copy: Vec<AlarmInfo>)
    ensures
        model::views(copy@) == model::views(alarms@),
{
    let mut copy: Vec<AlarmInfo> = Vec::new();
    let mut i: usize = 0;
    while i < alarms.len()
        invariant
            i <= alarms@.len(),
            model::views(copy@) == model::views(alarms@).take(i as int),
        decreases alarms@.len() - i,
    {
        let item = alarms[i].clone();
        proof {
            model::lemma_views_push(copy@, item);
        }
        copy.push(item);
        assert(model::views(copy@) =~= model::views(alarms@).take(i + 1));
        i = i + 1;
    }
    assert(model::views(alarms@).take(i as int) =~= model::views(alarms@));
    copy
}

/// The number of alarms in `state`.
pub open spec fn count_state(alarms: Seq<AlarmInfoView>, state: Seq<char>) -> nat {
    alarms.filter(|a: AlarmInfoView| a.state == state).len()
}

/// How many alarms are in which state.
#[derive(Clone, Copy, PartialEq, Eq, Structural, Debug)]
pub struct AlarmSummary {
    pub ok: usize,
    pub alarm: usize,
    pub insufficient: usize,
}

impl AlarmSummary {
    /// The number of alarms in one of the three states.
    pub open spec fn sum(self) -> nat {
        (self.ok + self.alarm + self.insufficient) as nat
    }

    /// The text for an alarm count: the most urgent state that occurs, with its number.
    pub open spec fn label_text(self) -> Seq<char> {
        if self.sum() == 0 {
            "-"@
        } else if self.alarm > 0 {
            "ALARM("@ + text::decimal(self.alarm as nat) + ")"@
        } else if self.insufficient > 0 {
            "INSUF("@ + text::decimal(self.insufficient as nat) + ")"@
        } else {
            "OK("@ + text::decimal(self.ok as nat) + ")"@
        }
    }

    /// The style for an alarm count, by the most urgent state that occurs.
    pub open spec fn label_style(self) -> Style {
        if self.alarm > 0 {
            style::bold_fg_style(Color::Red)
        } else if self.insufficient > 0 {
            style::fg_style(Color::Yellow)
        } else if self.sum() > 0 {
            style::fg_style(Color::Green)
        } else {
            style::fg_style(Color::DarkGray)
        }
    }

    /// The number of alarms in one of the three states.
    pub fn total(&self) -> (n: usize)
        requires
            self.sum() <= usize::MAX,
        ensures
            n == self.sum(),
    {
        self.ok + self.alarm + self.insufficient
    }

    /// The text for this count.
    pub fn label(&self) -> (s: String)
        requires
            self.sum() <= usize::MAX,
        ensures
            s@ == self.label_text(),
    {
        if self.total() == 0 {
            return "-".to_owned();
        }
        if self.alarm > 0 {
            return text::concat3("ALARM(", text::number(self.alarm as u64).as_str(), ")");
        }
        if self.insufficient > 0 {
            return text::concat3("INSUF(", text::number(self.insufficient as u64).as_str(), ")");
        }
        text::concat3("OK(", text::number(self.ok as u64).as_str(), ")")
    }

    /// The style for this count.
    pub fn style(&self) -> (s: Style)
        requires
            self.sum() <= usize::MAX,
        ensures
            s == self.label_style(),
    {
        if self.alarm > 0 {
            Style::bold_fg(Color::Red)
        } else if self.insufficient > 0 {
            Style::fg(Color::Yellow)
        } else if self.total() > 0 {
            Style::fg(Color::Green)
        } else {
            Style::fg(Color::DarkGray)
        }
    }
}

impl Default for AlarmSummary {
    /// No alarms.
    fn default() -> (summary: AlarmSummary)
        ensures
            summary == (AlarmSummary { ok: 0, alarm: 0, insufficient: 0 }),
    {
        AlarmSummary { ok: 0, alarm: 0, insufficient: 0 }
    }
}

/// `summary` counts the alarms of each state.
pub open spec fn counts(summary: AlarmSummary, alarms: Seq<AlarmInfoView>) -> bool {
    &&& summary.ok == count_state(alarms, "OK"@)
    &&& summary.alarm == count_state(alarms, "ALARM"@)
    &&& summary.insufficient == count_state(alarms, "INSUFFICIENT_DATA"@)
}

proof fn lemma_count_next(alarms: Seq<AlarmInfoView>, n: int, state: Seq<char>)
    requires
        0 <= n < alarms.len(),
    ensures
        count_state(alarms.take(n + 1), state) == count_state(alarms.take(n), state) + (
        if alarms[n].state == state { 1nat } else { 0nat }),
{
    reveal(Seq::filter);
    let head = alarms.take(n + 1);
    assert(head.drop_last() =~= alarms.take(n));
    assert(head.last() == alarms[n]);
}

/// Counts the alarms of each state; an alarm in another state is not counted.
pub fn summarize(alarms: &Vec<AlarmInfo>) -> (summary: AlarmSummary)
    ensures
        counts(summary, model::views(alarms@)),
        summary.sum() <= alarms@.len(),
        summary.sum() <= usize::MAX,
{
    let mut summary = AlarmSummary::default();
    let ghost all = model::views(alarms@);
    let n = alarms.len();
    let mut i: usize = 0;
    proof {
        reveal_strlit("OK");
        reveal_strlit("ALARM");
        reveal_strlit("INSUFFICIENT_DATA");
        reveal(Seq::filter);
    }
    while i < n
        invariant
            n == alarms@.len(),
            i <= n,
            all == model::views(alarms@),
            counts(summary, all.take(i as int)),
            summary.sum() <= i,
            "OK"@.len() == 2,
            "ALARM"@.len() == 5,
            "INSUFFICIENT_DATA"@.len() == 17,
        decreases n - i,
    {
        let state = alarms[i].state.as_str();
        proof {
            lemma_count_next(all, i as int, "OK"@);
            lemma_count_next(all, i as int, "ALARM"@);
            lemma_count_next(all, i as int, "INSUFFICIENT_DATA"@);
        }
        if text::text_eq(state, "OK") {
            summary.ok = summary.ok + 1;
        } else if text::text_eq(state, "ALARM") {
            summary.alarm = summary.alarm + 1;
        } else if text::text_eq(state, "INSUFFICIENT_DATA") {
            summary.insufficient = summary.insufficient + 1;
        }
        i = i + 1;
    }
    assert(all.take(i as int) =~= all);
    summary
}

/// The place of an alarm state in a list of alarms: the most urgent first.
pub open spec fn state_rank(state: Seq<char>) -> int {
    if state == "ALARM"@ {
        0
    } else if state == "INSUFFICIENT_DATA"@ {
        1
    } else if state == "OK"@ {
        2
    } else {
        3
    }
}

/// The place of an alarm state in a list of alarms.
pub fn rank_of_state(state: &str) -> (rank: u8)
    ensures
        rank == state_rank(state@),
{
    if text::text_eq(state, "ALARM") {
        0
    } else if text::text_eq(state, "INSUFFICIENT_DATA") {
        1
    } else if text::text_eq(state, "OK") {
        2
    } else {
        3
    }
}

/// The tag that stands for an alarm state.
pub open spec fn state_tag(state: Seq<char>) -> Seq<char> {
    if state == "OK"@ {
        "[OK]   "@
    } else if state == "ALARM"@ {
        "[ALARM]"@
    } else if state == "INSUFFICIENT_DATA"@ {
        "[INSUF]"@
    } else {
        "[?]    "@
    }
}

/// The tag that stands for an alarm state.
pub fn alarm_state_label(state: &str) -> (tag: &'static str)
    ensures
        tag@ == state_tag(state@),
{
    if text::text_eq(state, "OK") {
        "[OK]   "
    } else if text::text_eq(state, "ALARM") {
        "[ALARM]"
    } else if text::text_eq(state, "INSUFFICIENT_DATA") {
        "[INSUF]"
    } else {
        "[?]    "
    }
}

/// The style of the tag that stands for an alarm state.
pub open spec fn state_tag_style(state: Seq<char>) -> Style {
    if state == "ALARM"@ {
        style::bold_fg_style(Color::Red)
    } else if state == "OK"@ {
        style::fg_style(Color::Green)
    } else if state == "INSUFFICIENT_DATA"@ {
        style::fg_style(Color::Yellow)
    } else {
        style::fg_style(Color::DarkGray)
    }
}

/// The style of the tag that stands for an alarm state.
pub fn alarm_state_style(state: &str) -> (s: Style)
    ensures
        s == state_tag_style(state@),
{
    if text::text_eq(state, "ALARM") {
        Style::bold_fg(Color::Red)
    } else if text::text_eq(state, "OK") {
        Style::fg(Color::Green)
    } else if text::text_eq(state, "INSUFFICIENT_DATA") {
        Style::fg(Color::Yellow)
    } else {
        Style::fg(Color::DarkGray)
    }
}

} // verus!
