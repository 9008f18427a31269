//! Managed instances and what their status says.

use vstd::prelude::*;
use crate::alarm;
use crate::alarm::{AlarmInfo, AlarmInfoView, AlarmSummary};
use crate::clock;
use crate::model;
use crate::style;
use crate::style::{Color, Style};
use crate::text;

verus! {

/// An online instance whose last ping is older than this is stale.
pub const STALE_THRESHOLD_SECS: i64 = 300;

/// A managed instance.
pub struct Instance {
    pub id: String,
    pub name: String,
    pub status: String,
    pub platform: String,
    pub platform_version: String,
    pub ip_address: String,
    pub agent_version: String,
    pub last_ping_secs: Option<i64>,
    pub alarms: Vec<AlarmInfo>,
}

/// What is known of an instance.
#[verifier::ext_equal]
pub struct InstanceView {
    pub id: Seq<char>,
    pub name: Seq<char>,
    pub status: Seq<char>,
    pub platform: Seq<char>,
    pub platform_version: Seq<char>,
    pub ip_address: Seq<char>,
    pub agent_version: Seq<char>,
    pub last_ping_secs: Option<i64>,
    pub alarms: Seq<AlarmInfoView>,
}

impl View for Instance {
    type V = InstanceView;

    open spec fn view(&self) -> InstanceView {
        InstanceView {
            id: self.id@,
            name: self.name@,
            status: self.status@,
            platform: self.platform@,
            platform_version: self.platform_version@,
            ip_address: self.ip_address@,
            agent_version: self.agent_version@,
            last_ping_secs: self.last_ping_secs,
            alarms: model::views(self.alarms@),
        }
    }
}

impl InstanceView {
    /// The number of alarms in `state`.
    pub open spec fn count(self, state: Seq<char>) -> nat {
        alarm::count_state(self.alarms, state)
    }

    /// The number of alarms in one of the three states that are counted.
    pub open spec fn counted(self) -> nat {
        self.count("OK"@) + self.count("ALARM"@) + self.count("INSUFFICIENT_DATA"@)
    }

    /// How many alarms are in which state.
    pub open spec fn summary(self) -> AlarmSummary {
        AlarmSummary {
            ok: self.count("OK"@) as usize,
            alarm: self.count("ALARM"@) as usize,
            insufficient: self.count("INSUFFICIENT_DATA"@) as usize,
        }
    }

    /// Whether the instance calls itself online though its last ping lies more than the
    /// threshold before `now`.
    pub open spec fn stale_at(self, now: i64) -> bool {
        &&& self.status == "Online"@
        &&& self.last_ping_secs is Some
        &&& clock::secs_between(self.last_ping_secs->0, now) > STALE_THRESHOLD_SECS
    }

    /// How long before `now` the last ping was.
    pub open spec fn last_ping_text(self, now: i64) -> Seq<char> {
        match self.last_ping_secs {
            Some(s) => clock::relative_text(clock::secs_between(s, now)),
            None => "never"@,
        }
    }

    /// The status, with a mark where the instance is stale.
    pub open spec fn status_text(self, now: i64) -> Seq<char> {
        if self.stale_at(now) {
            self.status + " (stale)"@
        } else {
            self.status
        }
    }

    /// The style of the status.
    pub open spec fn status_style(self, now: i64) -> Style {
        if self.stale_at(now) {
            style::fg_style(Color::Yellow)
        } else if self.status == "Online"@ {
            style::fg_style(Color::Green)
        } else if self.status == "ConnectionLost"@ {
            style::fg_style(Color::Red)
        } else if self.status == "Inactive"@ {
            style::fg_style(Color::DarkGray)
        } else {
            style::fg_style(Color::Yellow)
        }
    }
}

impl Instance {
    /// Counts the alarms of each state.
    pub fn alarm_summary(&self) -> (summary: AlarmSummary)
        ensures
            alarm::counts(summary, self@.alarms),
            summary == self@.summary(),
            summary.sum() == self@.counted(),
            summary.sum() <= usize::MAX,
    {
        alarm::summarize(&self.alarms)
    }

    /// How long before `now` the last ping was.
    pub fn last_ping_str_at(&self, now: i64) -> (s: String)
        ensures
            s@ == self@.last_ping_text(now),
    {
        match self.last_ping_secs {
            Some(secs) => clock::format_relative_at(secs, now),
            None => "never".to_owned(),
        }
    }

    /// How long ago the last ping was, by the system clock.
    pub fn last_ping_str(&self) -> (s: String)
        ensures
            exists|now: i64| s@ == #[trigger] self@.last_ping_text(now),
            self.last_ping_secs is None ==> s@ == "never"@,
    {
        let now = clock::now_secs();
        let s = self.last_ping_str_at(now);
        assert(s@ == self@.last_ping_text(now));
        s
    }

    /// Whether the instance is stale at `now`.
    pub fn is_stale_at(&self, now: i64) -> (stale: bool)
        ensures
            stale == self@.stale_at(now),
    {
        if !text::text_eq(self.status.as_str(), "Online") {
            return false;
        }
        match self.last_ping_secs {
            Some(secs) => clock::secs_since(secs, now) > STALE_THRESHOLD_SECS,
            None => false,
        }
    }

    /// Whether the instance is stale, by the system clock.
    pub fn is_stale(&self) -> (stale: bool)
        ensures
            exists|now: i64| stale == #[trigger] self@.stale_at(now),
            self.status@ != "Online"@ ==> !stale,
            self.last_ping_secs is None ==> !stale,
    {
        let now = clock::now_secs();
        let stale = self.is_stale_at(now);
        assert(stale == self@.stale_at(now));
        stale
    }
}

/// The style of the status at `now`.
pub fn status_style_at(inst: &Instance, now: i64) -> (s: Style)
    ensures
        s == inst@.status_style(now),
{
    if inst.is_stale_at(now) {
        return Style::fg(Color::Yellow);
    }
    let status = inst.status.as_str();
    if text::text_eq(status, "Online") {
        Style::fg(Color::Green)
    } else if text::text_eq(status, "ConnectionLost") {
        Style::fg(Color::Red)
    } else if text::text_eq(status, "Inactive") {
        Style::fg(Color::DarkGray)
    } else {
        Style::fg(Color::Yellow)
    }
}

/// The style of the status, by the system clock.
pub fn status_style_for(inst: &Instance) -> (s: Style)
    ensures
        exists|now: i64| s == #[trigger] inst@.status_style(now),
{
    let now = clock::now_secs();
    let s = status_style_at(inst, now);
    assert(s == inst@.status_style(now));
    s
}

/// The status at `now`, with a mark where the instance is stale.
pub fn status_label_at(inst: &Instance, now: i64) -> (s: String)
    ensures
        s@ == inst@.status_text(now),
{
    if inst.is_stale_at(now) {
        text::concat2(inst.status.as_str(), " (stale)")
    } else {
        inst.status.clone()
    }
}

/// The status, with a mark where the instance is stale by the system clock.
pub fn status_label_for(inst: &Instance) -> (s: String)
    ensures
        exists|now: i64| s@ == #[trigger] inst@.status_text(now),
        inst.status@ != "Online"@ ==> s@ == inst.status@,
{
    let now = clock::now_secs();
    let s = status_label_at(inst, now);
    assert(s@ == inst@.status_text(now));
    s
}

/// The place of a status in a list that shows trouble first.
pub open spec fn status_rank(status: Seq<char>) -> int {
    if status == "ConnectionLost"@ {
        0
    } else if status == "Inactive"@ {
        1
    } else if status == "Online"@ {
        2
    } else {
        3
    }
}

/// The place of a status in a list that shows trouble first.
pub fn rank_of_status(status: &str) -> (rank: u8)
    ensures
        rank == status_rank(status@),
{
    if text::text_eq(status, "ConnectionLost") {
        0
    } else if text::text_eq(status, "Inactive") {
        1
    } else if text::text_eq(status, "Online") {
        2
    } else {
        3
    }
}

} // verus!
