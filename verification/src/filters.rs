//! Modes, sort orders and filters, and the cycles in which keys step through them.

use vstd::prelude::*;

verus! {

/// What the keys act on.
#[derive(Clone, Copy, PartialEq, Eq, Structural, Debug)]
pub enum Mode {
    Normal,
    Filtering,
    Detail,
    Help,
    ProfilePicker,
}

/// The order of the listed instances.
#[derive(Clone, Copy, PartialEq, Eq, Structural, Debug)]
pub enum Sort {
    Default,
    Alarms,
    Status,
    Name,
}

impl Sort {
    /// The name of the order.
    pub open spec fn title(self) -> Seq<char> {
        match self {
            Sort::Default => "Default"@,
            Sort::Alarms => "Alarms"@,
            Sort::Status => "Status"@,
            Sort::Name => "Name"@,
        }
    }

    /// The order that follows in the cycle.
    pub open spec fn successor(self) -> Sort {
        match self {
            Sort::Default => Sort::Alarms,
            Sort::Alarms => Sort::Status,
            Sort::Status => Sort::Name,
            Sort::Name => Sort::Default,
        }
    }

    /// The name of the order.
    pub fn label(self) -> (s: &'static str)
        ensures
            s@ == self.title(),
    {
        match self {
            Sort::Default => "Default",
            Sort::Alarms => "Alarms",
            Sort::Status => "Status",
            Sort::Name => "Name",
        }
    }

    /// The order that follows in the cycle.
    pub fn next(self) -> (sort: Sort)
        ensures
            sort == self.successor(),
    {
        match self {
            Sort::Default => Sort::Alarms,
            Sort::Alarms => Sort::Status,
            Sort::Status => Sort::Name,
            Sort::Name => Sort::Default,
        }
    }
}

/// Which instances are listed, by their alarms.
#[derive(Clone, Copy, PartialEq, Eq, Structural, Debug)]
pub enum AlarmFilter {
    All,
    Alarming,
    AnyAlarm,
}

impl AlarmFilter {
    /// The name of the filter.
    pub open spec fn title(self) -> Seq<char> {
        match self {
            AlarmFilter::All => "All"@,
            AlarmFilter::Alarming => "Alarming"@,
            AlarmFilter::AnyAlarm => "Has alarms"@,
        }
    }

    /// The filter that follows in the cycle.
    pub open spec fn successor(self) -> AlarmFilter {
        match self {
            AlarmFilter::All => AlarmFilter::Alarming,
            AlarmFilter::Alarming => AlarmFilter::AnyAlarm,
            AlarmFilter::AnyAlarm => AlarmFilter::All,
        }
    }

    /// The name of the filter.
    pub fn label(self) -> (s: &'static str)
        ensures
            s@ == self.title(),
    {
        match self {
            AlarmFilter::All => "All",
            AlarmFilter::Alarming => "Alarming",
            AlarmFilter::AnyAlarm => "Has alarms",
        }
    }

    /// The filter that follows in the cycle.
    pub fn next(self) -> (filter: AlarmFilter)
        ensures
            filter == self.successor(),
    {
        match self {
            AlarmFilter::All => AlarmFilter::Alarming,
            AlarmFilter::Alarming => AlarmFilter::AnyAlarm,
            AlarmFilter::AnyAlarm => AlarmFilter::All,
        }
    }
}

/// The number of steps in the cycle of status filters.
pub const STATUS_STEPS: usize = 4;

/// The status that step `idx` of the cycle of status filters lets through; `None` lets
/// every status through.
pub open spec fn status_step(idx: int) -> Option<Seq<char>> {
    if idx == 0 {
        None
    } else if idx == 1 {
        Some("Online"@)
    } else if idx == 2 {
        Some("ConnectionLost"@)
    } else {
        Some("Inactive"@)
    }
}

/// The status that step `idx` of the cycle of status filters lets through.
pub fn status_at(idx: usize) -> (status: Option<&'static str>)
    requires
        idx < STATUS_STEPS,
    ensures
        status is None <==> status_step(idx as int) is None,
        status matches Some(s) ==> status_step(idx as int) == Some(s@),
{
    if idx == 0 {
        None
    } else if idx == 1 {
        Some("Online")
    } else if idx == 2 {
        Some("ConnectionLost")
    } else {
        Some("Inactive")
    }
}

} // verus!
