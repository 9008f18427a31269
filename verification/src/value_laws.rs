//! What holds of times, alarms, statuses, filters, styles and areas.

use vstd::prelude::*;
use crate::alarm;
use crate::alarm::{AlarmInfoView, AlarmSummary};
use crate::clock;
use crate::filters;
use crate::filters::{AlarmFilter, Sort};
use crate::instance;
use crate::instance::InstanceView;
use crate::layout;
use crate::layout::Rect;
use crate::picker_screen;
use crate::style;
use crate::style::{Color, Style};
use crate::text;

verus! {

/// A time that has passed is told as a number of the largest unit that fits into it once,
/// and as many as fit: seconds, minutes of 60, hours of 3600 or days of 86400 seconds.
pub proof fn law_relative_time(diff: int, n: nat)
    ensures
        diff < 0 ==> clock::relative_text(diff) == "in the future"@,
        0 <= diff < 60 && n == diff ==> clock::relative_text(diff) == text::decimal(n)
            + "s ago"@,
        60 <= diff < 3600 && n * 60 <= diff < (n + 1) * 60 ==> clock::relative_text(diff)
            == text::decimal(n) + "m ago"@,
        3600 <= diff < 86400 && n * 3600 <= diff < (n + 1) * 3600 ==> clock::relative_text(diff)
            == text::decimal(n) + "h ago"@,
        86400 <= diff && n * 86400 <= diff < (n + 1) * 86400 ==> clock::relative_text(diff)
            == text::decimal(n) + "d ago"@,
{
}

/// The time since a refresh is told in the same way, with hours as the largest unit.
pub proof fn law_elapsed_time(secs: nat, n: nat)
    ensures
        secs < 60 && n == secs ==> clock::elapsed_text(secs) == text::decimal(n) + "s ago"@,
        60 <= secs < 3600 && n * 60 <= secs < (n + 1) * 60 ==> clock::elapsed_text(secs)
            == text::decimal(n) + "m ago"@,
        3600 <= secs && n * 3600 <= secs < (n + 1) * 3600 ==> clock::elapsed_text(secs)
            == text::decimal(n) + "h ago"@,
{
}

/// Two readings of the monotonic clock lie as many seconds apart as are complete.
pub proof fn law_elapsed_secs(then: u64, clock: u64, n: nat)
    ensures
        then <= clock && n * 1_000_000_000 <= clock - then < (n + 1) * 1_000_000_000
            ==> clock::elapsed_secs(then, clock) == n,
        clock <= then ==> clock::elapsed_secs(then, clock) == 0,
{
}

/// The time between two points is their difference, or wraps around to a 64-bit number.
pub proof fn law_secs_between(then: i64, now: i64)
    ensures
        i64::MIN <= clock::secs_between(then, now) <= i64::MAX,
        (clock::secs_between(then, now) - (now - then)) % 0x1_0000_0000_0000_0000 == 0,
        i64::MIN <= now - then <= i64::MAX ==> clock::secs_between(then, now) == now - then,
{
}

/// Alarms are counted one by one, each under its own state.
pub proof fn law_alarm_count(alarms: Seq<AlarmInfoView>, a: AlarmInfoView, state: Seq<char>)
    ensures
        alarm::count_state(Seq::<AlarmInfoView>::empty(), state) == 0,
        a.state == state ==> alarm::count_state(alarms.push(a), state) == alarm::count_state(
            alarms,
            state,
        ) + 1,
        a.state != state ==> alarm::count_state(alarms.push(a), state) == alarm::count_state(
            alarms,
            state,
        ),
{
    reveal(Seq::filter);
    assert(alarms.push(a).drop_last() =~= alarms);
}

/// Alarms in a state are counted if there are any.
pub proof fn law_alarm_count_positive(alarms: Seq<AlarmInfoView>, state: Seq<char>)
    ensures
        alarm::count_state(alarms, state) > 0 <==> exists|k: int|
            0 <= k < alarms.len() && (#[trigger] alarms[k]).state == state,
        alarm::count_state(alarms, state) <= alarms.len(),
    decreases alarms.len(),
{
    if alarms.len() == 0 {
        law_alarm_count(alarms, AlarmInfoView { name: state, state, reason: None }, state);
        assert(alarms =~= Seq::<AlarmInfoView>::empty());
    } else {
        let head = alarms.drop_last();
        law_alarm_count_positive(head, state);
        law_alarm_count(head, alarms.last(), state);
        assert(head.push(alarms.last()) =~= alarms);
        if alarms.last().state == state {
            assert(alarms[alarms.len() - 1].state == state);
        }
        if exists|k: int| 0 <= k < head.len() && (#[trigger] head[k]).state == state {
            let k = choose|k: int| 0 <= k < head.len() && (#[trigger] head[k]).state == state;
            assert(alarms[k].state == state);
        }
        if exists|k: int| 0 <= k < alarms.len() && (#[trigger] alarms[k]).state == state {
            let k = choose|k: int|
                0 <= k < alarms.len() && (#[trigger] alarms[k]).state == state;
            if k < head.len() {
                assert(head[k].state == state);
            }
        }
    }
}

/// The summary of an instance counts its alarms under the three states.
pub proof fn law_alarm_summary(i: InstanceView, summary: AlarmSummary)
    requires
        i.alarms.len() <= usize::MAX,
    ensures
        i.summary().ok == alarm::count_state(i.alarms, "OK"@),
        i.summary().alarm == alarm::count_state(i.alarms, "ALARM"@),
        i.summary().insufficient == alarm::count_state(i.alarms, "INSUFFICIENT_DATA"@),
        alarm::counts(summary, i.alarms) ==> summary == i.summary(),
        i.count("OK"@) == alarm::count_state(i.alarms, "OK"@),
        i.count("ALARM"@) == alarm::count_state(i.alarms, "ALARM"@),
        i.count("INSUFFICIENT_DATA"@) == alarm::count_state(i.alarms, "INSUFFICIENT_DATA"@),
        i.counted() == alarm::count_state(i.alarms, "OK"@) + alarm::count_state(
            i.alarms,
            "ALARM"@,
        ) + alarm::count_state(i.alarms, "INSUFFICIENT_DATA"@),
        summary.sum() == summary.ok + summary.alarm + summary.insufficient,
{
    law_alarm_count_positive(i.alarms, "OK"@);
    law_alarm_count_positive(i.alarms, "ALARM"@);
    law_alarm_count_positive(i.alarms, "INSUFFICIENT_DATA"@);
}

/// The alarm cell names the most urgent state that occurs with its count: one alarm that
/// rings is enough to be shown, whatever the other counts are.
pub proof fn law_alarm_label(s: AlarmSummary)
    ensures
        s.alarm > 0 ==> s.label_text() == "ALARM("@ + text::decimal(s.alarm as nat) + ")"@,
        s.alarm == 0 && s.insufficient > 0 ==> s.label_text() == "INSUF("@ + text::decimal(
            s.insufficient as nat,
        ) + ")"@,
        s.alarm == 0 && s.insufficient == 0 && s.ok > 0 ==> s.label_text() == "OK("@
            + text::decimal(s.ok as nat) + ")"@,
        s.label_text() == "-"@ <==> s.ok == 0 && s.alarm == 0 && s.insufficient == 0,
        s.alarm > 0 ==> s.label_style() == (Style { fg: Some(Color::Red), bg: None, bold: true }),
        s.alarm == 0 && s.insufficient > 0 ==> s.label_style() == (Style {
            fg: Some(Color::Yellow),
            bg: None,
            bold: false,
        }),
        s.alarm == 0 && s.insufficient == 0 && s.ok > 0 ==> s.label_style() == (Style {
            fg: Some(Color::Green),
            bg: None,
            bold: false,
        }),
        s.ok == 0 && s.alarm == 0 && s.insufficient == 0 ==> s.label_style() == (Style {
            fg: Some(Color::DarkGray),
            bg: None,
            bold: false,
        }),
{
    reveal_strlit("-");
    reveal_strlit("ALARM(");
    reveal_strlit("INSUF(");
    reveal_strlit("OK(");
    reveal_strlit(")");
    assert("-"@.len() == 1);
    if s.ok > 0 || s.alarm > 0 || s.insufficient > 0 {
        assert(s.label_text().len() > 1);
    }
}

proof fn lemma_states_differ()
    ensures
        "ALARM"@ != "OK"@,
        "ALARM"@ != "INSUFFICIENT_DATA"@,
        "OK"@ != "INSUFFICIENT_DATA"@,
{
    reveal_strlit("OK");
    reveal_strlit("ALARM");
    reveal_strlit("INSUFFICIENT_DATA");
    assert("ALARM"@.len() != "OK"@.len());
    assert("ALARM"@.len() != "INSUFFICIENT_DATA"@.len());
    assert("OK"@.len() != "INSUFFICIENT_DATA"@.len());
}

/// Alarms that ring come before those without data, these before those that are well, and
/// alarms in any other state come last; each state has its tag and its colour.
pub proof fn law_alarm_states(other: Seq<char>, another: Seq<char>)
    requires
        other != "ALARM"@ && other != "INSUFFICIENT_DATA"@ && other != "OK"@,
        another != "ALARM"@ && another != "INSUFFICIENT_DATA"@ && another != "OK"@,
    ensures
        alarm::state_rank("ALARM"@) < alarm::state_rank("INSUFFICIENT_DATA"@)
            < alarm::state_rank("OK"@) < alarm::state_rank(other),
        alarm::state_rank(other) == alarm::state_rank(another),
        alarm::state_tag("OK"@) == "[OK]   "@,
        alarm::state_tag("ALARM"@) == "[ALARM]"@,
        alarm::state_tag("INSUFFICIENT_DATA"@) == "[INSUF]"@,
        alarm::state_tag(other) == "[?]    "@,
        alarm::state_tag_style("OK"@) == (Style {
            fg: Some(Color::Green),
            bg: None,
            bold: false,
        }),
        alarm::state_tag_style("ALARM"@) == (Style {
            fg: Some(Color::Red),
            bg: None,
            bold: true,
        }),
        alarm::state_tag_style("INSUFFICIENT_DATA"@) == (Style {
            fg: Some(Color::Yellow),
            bg: None,
            bold: false,
        }),
        alarm::state_tag_style(other) == (Style {
            fg: Some(Color::DarkGray),
            bg: None,
            bold: false,
        }),
{
    lemma_states_differ();
}

proof fn lemma_statuses_differ()
    ensures
        "Online"@ != "ConnectionLost"@,
        "Online"@ != "Inactive"@,
        "ConnectionLost"@ != "Inactive"@,
{
    reveal_strlit("Online");
    reveal_strlit("ConnectionLost");
    reveal_strlit("Inactive");
    assert("Online"@.len() != "ConnectionLost"@.len());
    assert("Online"@.len() != "Inactive"@.len());
    assert("ConnectionLost"@.len() != "Inactive"@.len());
}

/// Lost connections come before inactive instances, these before online ones, and every
/// other status comes last.
pub proof fn law_status_ranks(other: Seq<char>, another: Seq<char>)
    requires
        other != "Online"@ && other != "ConnectionLost"@ && other != "Inactive"@,
        another != "Online"@ && another != "ConnectionLost"@ && another != "Inactive"@,
    ensures
        instance::status_rank("ConnectionLost"@) < instance::status_rank("Inactive"@)
            < instance::status_rank("Online"@) < instance::status_rank(other),
        instance::status_rank(other) == instance::status_rank(another),
{
    lemma_statuses_differ();
}

/// A status has its colour: green for online, red for a lost connection, gray for
/// inactive, and yellow for anything else and for what is stale. Only what is online can
/// be stale, and only with a last ping of more than five minutes ago.
pub proof fn law_status_colours(i: InstanceView, now: i64)
    ensures
        i.status == "Online"@ && i.last_ping_secs is Some && clock::secs_between(
            i.last_ping_secs->0,
            now,
        ) > 300 ==> i.stale_at(now),
        i.stale_at(now) ==> i.status == "Online"@ && i.last_ping_secs is Some
            && clock::secs_between(i.last_ping_secs->0, now) > 300,
        i.stale_at(now) ==> i.status_text(now) == i.status + " (stale)"@,
        !i.stale_at(now) ==> i.status_text(now) == i.status,
        i.stale_at(now) ==> i.status_style(now) == (Style {
            fg: Some(Color::Yellow),
            bg: None,
            bold: false,
        }),
        !i.stale_at(now) && i.status == "Online"@ ==> i.status_style(now) == (Style {
            fg: Some(Color::Green),
            bg: None,
            bold: false,
        }),
        i.status == "ConnectionLost"@ ==> i.status_style(now) == (Style {
            fg: Some(Color::Red),
            bg: None,
            bold: false,
        }),
        i.status == "Inactive"@ ==> i.status_style(now) == (Style {
            fg: Some(Color::DarkGray),
            bg: None,
            bold: false,
        }),
        i.status != "Online"@ && i.status != "ConnectionLost"@ && i.status != "Inactive"@
            ==> i.status_style(now) == (Style { fg: Some(Color::Yellow), bg: None, bold: false }),
{
    lemma_statuses_differ();
}

/// The last ping is told by the time since it, and as never where there was none.
pub proof fn law_last_ping(i: InstanceView, now: i64)
    ensures
        i.last_ping_secs is None ==> i.last_ping_text(now) == "never"@,
        i.last_ping_secs matches Some(then) ==> i.last_ping_text(now) == clock::relative_text(
            clock::secs_between(then, now),
        ),
{
}

/// The cycles of sort orders and of alarm filters, step by step, with their names.
pub proof fn law_cycle_steps()
    ensures
        Sort::Default.successor() == Sort::Alarms,
        Sort::Alarms.successor() == Sort::Status,
        Sort::Status.successor() == Sort::Name,
        Sort::Name.successor() == Sort::Default,
        Sort::Default.title() == "Default"@,
        Sort::Alarms.title() == "Alarms"@,
        Sort::Status.title() == "Status"@,
        Sort::Name.title() == "Name"@,
        AlarmFilter::All.successor() == AlarmFilter::Alarming,
        AlarmFilter::Alarming.successor() == AlarmFilter::AnyAlarm,
        AlarmFilter::AnyAlarm.successor() == AlarmFilter::All,
        AlarmFilter::All.title() == "All"@,
        AlarmFilter::Alarming.title() == "Alarming"@,
        AlarmFilter::AnyAlarm.title() == "Has alarms"@,
        filters::status_step(0) is None,
        filters::status_step(1) == Some("Online"@),
        filters::status_step(2) == Some("ConnectionLost"@),
        filters::status_step(3) == Some("Inactive"@),
        filters::STATUS_STEPS == 4,
{
}

/// What the styles are made of.
pub proof fn law_styles(color: Color, t: Seq<char>, s: Style)
    ensures
        style::plain_style() == (Style { fg: None, bg: None, bold: false }),
        style::fg_style(color) == (Style { fg: Some(color), bg: None, bold: false }),
        style::bold_fg_style(color) == (Style { fg: Some(color), bg: None, bold: true }),
        style::bold_style() == (Style { fg: None, bg: None, bold: true }),
        style::run(t, s).text == t,
        style::run(t, s).style == s,
{
}

/// A box in the middle of an area has the size that is asked for as far as it fits, and
/// as much room before it as behind it, with at most one cell more behind it. Coordinates
/// wrap around.
pub proof fn law_centered(width: u16, height: u16, area: Rect, dx: nat, dy: nat)
    ensures
        ({
            let r = layout::centered(width, height, area);
            &&& width <= area.width ==> r.width == width
            &&& width > area.width ==> r.width == area.width
            &&& height <= area.height ==> r.height == height
            &&& height > area.height ==> r.height == area.height
            &&& 2 * dx <= area.width - r.width <= 2 * dx + 1 ==> r.x == (area.x + dx) % 0x1_0000
            &&& 2 * dy <= area.height - r.height <= 2 * dy + 1 ==> r.y == (area.y + dy)
                % 0x1_0000
        }),
{
}

/// A margin is taken off all four sides where it fits; otherwise nothing is left.
pub proof fn law_margin(area: Rect, h: u16, v: u16)
    ensures
        ({
            let r = layout::inside(area, h, v);
            &&& 2 * h <= area.width && 2 * v <= area.height ==> {
                &&& r.width + 2 * h == area.width
                &&& r.height + 2 * v == area.height
                &&& area.x + h <= u16::MAX ==> r.x == area.x + h
                &&& area.x + h > u16::MAX ==> r.x == u16::MAX
                &&& area.y + v <= u16::MAX ==> r.y == area.y + v
                &&& area.y + v > u16::MAX ==> r.y == u16::MAX
            }
            &&& h <= 0x7fff && v <= 0x7fff && (2 * h > area.width || 2 * v > area.height) ==> {
                &&& r.x == 0 && r.y == 0
                &&& r.width == 0 && r.height == 0
            }
        }),
{
}

/// The profile picker has four lines more than there are profiles, but at most twenty.
pub proof fn law_picker_height(n: nat)
    ensures
        n < 16 ==> picker_screen::picker_height(n) == n + 4,
        16 <= n < 0x1_0000 ==> picker_screen::picker_height(n) == 20,
        picker_screen::picker_height(n + 0x1_0000) == picker_screen::picker_height(n),
{
}

} // verus!
