use vstd::prelude::*;
use crate::duration::{duration_text, format_duration, MAX_DURATION_SECONDS};

verus! {

/// How a successful probe is shown.
pub const OK_LABEL: &'static str = "\x1b[32mOK\x1b[0m";

/// How a failed probe is shown.
pub const FAIL_LABEL: &'static str = "\x1b[31mFAIL\x1b[0m";

/// The label of a probe outcome.
pub open spec fn reach_label(reachable: bool) -> Seq<char> {
    if reachable { OK_LABEL@ } else { FAIL_LABEL@ }
}

/// Tracks successive probe outcomes and the seconds spent in the current one.
pub struct ProbeMonitor {
    /// The previous outcome; `None` before the first tick.
    pub last: Option<bool>,
    /// The elapsed time to show at the next tick with an unchanged outcome.
    pub seconds_elapsed: i64,
}

/// What one tick prints.
pub struct TickOutput {
    /// The announcement of a change of outcome, on a line of its own.
    pub announcement: Option<String>,
    /// The status line, overwritten in place.
    pub live_line: String,
    /// The elapsed seconds shown on the status line.
    pub shown_elapsed: i64,
}

/// Whether a tick with this outcome announces a change.
pub open spec fn announces(m: ProbeMonitor, reachable: bool) -> bool {
    m.last != Some(reachable)
}

/// The elapsed seconds shown at a tick with this outcome.
pub open spec fn shown_elapsed(m: ProbeMonitor, reachable: bool) -> int {
    if announces(m, reachable) { 0 } else { m.seconds_elapsed as int }
}

/// The monitor after a tick with this outcome and the second that follows it.
pub open spec fn next_monitor(m: ProbeMonitor, reachable: bool) -> ProbeMonitor {
    ProbeMonitor {
        last: Some(reachable),
        seconds_elapsed: (shown_elapsed(m, reachable) + 1) as i64,
    }
}

/// Relies on chrono's `Local::now` and its `format`: the local time of day as
/// `HH:MM:SS`. It depends on the clock, so nothing is stated of it.
#[verifier::external_body]
fn now() -> (r: String) {
    chrono::Local::now().format("%H:%M:%S").to_string()
}

impl ProbeMonitor {
    /// The elapsed time is within what can be rendered.
    pub open spec fn wf(&self) -> bool {
        0 <= self.seconds_elapsed <= MAX_DURATION_SECONDS
    }

    /// A monitor before its first tick.
    pub fn new() -> (r: ProbeMonitor)
        ensures
            r == fresh_monitor(),
            r.wf(),
    {
        ProbeMonitor { last: None, seconds_elapsed: 0 }
    }

    /// One tick at the time of day `stamp`: a change of outcome is announced and
    /// restarts the elapsed time; the status line shows the elapsed time, which
    /// then goes up by the second that passes before the next tick.
    pub fn tick_at(&mut self, reachable: bool, stamp: &str) -> (r: TickOutput)
        requires
            0 <= old(self).seconds_elapsed < MAX_DURATION_SECONDS,
        ensures
            *final(self) == next_monitor(*old(self), reachable),
            final(self).wf(),
            r.announcement.is_some() == announces(*old(self), reachable),
            r.announcement matches Some(a) ==> a@ == "\n"@ + stamp@ + " "@ + reach_label(reachable)
                + "\n"@,
            r.shown_elapsed == shown_elapsed(*old(self), reachable),
            r.live_line@ == "\r"@ + stamp@ + " "@ + reach_label(reachable) + " "@ + duration_text(
                r.shown_elapsed as nat,
            ),
    {
        let label = if reachable { OK_LABEL } else { FAIL_LABEL };
        let changed = match self.last {
            Some(prev) => prev != reachable,
            None => true,
        };
        let announcement = if changed {
            self.last = Some(reachable);
            self.seconds_elapsed = 0;
            let mut a = String::from_str("\n");
            a.append(stamp);
            a.append(" ");
            a.append(label);
            a.append("\n");
            Some(a)
        } else {
            None
        };
        let shown = self.seconds_elapsed;
        let mut live = String::from_str("\r");
        live.append(stamp);
        live.append(" ");
        live.append(label);
        live.append(" ");
        live.append(format_duration(shown).as_str());
        self.seconds_elapsed = shown + 1;
        TickOutput { announcement, live_line: live, shown_elapsed: shown }
    }

    /// One tick at the current time of day.
    pub fn tick(&mut self, reachable: bool) -> (r: TickOutput)
        requires
            0 <= old(self).seconds_elapsed < MAX_DURATION_SECONDS,
        ensures
            *final(self) == next_monitor(*old(self), reachable),
            final(self).wf(),
            r.announcement.is_some() == announces(*old(self), reachable),
            r.shown_elapsed == shown_elapsed(*old(self), reachable),
    {
        let stamp = now();
        self.tick_at(reachable, stamp.as_str())
    }
}

/// A monitor before its first tick.
pub open spec fn fresh_monitor() -> ProbeMonitor {
    ProbeMonitor { last: None, seconds_elapsed: 0 }
}

/// The monitor after a tick for each outcome in turn.
pub open spec fn after_ticks(m: ProbeMonitor, outcomes: Seq<bool>) -> ProbeMonitor
    decreases outcomes.len(),
{
    if outcomes.len() == 0 {
        m
    } else {
        next_monitor(after_ticks(m, outcomes.drop_last()), outcomes.last())
    }
}

proof fn after_ticks_bounded(outcomes: Seq<bool>)
    requires
        outcomes.len() <= MAX_DURATION_SECONDS,
    ensures
        0 <= after_ticks(fresh_monitor(), outcomes).seconds_elapsed <= outcomes.len(),
        outcomes.len() > 0 ==> after_ticks(fresh_monitor(), outcomes).last == Some(outcomes.last()),
    decreases outcomes.len(),
{
    if outcomes.len() > 0 {
        after_ticks_bounded(outcomes.drop_last());
    }
}

/// Over any run of outcomes from a fresh monitor, tick `i` announces a change
/// exactly when its outcome differs from that of the tick before (the first
/// tick always announces), and the elapsed time it shows is 0 on such a tick
/// and otherwise one more than at the tick before.
pub proof fn run_announces_exactly_on_change(outcomes: Seq<bool>, i: int)
    requires
        0 <= i < outcomes.len(),
        outcomes.len() <= MAX_DURATION_SECONDS,
    ensures
        announces(after_ticks(fresh_monitor(), outcomes.take(i)), outcomes[i]) == (i == 0
            || outcomes[i] != outcomes[i - 1]),
        shown_elapsed(after_ticks(fresh_monitor(), outcomes.take(i)), outcomes[i]) == if i == 0
            || outcomes[i] != outcomes[i - 1] {
            0
        } else {
            shown_elapsed(after_ticks(fresh_monitor(), outcomes.take(i - 1)), outcomes[i - 1]) + 1
        },
{
    if i > 0 {
        let prefix = outcomes.take(i);
        assert(prefix.drop_last() =~= outcomes.take(i - 1));
        after_ticks_bounded(prefix);
        after_ticks_bounded(outcomes.take(i - 1));
    }
}

/// Across two ticks, the elapsed time shown at the second is 0 exactly where
/// it announces a change, and otherwise one more than at the first.
pub proof fn elapsed_resets_or_advances(m: ProbeMonitor, first: bool, second: bool)
    requires
        m.wf(),
    ensures
        shown_elapsed(next_monitor(m, first), second) == if announces(next_monitor(m, first), second) {
            0
        } else {
            shown_elapsed(m, first) + 1
        },
        announces(next_monitor(m, first), second) == (first != second),
{
}

/// Feeding the same outcome again announces nothing and does not restart the
/// elapsed time.
pub proof fn repeated_outcome_is_quiet(m: ProbeMonitor, reachable: bool)
    requires
        m.wf(),
    ensures
        !announces(next_monitor(m, reachable), reachable),
        shown_elapsed(next_monitor(m, reachable), reachable) == shown_elapsed(m, reachable) + 1,
{
}

} // verus!
