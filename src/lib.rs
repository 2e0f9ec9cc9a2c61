//! A small network-reachability monitor: status tracking and rendering for
//! probe ticks and for classified lines of ping output.

mod duration;
mod lines;
mod pattern;
mod probe;
mod text;

pub use duration::{duration_text_shape, format_duration, MAX_DURATION_SECONDS};
pub use lines::{
    summary_line, Classification, RunningStatus, Status, PING_OK_SOURCE,
    REQUEST_TIMEOUT_SOURCE,
};
pub use pattern::Pattern;
pub use text::{decimal_string, two_digit_string};
pub use probe::{
    after_ticks, announces, elapsed_resets_or_advances, fresh_monitor, next_monitor,
    repeated_outcome_is_quiet, run_announces_exactly_on_change, shown_elapsed, ProbeMonitor, TickOutput, FAIL_LABEL,
    OK_LABEL,
};
