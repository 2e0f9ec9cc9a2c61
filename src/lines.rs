use vstd::prelude::*;
use crate::probe::FAIL_LABEL;
use crate::pattern::{captured_groups, pattern_compiles, Pattern};
use crate::text::{decimal, decimal_string};

verus! {

/// A successful ping reply, with the reply's time of day and its round-trip time.
pub const PING_OK_SOURCE: &'static str = r"(?P<time>\d{2}:\d{2}:\d{2})\.\d+ \d+ bytes from \d+.\d+.\d+.\d+: icmp_seq=\d+ ttl=\d+ time=(?P<speed>.*)";

/// A ping timeout notice, with its time of day.
pub const REQUEST_TIMEOUT_SOURCE: &'static str = r"(?P<time>\d{2}:\d{2}:\d{2})\.\d+ Request timeout for icmp_seq \d+";

/// What a line of ping output says about the connection.
#[derive(PartialEq, Eq, Structural, Clone, Copy, Debug)]
pub enum Status {
    OK,
    Timeout,
    Unknown,
}

impl Status {
    /// How the status is shown.
    pub open spec fn label(self) -> Seq<char> {
        match self {
            Status::OK => "\x1b[32mOK\x1b[0m"@,
            Status::Timeout => "\x1b[31mERR\x1b[0m"@,
            Status::Unknown => "Unknown"@,
        }
    }

    /// Renders the status, coloured.
    pub fn text(&self) -> (r: String)
        ensures
            r@ == self.label(),
    {
        match self {
            Status::OK => String::from_str("\x1b[32mOK\x1b[0m"),
            Status::Timeout => String::from_str("\x1b[31mERR\x1b[0m"),
            Status::Unknown => String::from_str("Unknown"),
        }
    }
}

/// The status a line shows, the time since which it holds, and any extra detail.
pub struct Classification {
    pub status: Status,
    pub since: String,
    pub extra: String,
}

/// Group `i` of a match, or an empty text where there is none.
pub open spec fn group_at(groups: Seq<Seq<char>>, i: int) -> Seq<char> {
    if 0 <= i < groups.len() {
        groups[i]
    } else {
        Seq::empty()
    }
}

/// How a line is classified: the ping-reply pattern first, the timeout
/// pattern only where that one does not match, and `Unknown` since "now"
/// where neither does.
pub open spec fn classify_line(line: Seq<char>) -> (Status, Seq<char>, Seq<char>) {
    match captured_groups(PING_OK_SOURCE@, line) {
        Some(g) => (Status::OK, group_at(g, 1), group_at(g, 2)),
        None => match captured_groups(REQUEST_TIMEOUT_SOURCE@, line) {
            Some(g) => (Status::Timeout, group_at(g, 1), Seq::empty()),
            None => (Status::Unknown, "now"@, Seq::empty()),
        },
    }
}

/// Tracks the status shown by successive lines of ping output, and how many
/// lines in a row have shown it.
pub struct RunningStatus {
    pub ping_ok: Pattern,
    pub request_timeout: Pattern,
    pub status: Status,
    pub since: String,
    pub count: u64,
}

/// The text printed for one line: the line itself behind the failure marker
/// where it is not recognised, a blank line where the status changes, then
/// the status line, overwritten in place and cleared to its end.
pub open spec fn line_output(
    line: Seq<char>,
    unknown: bool,
    changed: bool,
    status: Status,
    count: nat,
    since: Seq<char>,
    extra: Seq<char>,
) -> Seq<char> {
    (if unknown { FAIL_LABEL@ + " "@ + line + "\n"@ } else { Seq::empty() })
        + (if changed { "\n"@ } else { Seq::empty() })
        + "\r"@ + status.label() + " x "@ + decimal(count) + " since "@ + since + " "@ + extra
        + "\x1b[K"@
}

impl RunningStatus {
    /// Both patterns are the ones the tracker was made with.
    pub open spec fn wf(&self) -> bool {
        &&& self.ping_ok.source() == PING_OK_SOURCE@
        &&& self.request_timeout.source() == REQUEST_TIMEOUT_SOURCE@
    }

    /// A tracker in status `Unknown` since "beginning", having seen no line;
    /// `None` where a pattern does not compile.
    pub fn new() -> (r: Option<RunningStatus>)
        ensures
            r.is_some() == (pattern_compiles(PING_OK_SOURCE@) && pattern_compiles(
                REQUEST_TIMEOUT_SOURCE@,
            )),
            r matches Some(t) ==> {
                &&& t.wf()
                &&& t.status == Status::Unknown
                &&& t.since@ == "beginning"@
                &&& t.count == 0
            },
    {
        let ping_ok = match Pattern::compile(PING_OK_SOURCE) {
            Some(p) => p,
            None => { return None; },
        };
        let request_timeout = match Pattern::compile(REQUEST_TIMEOUT_SOURCE) {
            Some(p) => p,
            None => { return None; },
        };
        Some(RunningStatus {
            ping_ok,
            request_timeout,
            status: Status::Unknown,
            since: String::from_str("beginning"),
            count: 0,
        })
    }

    /// Classifies a line; the timeout pattern is tried only where the
    /// ping-reply pattern does not match.
    pub fn classify(&self, line: &str) -> (r: Classification)
        requires
            self.wf(),
        ensures
            (r.status, r.since@, r.extra@) == classify_line(line@),
    {
        match self.ping_ok.captures(line) {
            Some(groups) => Classification {
                status: Status::OK,
                since: group_text(&groups, 1),
                extra: group_text(&groups, 2),
            },
            None => match self.request_timeout.captures(line) {
                Some(groups) => Classification {
                    status: Status::Timeout,
                    since: group_text(&groups, 1),
                    extra: String::new(),
                },
                None => Classification {
                    status: Status::Unknown,
                    since: String::from_str("now"),
                    extra: String::new(),
                },
            },
        }
    }

    /// Records one line: a change of status restarts the count and takes the
    /// line's "since"; the count then goes up by one. Returns the text to print.
    pub fn register_line(&mut self, line: String) -> (r: String)
        requires
            old(self).wf(),
            old(self).count < u64::MAX,
        ensures
            final(self).wf(),
            final(self).ping_ok == old(self).ping_ok,
            final(self).request_timeout == old(self).request_timeout,
            ({
                let (status, since, extra) = classify_line(line@);
                let changed = status != old(self).status;
                &&& final(self).status == status
                &&& final(self).since@ == if changed { since } else { old(self).since@ }
                &&& final(self).count == if changed { 1 } else { old(self).count + 1 }
                &&& r@ == line_output(
                    line@,
                    status == Status::Unknown,
                    changed,
                    status,
                    final(self).count as nat,
                    final(self).since@,
                    extra,
                )
            }),
    {
        let c = self.classify(line.as_str());
        let mut out = String::new();
        if c.status == Status::Unknown {
            out.append(FAIL_LABEL);
            out.append(" ");
            out.append(line.as_str());
            out.append("\n");
        }
        if c.status != self.status {
            self.status = c.status;
            self.since = c.since;
            self.count = 0;
            out.append("\n");
        }
        self.count = self.count + 1;
        out.append("\r");
        out.append(self.status.text().as_str());
        out.append(" x ");
        out.append(decimal_string(self.count).as_str());
        out.append(" since ");
        out.append(self.since.as_str());
        out.append(" ");
        out.append(c.extra.as_str());
        out.append("\x1b[K");
        assert(out@ =~= line_output(
            line@,
            c.status == Status::Unknown,
            c.status != old(self).status,
            c.status,
            self.count as nat,
            self.since@,
            c.extra@,
        ));
        out
    }
}

fn group_text(groups: &Vec<String>, i: usize) -> (r: String)
    ensures
        r@ == group_at(groups.deep_view(), i as int),
{
    if i < groups.len() {
        groups[i].clone()
    } else {
        String::new()
    }
}

/// The line printed once the input has ended.
pub fn summary_line(lines_processed: u64) -> (r: String)
    ensures
        r@ == "\nDone, processed "@ + decimal(lines_processed as nat) + " lines"@,
{
    let mut s = String::from_str("\nDone, processed ");
    s.append(decimal_string(lines_processed).as_str());
    s.append(" lines");
    s
}

} // verus!
