//! CPU time statistics as the kernel reports them in `/proc/stat`, and the
//! load they imply. Reading the file is left to the caller.

use vstd::prelude::*;
use vstd::string::*;
use std::time::{Duration, Instant};
use crate::text::{parse_unsigned, unsigned_value, within};
use crate::watchdog::instant_now;

verus! {

/// Smallest sample interval in milliseconds.
pub const MIN_SAMPLE_INTERVAL_MS: u64 = 10;

/// Largest sample interval in milliseconds.
pub const MAX_SAMPLE_INTERVAL_MS: u64 = 5000;

/// Full load in hundredths of a percent.
pub const FULL_LOAD_CENTI: u32 = 10_000;

/// CPU time counters of one core, or of all cores together.
#[derive(Debug, Clone, Copy, PartialEq, Eq, Structural)]
pub struct CoreStats {
    pub user: u64,
    pub nice: u64,
    pub system: u64,
    pub idle: u64,
    pub iowait: u64,
    pub irq: u64,
    pub softirq: u64,
    pub steal: u64,
}

pub open spec fn active_of(s: CoreStats) -> int {
    s.user + s.nice + s.system + s.irq + s.softirq + s.steal
}

pub open spec fn idle_of(s: CoreStats) -> int {
    s.idle + s.iowait
}

pub open spec fn total_of(s: CoreStats) -> int {
    active_of(s) + idle_of(s)
}

impl CoreStats {
    /// All counters together; they must fit in a `u64`.
    pub fn total(&self) -> (r: u64)
        requires
            total_of(*self) <= u64::MAX,
        ensures
            r == total_of(*self),
    {
        self.user + self.nice + self.system + self.idle + self.iowait + self.irq + self.softirq + self.steal
    }

    /// Time not idle; it must fit in a `u64`.
    pub fn active(&self) -> (r: u64)
        requires
            active_of(*self) <= u64::MAX,
        ensures
            r == active_of(*self),
    {
        self.user + self.nice + self.system + self.irq + self.softirq + self.steal
    }

    /// Idle time, waiting for I/O included; it must fit in a `u64`.
    pub fn idle_time(&self) -> (r: u64)
        requires
            idle_of(*self) <= u64::MAX,
        ensures
            r == idle_of(*self),
    {
        self.idle + self.iowait
    }
}

/// Counters of all cores together and of each core, read at one time.
#[derive(Debug, Clone)]
pub struct CpuStats {
    pub total: CoreStats,
    pub per_core: Vec<CoreStats>,
    pub timestamp: Instant,
}

/// Errors of the load monitor.
#[derive(Debug)]
pub enum LoadMonitorError {
    IoError(std::io::Error),
    ParseError(String),
    NoPreviousSample,
    InvalidSampleInterval(String),
}

impl LoadMonitorError {
    /// A human-readable description of the error.
    pub fn message(&self) -> (r: String)
        ensures
            self matches LoadMonitorError::ParseError(s) ==> r@ == "Parse error: "@ + s@,
            self matches LoadMonitorError::NoPreviousSample ==> r@ == "No previous sample available"@,
            self matches LoadMonitorError::InvalidSampleInterval(s) ==> r@ == "Invalid sample interval: "@ + s@,
    {
        match self {
            LoadMonitorError::IoError(e) => {
                let t = crate::hwmon::io_error_text(e);
                crate::text::join("I/O error: ", t.as_str())
            },
            LoadMonitorError::ParseError(s) => crate::text::join("Parse error: ", s.as_str()),
            LoadMonitorError::NoPreviousSample => String::from_str("No previous sample available"),
            LoadMonitorError::InvalidSampleInterval(s) => crate::text::join("Invalid sample interval: ", s.as_str()),
        }
    }
}

/// Accepts a sample interval within 10 to 5000 milliseconds.
pub fn validate_sample_interval_ms(interval_ms: u64) -> (r: Result<u64, LoadMonitorError>)
    ensures
        r.is_ok() <==> MIN_SAMPLE_INTERVAL_MS <= interval_ms <= MAX_SAMPLE_INTERVAL_MS,
        r matches Ok(v) ==> v == interval_ms,
        r matches Err(e) ==> e is InvalidSampleInterval,
{
    if interval_ms < MIN_SAMPLE_INTERVAL_MS {
        return Err(LoadMonitorError::InvalidSampleInterval(String::from_str("interval is too small (minimum: 10 ms)")));
    }
    if interval_ms > MAX_SAMPLE_INTERVAL_MS {
        return Err(LoadMonitorError::InvalidSampleInterval(String::from_str("interval is too large (maximum: 5000 ms)")));
    }
    Ok(interval_ms)
}

/// Relies on `Duration::from_millis`: a span of the given milliseconds.
#[verifier::external_body]
fn duration_from_millis(ms: u64) -> (r: Duration) {
    Duration::from_millis(ms)
}

/// Settings and last snapshot of the load monitor.
pub struct LoadMonitor {
    prev_stats: Option<CpuStats>,
    sample_interval_ms: u64,
    start_time: Instant,
    proc_stat_path: String,
}

impl LoadMonitor {
    pub closed spec fn interval_ms(&self) -> u64 {
        self.sample_interval_ms
    }

    pub closed spec fn path(&self) -> Seq<char> {
        self.proc_stat_path@
    }

    /// A monitor of `/proc/stat` sampling every `sample_interval_ms`
    /// milliseconds (10 to 5000).
    pub fn new(sample_interval_ms: u64) -> (r: Result<Self, LoadMonitorError>)
        ensures
            r.is_ok() <==> MIN_SAMPLE_INTERVAL_MS <= sample_interval_ms <= MAX_SAMPLE_INTERVAL_MS,
            r matches Ok(m) ==> m.interval_ms() == sample_interval_ms && m.path() == "/proc/stat"@,
    {
        Self::with_path(sample_interval_ms, String::from_str("/proc/stat"))
    }

    /// A monitor of the given statistics file.
    pub fn with_path(sample_interval_ms: u64, proc_stat_path: String) -> (r: Result<Self, LoadMonitorError>)
        ensures
            r.is_ok() <==> MIN_SAMPLE_INTERVAL_MS <= sample_interval_ms <= MAX_SAMPLE_INTERVAL_MS,
            r matches Ok(m) ==> m.interval_ms() == sample_interval_ms && m.path() == proc_stat_path@,
            r matches Err(e) ==> e is InvalidSampleInterval,
    {
        match validate_sample_interval_ms(sample_interval_ms) {
            Ok(_) => Ok(LoadMonitor { prev_stats: None, sample_interval_ms, start_time: instant_now(), proc_stat_path }),
            Err(e) => Err(e),
        }
    }

    /// The sample interval.
    pub fn sample_interval(&self) -> Duration {
        duration_from_millis(self.sample_interval_ms)
    }

    /// The sample interval in milliseconds.
    pub fn sample_interval_ms(&self) -> (r: u64)
        ensures
            r == self.interval_ms(),
    {
        self.sample_interval_ms
    }

    /// Path of the statistics file.
    pub fn proc_stat_path(&self) -> (r: &str)
        ensures
            r@ == self.path(),
    {
        self.proc_stat_path.as_str()
    }

    /// When the monitor was made.
    pub fn start_time(&self) -> (r: Instant) {
        self.start_time
    }

    /// Takes a snapshot read by the caller: the load since the previous
    /// snapshot, or `NoPreviousSample` for the first one. The snapshot is
    /// kept for the next call either way.
    pub fn sample_from(&mut self, current: CpuStats, timestamp_ms: u64) -> (r: Result<LoadSample, LoadMonitorError>)
        ensures
            final(self).interval_ms() == old(self).interval_ms(),
            final(self).path() == old(self).path(),
            final(self).has_previous(),
            !old(self).has_previous() <==> r matches Err(LoadMonitorError::NoPreviousSample),
            r.is_ok() <==> old(self).has_previous(),
    {
        let result = match &self.prev_stats {
            Some(prev) => Ok(Self::calculate_load(prev, &current, timestamp_ms)),
            None => Err(LoadMonitorError::NoPreviousSample),
        };
        self.prev_stats = Some(current);
        result
    }

    pub closed spec fn has_previous(&self) -> bool {
        self.prev_stats.is_some()
    }

    /// Load of one core between two snapshots, in hundredths of a percent.
    pub fn calculate_core_load(prev: &CoreStats, current: &CoreStats) -> (r: u32)
        ensures
            r as int == load_between(*prev, *current),
            r <= FULL_LOAD_CENTI,
    {
        core_load(prev, current)
    }

    /// Per-core loads between two snapshots (over the cores both have), and
    /// their mean rounded down; with no per-core counters the mean is the
    /// load of the totals.
    pub fn calculate_load(prev: &CpuStats, current: &CpuStats, timestamp_ms: u64) -> (r: LoadSample)
        ensures
            r.per_core@.len() == min_len(prev.per_core@.len(), current.per_core@.len()),
            forall|i: int| 0 <= i < r.per_core@.len() ==> r.per_core@[i] as int == load_between(
                prev.per_core@[i],
                current.per_core@[i],
            ),
            r.per_core@.len() == 0 ==> r.average as int == load_between(prev.total, current.total),
            r.per_core@.len() > 0 ==> r.average as int == sum_loads(r.per_core@) / r.per_core@.len() as int,
            r.timestamp_ms == timestamp_ms,
    {
        let n: usize = if prev.per_core.len() <= current.per_core.len() { prev.per_core.len() } else { current.per_core.len() };
        let mut loads: Vec<u32> = Vec::new();
        let mut sum: u128 = 0;
        let mut i: usize = 0;
        while i < n
            invariant
                n == min_len(prev.per_core@.len(), current.per_core@.len()),
                i <= n,
                loads@.len() == i,
                forall|k: int| 0 <= k < i ==> loads@[k] as int == load_between(prev.per_core@[k], current.per_core@[k]),
                sum as int == sum_loads(loads@),
                sum <= i * 10000,
            decreases n - i,
        {
            let l = core_load(&prev.per_core[i], &current.per_core[i]);
            proof {
                assert(loads@.push(l).drop_last() =~= loads@);
            }
            loads.push(l);
            sum = sum + l as u128;
            i = i + 1;
        }
        let average: u32 = if n == 0 {
            core_load(&prev.total, &current.total)
        } else {
            proof {
                vstd::arithmetic::div_mod::lemma_div_is_ordered(sum as int, (n * 10000) as int, n as int);
                vstd::arithmetic::div_mod::lemma_fundamental_div_mod_converse((n * 10000) as int, n as int, 10000, 0);
            }
            (sum / n as u128) as u32
        };
        LoadSample { average, per_core: loads, timestamp_ms }
    }

    /// Parses the statistics text (see `parse_proc_stat`).
    pub fn parse_proc_stat(content: &str) -> (r: Result<CpuStats, LoadMonitorError>)
        ensures
            r.is_ok() <==> stat_text(content@) is Some,
            r matches Ok(st) ==> stat_text(content@) == Some((st.total, st.per_core@)),
            r matches Err(e) ==> e is ParseError,
    {
        parse_proc_stat(content)
    }

    /// Parses one `cpu` line (see `parse_cpu_line`).
    pub fn parse_cpu_line(line: &str) -> (r: Result<CoreStats, LoadMonitorError>)
        ensures
            r.is_ok() <==> cpu_line_stats(line@) is Some,
            r matches Ok(s) ==> cpu_line_stats(line@) == Some(s),
            r matches Err(e) ==> e is ParseError,
    {
        parse_cpu_line(line)
    }
}

pub open spec fn min_len(a: nat, b: nat) -> nat {
    if a <= b { a } else { b }
}

pub open spec fn sum_loads(s: Seq<u32>) -> int
    decreases s.len(),
{
    if s.len() == 0 { 0 } else { sum_loads(s.drop_last()) + s.last() }
}

/// Loads between two snapshots, in hundredths of a percent.
#[derive(Debug, Clone)]
pub struct LoadSample {
    /// Mean load over the cores.
    pub average: u32,
    /// Load of each core.
    pub per_core: Vec<u32>,
    /// When the snapshot was taken, in milliseconds since the monitor started.
    pub timestamp_ms: u64,
}

/// Whether `c` is white space as Unicode's White_Space property defines it.
pub open spec fn is_space(c: char) -> bool {
    ('\u{9}' <= c && c <= '\u{d}') || c == ' ' || c == '\u{85}' || c == '\u{a0}' || c == '\u{1680}'
        || ('\u{2000}' <= c && c <= '\u{200a}') || c == '\u{2028}' || c == '\u{2029}' || c == '\u{202f}'
        || c == '\u{205f}' || c == '\u{3000}'
}

fn is_space_char(c: char) -> (r: bool)
    ensures
        r == is_space(c),
{
    ('\u{9}' <= c && c <= '\u{d}') || c == ' ' || c == '\u{85}' || c == '\u{a0}' || c == '\u{1680}'
        || ('\u{2000}' <= c && c <= '\u{200a}') || c == '\u{2028}' || c == '\u{2029}' || c == '\u{202f}'
        || c == '\u{205f}' || c == '\u{3000}'
}

/// The maximal runs of non-space characters of `s`, in order.
pub open spec fn words(s: Seq<char>) -> Seq<Seq<char>>
    decreases s.len(),
{
    if s.len() == 0 {
        seq![]
    } else {
        let w = words(s.drop_last());
        let c = s.last();
        if is_space(c) {
            w
        } else if s.len() >= 2 && !is_space(s[s.len() - 2]) {
            w.drop_last().push(w.last().push(c))
        } else {
            w.push(seq![c])
        }
    }
}

/// Field `k` of a word list read as a `u64`.
pub open spec fn field(w: Seq<Seq<char>>, k: int) -> Option<u64> {
    if 0 <= k < w.len() {
        match within(unsigned_value(w[k]), 0, u64::MAX as int) {
            Some(v) => Some(v as u64),
            None => None,
        }
    } else {
        None
    }
}

pub open spec fn or_zero(v: Option<u64>) -> u64 {
    match v {
        Some(x) => x,
        None => 0,
    }
}

/// The counters of a `cpu` line: after the label come user, nice, system
/// and idle, all required, then iowait, irq, softirq and steal, each zero
/// when missing or unreadable.
pub open spec fn cpu_line_stats(line: Seq<char>) -> Option<CoreStats> {
    let w = words(line);
    if field(w, 1) is Some && field(w, 2) is Some && field(w, 3) is Some && field(w, 4) is Some {
        Some(CoreStats {
            user: field(w, 1).unwrap(),
            nice: field(w, 2).unwrap(),
            system: field(w, 3).unwrap(),
            idle: field(w, 4).unwrap(),
            iowait: or_zero(field(w, 5)),
            irq: or_zero(field(w, 6)),
            softirq: or_zero(field(w, 7)),
            steal: or_zero(field(w, 8)),
        })
    } else {
        None
    }
}

/// The maximal runs of non-space characters of `s`, in order, as Rust's
/// `str::split_whitespace` yields them.
pub fn split_words(s: &str) -> (r: Vec<String>)
    ensures
        r@.map_values(|x: String| x@) == words(s@),
{
    let n = s.unicode_len();
    let mut done: Vec<String> = Vec::new();
    let mut start: usize = 0;
    let mut in_word = false;
    let mut i: usize = 0;
    while i < n
        invariant
            n == s@.len(),
            i <= n,
            start <= i,
            in_word ==> start < i,
            in_word == (i > 0 && !is_space(s@[i - 1])),
            in_word ==> words(s@.subrange(0, i as int)) == done@.map_values(|x: String| x@).push(
                s@.subrange(start as int, i as int),
            ),
            !in_word ==> words(s@.subrange(0, i as int)) == done@.map_values(|x: String| x@),
        decreases n - i,
    {
        let c = s.get_char(i);
        let ghost pre = s@.subrange(0, i as int);
        let ghost cur = s@.subrange(0, i as int + 1);
        assert(cur.drop_last() =~= pre);
        assert(cur.last() == c);
        if is_space_char(c) {
            if in_word {
                let piece = String::from_str(s.substring_char(start, i));
                done.push(piece);
                assert(done@.map_values(|x: String| x@) =~= views_of(done@));
            }
            in_word = false;
        } else {
            if in_word {
                assert(cur.len() >= 2 && cur[cur.len() - 2] == s@[i - 1]);
                assert(s@.subrange(start as int, i as int).push(c) =~= s@.subrange(start as int, i as int + 1));
                assert(words(pre).drop_last() =~= done@.map_values(|x: String| x@));
            } else {
                start = i;
                assert(seq![c] =~= s@.subrange(i as int, i as int + 1));
            }
            in_word = true;
        }
        i = i + 1;
    }
    assert(s@.subrange(0, n as int) =~= s@);
    if in_word {
        let piece = String::from_str(s.substring_char(start, n));
        done.push(piece);
        assert(done@.map_values(|x: String| x@) =~= views_of(done@));
    }
    done
}

spec fn views_of(v: Seq<String>) -> Seq<Seq<char>> {
    v.map_values(|x: String| x@)
}

/// Parses one `cpu` line of `/proc/stat`.
pub fn parse_cpu_line(line: &str) -> (r: Result<CoreStats, LoadMonitorError>)
    ensures
        r.is_ok() <==> cpu_line_stats(line@) is Some,
        r matches Ok(s) ==> cpu_line_stats(line@) == Some(s),
        r matches Err(e) ==> e is ParseError,
{
    let w = split_words(line);
    let ghost wv = w@.map_values(|x: String| x@);
    let user = match read_field(&w, 1) {
        Some(v) => v,
        None => {
            return Err(LoadMonitorError::ParseError(String::from_str("Missing or invalid user field")));
        },
    };
    let nice = match read_field(&w, 2) {
        Some(v) => v,
        None => {
            return Err(LoadMonitorError::ParseError(String::from_str("Missing or invalid nice field")));
        },
    };
    let system = match read_field(&w, 3) {
        Some(v) => v,
        None => {
            return Err(LoadMonitorError::ParseError(String::from_str("Missing or invalid system field")));
        },
    };
    let idle = match read_field(&w, 4) {
        Some(v) => v,
        None => {
            return Err(LoadMonitorError::ParseError(String::from_str("Missing or invalid idle field")));
        },
    };
    let iowait = match read_field(&w, 5) { Some(v) => v, None => 0 };
    let irq = match read_field(&w, 6) { Some(v) => v, None => 0 };
    let softirq = match read_field(&w, 7) { Some(v) => v, None => 0 };
    let steal = match read_field(&w, 8) { Some(v) => v, None => 0 };
    Ok(CoreStats { user, nice, system, idle, iowait, irq, softirq, steal })
}

fn read_field(w: &Vec<String>, k: usize) -> (r: Option<u64>)
    ensures
        r == field(w@.map_values(|x: String| x@), k as int),
{
    if k >= w.len() {
        return None;
    }
    parse_unsigned(w[k].as_str(), u64::MAX)
}

/// `s` split at each `\n`; the last piece is what follows the last `\n`.
pub open spec fn pieces(s: Seq<char>) -> Seq<Seq<char>>
    decreases s.len(),
{
    if s.len() == 0 {
        seq![seq![]]
    } else {
        let p = pieces(s.drop_last());
        if s.last() == '\n' {
            p.push(seq![])
        } else {
            p.drop_last().push(p.last().push(s.last()))
        }
    }
}

proof fn lemma_pieces_nonempty(s: Seq<char>)
    ensures
        pieces(s).len() > 0,
    decreases s.len(),
{
    if s.len() > 0 {
        lemma_pieces_nonempty(s.drop_last());
    }
}

pub open spec fn strip_cr(l: Seq<char>) -> Seq<char> {
    if l.len() > 0 && l.last() == '\r' { l.drop_last() } else { l }
}

/// The lines of `s` as Rust's `str::lines` yields them: split at `\n`, a
/// `\r` before the `\n` dropped, and no final empty line.
pub open spec fn text_lines(s: Seq<char>) -> Seq<Seq<char>> {
    let p = pieces(s);
    let ended = p.drop_last().map_values(|l: Seq<char>| strip_cr(l));
    if p.last().len() > 0 { ended.push(p.last()) } else { ended }
}

pub open spec fn is_ascii_digit(c: char) -> bool {
    '0' <= c && c <= '9'
}

pub open spec fn starts_with_cpu(l: Seq<char>) -> bool {
    l.len() >= 3 && l[0] == 'c' && l[1] == 'p' && l[2] == 'u'
}

/// The counters gathered from a list of lines: the last `cpu ` line gives
/// the total, each `cpu<digit>` line one core; `None` if a line that starts
/// with `cpu` is not a valid counter line.
pub open spec fn scan_lines(ls: Seq<Seq<char>>) -> Option<(Option<CoreStats>, Seq<CoreStats>)>
    decreases ls.len(),
{
    if ls.len() == 0 {
        Some((None, seq![]))
    } else {
        match scan_lines(ls.drop_last()) {
            None => None,
            Some((t, pc)) => {
                let l = ls.last();
                if starts_with_cpu(l) {
                    match cpu_line_stats(l) {
                        None => None,
                        Some(st) => if l.len() >= 4 && l[3] == ' ' {
                            Some((Some(st), pc))
                        } else if l.len() >= 4 && is_ascii_digit(l[3]) {
                            Some((t, pc.push(st)))
                        } else {
                            Some((t, pc))
                        },
                    }
                } else {
                    Some((t, pc))
                }
            },
        }
    }
}

/// Total and per-core counters of a `/proc/stat` text, if it has a total
/// line and all its `cpu` lines are valid.
pub open spec fn stat_text(s: Seq<char>) -> Option<(CoreStats, Seq<CoreStats>)> {
    match scan_lines(text_lines(s)) {
        Some((Some(t), pc)) => Some((t, pc)),
        _ => None,
    }
}

/// Applies one line to the running scan state.
fn scan_line(
    line: &str,
    failed: &mut bool,
    total: &mut Option<CoreStats>,
    per_core: &mut Vec<CoreStats>,
)
    ensures
        ({
            let before = if *old(failed) { None } else { Some((*old(total), old(per_core)@)) };
            let after = if *final(failed) { None } else { Some((*final(total), final(per_core)@)) };
            after == scan_step(before, line@)
        }),
{
    if *failed {
        return;
    }
    let n = line.unicode_len();
    if n >= 3 && line.get_char(0) == 'c' && line.get_char(1) == 'p' && line.get_char(2) == 'u' {
        match parse_cpu_line(line) {
            Ok(st) => {
                if n >= 4 && line.get_char(3) == ' ' {
                    *total = Some(st);
                } else if n >= 4 && '0' <= line.get_char(3) && line.get_char(3) <= '9' {
                    per_core.push(st);
                }
            },
            Err(_) => {
                *failed = true;
            },
        }
    }
}

/// One step of `scan_lines`.
pub open spec fn scan_step(
    state: Option<(Option<CoreStats>, Seq<CoreStats>)>,
    l: Seq<char>,
) -> Option<(Option<CoreStats>, Seq<CoreStats>)> {
    match state {
        None => None,
        Some((t, pc)) => if starts_with_cpu(l) {
            match cpu_line_stats(l) {
                None => None,
                Some(st) => if l.len() >= 4 && l[3] == ' ' {
                    Some((Some(st), pc))
                } else if l.len() >= 4 && is_ascii_digit(l[3]) {
                    Some((t, pc.push(st)))
                } else {
                    Some((t, pc))
                },
            }
        } else {
            Some((t, pc))
        },
    }
}

proof fn lemma_scan_push(ls: Seq<Seq<char>>, l: Seq<char>)
    ensures
        scan_lines(ls.push(l)) == scan_step(scan_lines(ls), l),
{
    assert(ls.push(l).drop_last() =~= ls);
}

/// Parses the text of `/proc/stat`: the total line (`cpu `) and each
/// core's line (`cpu<N>`). Fails if a `cpu` line is not a valid counter
/// line or the total line is missing.
pub fn parse_proc_stat(content: &str) -> (r: Result<CpuStats, LoadMonitorError>)
    ensures
        r.is_ok() <==> stat_text(content@) is Some,
        r matches Ok(st) ==> stat_text(content@) == Some((st.total, st.per_core@)),
        r matches Err(e) ==> e is ParseError,
{
    let n = content.unicode_len();
    let mut failed = false;
    let mut total: Option<CoreStats> = None;
    let mut per_core: Vec<CoreStats> = Vec::new();
    let mut line_start: usize = 0;
    let mut i: usize = 0;
    while i < n
        invariant
            n == content@.len(),
            line_start <= i <= n,
            pieces(content@.subrange(0, i as int)).last() == content@.subrange(line_start as int, i as int),
            (if failed { None } else { Some((total, per_core@)) }) == scan_lines(
                pieces(content@.subrange(0, i as int)).drop_last().map_values(|l: Seq<char>| strip_cr(l)),
            ),
        decreases n - i,
    {
        let ghost pre = content@.subrange(0, i as int);
        let ghost cur = content@.subrange(0, i as int + 1);
        proof {
            assert(cur.drop_last() =~= pre);
            lemma_pieces_nonempty(pre);
        }
        let c = content.get_char(i);
        if c == '\n' {
            let end: usize = if i > line_start && content.get_char(i - 1) == '\r' { i - 1 } else { i };
            let line = content.substring_char(line_start, end);
            proof {
                let piece = content@.subrange(line_start as int, i as int);
                assert(line@ == strip_cr(piece)) by {
                    if i > line_start && content@[i - 1] == '\r' {
                        assert(piece.drop_last() =~= content@.subrange(line_start as int, end as int));
                    }
                }
                let old_ended = pieces(pre).drop_last().map_values(|l: Seq<char>| strip_cr(l));
                assert(pieces(cur).drop_last() =~= pieces(pre));
                assert(pieces(pre) =~= pieces(pre).drop_last().push(piece));
                assert(pieces(cur).drop_last().map_values(|l: Seq<char>| strip_cr(l)) =~= old_ended.push(strip_cr(piece)));
                lemma_scan_push(old_ended, strip_cr(piece));
            }
            scan_line(line, &mut failed, &mut total, &mut per_core);
            line_start = i + 1;
            proof {
                assert(pieces(cur).last() =~= content@.subrange(line_start as int, i as int + 1));
            }
        } else {
            proof {
                assert(pieces(cur).drop_last() =~= pieces(pre).drop_last());
                assert(content@.subrange(line_start as int, i as int).push(c) =~= content@.subrange(line_start as int, i as int + 1));
            }
        }
        i = i + 1;
    }
    proof {
        assert(content@.subrange(0, n as int) =~= content@);
        lemma_pieces_nonempty(content@);
    }
    if line_start < n {
        let line = content.substring_char(line_start, n);
        proof {
            let p = pieces(content@);
            let ended = p.drop_last().map_values(|l: Seq<char>| strip_cr(l));
            lemma_scan_push(ended, p.last());
        }
        scan_line(line, &mut failed, &mut total, &mut per_core);
    }
    if failed {
        return Err(LoadMonitorError::ParseError(String::from_str("Invalid CPU line in /proc/stat")));
    }
    match total {
        Some(t) => Ok(CpuStats { total: t, per_core, timestamp: instant_now() }),
        None => Err(LoadMonitorError::ParseError(String::from_str("Missing total CPU line in /proc/stat"))),
    }
}

/// Load of a core between two snapshots in hundredths of a percent: the
/// share of the elapsed time that was not idle, rounded down; zero when no
/// time elapsed.
pub open spec fn load_between(prev: CoreStats, cur: CoreStats) -> int {
    let dt = if total_of(cur) >= total_of(prev) { total_of(cur) - total_of(prev) } else { 0 };
    let di = if idle_of(cur) >= idle_of(prev) { idle_of(cur) - idle_of(prev) } else { 0 };
    let da = if dt >= di { dt - di } else { 0 };
    if dt == 0 { 0 } else { da * 10000 / dt }
}

/// Load of a core between two snapshots, in hundredths of a percent.
pub fn core_load(prev: &CoreStats, cur: &CoreStats) -> (r: u32)
    ensures
        r as int == load_between(*prev, *cur),
        r <= FULL_LOAD_CENTI,
{
    let tp: u128 = prev.user as u128 + prev.nice as u128 + prev.system as u128 + prev.idle as u128
        + prev.iowait as u128 + prev.irq as u128 + prev.softirq as u128 + prev.steal as u128;
    let tc: u128 = cur.user as u128 + cur.nice as u128 + cur.system as u128 + cur.idle as u128
        + cur.iowait as u128 + cur.irq as u128 + cur.softirq as u128 + cur.steal as u128;
    let ip: u128 = prev.idle as u128 + prev.iowait as u128;
    let ic: u128 = cur.idle as u128 + cur.iowait as u128;
    let dt: u128 = if tc >= tp { tc - tp } else { 0 };
    let di: u128 = if ic >= ip { ic - ip } else { 0 };
    let da: u128 = if dt >= di { dt - di } else { 0 };
    if dt == 0 {
        return 0;
    }
    assert(da * 10000 <= dt * 10000);
    proof {
        vstd::arithmetic::div_mod::lemma_div_is_ordered((da * 10000) as int, (dt * 10000) as int, dt as int);
        vstd::arithmetic::div_mod::lemma_fundamental_div_mod_converse((dt * 10000) as int, dt as int, 10000, 0);
    }
    ((da * 10000) / dt) as u32
}

/// The lines of `s` as Rust's `str::lines` yields them.
pub fn split_lines(content: &str) -> (r: Vec<String>)
    ensures
        r@.map_values(|x: String| x@) == text_lines(content@),
{
    let n = content.unicode_len();
    let mut out: Vec<String> = Vec::new();
    let mut line_start: usize = 0;
    let mut i: usize = 0;
    while i < n
        invariant
            n == content@.len(),
            line_start <= i <= n,
            pieces(content@.subrange(0, i as int)).last() == content@.subrange(line_start as int, i as int),
            out@.map_values(|x: String| x@) == pieces(content@.subrange(0, i as int)).drop_last().map_values(
                |l: Seq<char>| strip_cr(l),
            ),
        decreases n - i,
    {
        let ghost pre = content@.subrange(0, i as int);
        let ghost cur = content@.subrange(0, i as int + 1);
        proof {
            assert(cur.drop_last() =~= pre);
            lemma_pieces_nonempty(pre);
        }
        let c = content.get_char(i);
        if c == '\n' {
            let end: usize = if i > line_start && content.get_char(i - 1) == '\r' { i - 1 } else { i };
            let line = String::from_str(content.substring_char(line_start, end));
            proof {
                let piece = content@.subrange(line_start as int, i as int);
                assert(line@ == strip_cr(piece)) by {
                    if i > line_start && content@[i - 1] == '\r' {
                        assert(piece.drop_last() =~= content@.subrange(line_start as int, end as int));
                    }
                }
                assert(pieces(cur).drop_last() =~= pieces(pre));
                assert(pieces(pre) =~= pieces(pre).drop_last().push(piece));
            }
            let ghost before = out@;
            out.push(line);
            proof {
                assert(out@.map_values(|x: String| x@) =~= before.map_values(|x: String| x@).push(line@));
                assert(pieces(cur).drop_last().map_values(|l: Seq<char>| strip_cr(l)) =~= pieces(pre).drop_last().map_values(
                    |l: Seq<char>| strip_cr(l),
                ).push(strip_cr(content@.subrange(line_start as int, i as int))));
            }
            line_start = i + 1;
            proof {
                assert(pieces(cur).last() =~= content@.subrange(line_start as int, i as int + 1));
            }
        } else {
            proof {
                assert(pieces(cur).drop_last() =~= pieces(pre).drop_last());
                assert(content@.subrange(line_start as int, i as int).push(c) =~= content@.subrange(line_start as int, i as int + 1));
            }
        }
        i = i + 1;
    }
    proof {
        assert(content@.subrange(0, n as int) =~= content@);
        lemma_pieces_nonempty(content@);
    }
    if line_start < n {
        let line = String::from_str(content.substring_char(line_start, n));
        let ghost before = out@;
        out.push(line);
        assert(out@.map_values(|x: String| x@) =~= before.map_values(|x: String| x@).push(line@));
    } else {
        assert(pieces(content@).last().len() == 0);
    }
    out
}

} // verus!
