//! Paths and errors of the per-core metrics reader. The sysfs and procfs
//! reads themselves are left to the caller.

use vstd::prelude::*;
use vstd::string::*;
use std::path::PathBuf;
use crate::text::{decimal, decimal_string, has_prefix, join, parse_unsigned, starts_with, unsigned_value, within};
use crate::load_monitor::{split_lines, split_words, text_lines, words};
use crate::ryzenadj::path_from;
use crate::hwmon::io_error_text;

verus! {

/// Errors of the metrics reader.
#[derive(Debug)]
pub enum MetricsError {
    InvalidCoreId(usize),
    IoError(std::io::Error),
    ParseError(String),
    FileNotFound(String),
}

impl MetricsError {
    /// A human-readable description of the error.
    pub fn message(&self) -> (r: String)
        ensures
            self matches MetricsError::InvalidCoreId(id) ==> r@ == "Invalid core ID: "@ + decimal(id as nat),
            self matches MetricsError::ParseError(m) ==> r@ == "Parse error: "@ + m@,
            self matches MetricsError::FileNotFound(p) ==> r@ == "File not found: "@ + p@,
    {
        match self {
            MetricsError::InvalidCoreId(id) => {
                let d = decimal_string(*id as u64);
                join("Invalid core ID: ", d.as_str())
            },
            MetricsError::IoError(e) => {
                let t = io_error_text(e);
                join("I/O error: ", t.as_str())
            },
            MetricsError::ParseError(m) => join("Parse error: ", m.as_str()),
            MetricsError::FileNotFound(p) => join("File not found: ", p.as_str()),
        }
    }
}

/// The words after the first that read as a `u64`, in order.
pub open spec fn numeric_fields(ws: Seq<Seq<char>>) -> Seq<u64>
    decreases ws.len(),
{
    if ws.len() <= 1 {
        seq![]
    } else {
        let f = numeric_fields(ws.drop_last());
        match within(unsigned_value(ws.last()), 0, u64::MAX as int) {
            Some(v) => f.push(v as u64),
            None => f,
        }
    }
}

/// The first line that starts with `p`.
pub open spec fn first_line_with(ls: Seq<Seq<char>>, p: Seq<char>) -> Option<Seq<char>>
    decreases ls.len(),
{
    if ls.len() == 0 {
        None
    } else if has_prefix(ls[0], p) {
        Some(ls[0])
    } else {
        first_line_with(ls.drop_first(), p)
    }
}

/// Start of a core's line in the kernel's CPU time statistics.
pub open spec fn core_line_prefix(core_id: usize) -> Seq<char> {
    "cpu"@ + decimal(core_id as nat) + " "@
}

pub open spec fn sum_u64(s: Seq<u64>) -> int
    decreases s.len(),
{
    if s.len() == 0 { 0 } else { sum_u64(s.drop_last()) + s.last() }
}

/// Load in hundredths of a percent from the previous and current total and
/// idle times; zero on the first sample (no previous total) or when no time
/// passed.
pub open spec fn load_from(prev_total: int, prev_idle: int, total: int, idle: int) -> int {
    if prev_total <= 0 {
        0
    } else {
        let dt = if total >= prev_total { total - prev_total } else { 0 };
        let di = if idle >= prev_idle { idle - prev_idle } else { 0 };
        let da = if dt >= di { dt - di } else { 0 };
        if dt == 0 { 0 } else { da * 10000 / dt }
    }
}

/// Where the per-core metrics are read from, how many cores there are, and
/// each core's total and idle time at its last load sample.
pub struct MetricsMonitor {
    num_cores: usize,
    sysfs_base: PathBuf,
    proc_stat_path: PathBuf,
    hwmon_path: PathBuf,
    prev_stats: Vec<(u64, u64)>,
}

impl MetricsMonitor {
    pub closed spec fn spec_num_cores(&self) -> usize {
        self.num_cores
    }

    /// Each core's total and idle time at its last load sample.
    pub closed spec fn prev_times(&self) -> Seq<(u64, u64)> {
        self.prev_stats@
    }

    pub open spec fn wf(&self) -> bool {
        self.prev_times().len() == self.spec_num_cores()
    }

    fn zero_times(n: usize) -> (r: Vec<(u64, u64)>)
        ensures
            r@ == Seq::new(n as nat, |i: int| (0u64, 0u64)),
    {
        let mut v: Vec<(u64, u64)> = Vec::new();
        let mut k: usize = 0;
        while k < n
            invariant
                k <= n,
                v@ == Seq::new(k as nat, |i: int| (0u64, 0u64)),
            decreases n - k,
        {
            v.push((0, 0));
            k = k + 1;
            assert(v@ =~= Seq::new(k as nat, |i: int| (0u64, 0u64)));
        }
        v
    }

    /// A reader of the system's own paths for `num_cores` cores.
    pub fn new(num_cores: usize) -> (r: Self)
        ensures
            r.wf(),
            r.spec_num_cores() == num_cores,
            r.prev_times() == Seq::new(num_cores as nat, |i: int| (0u64, 0u64)),
    {
        MetricsMonitor {
            num_cores,
            sysfs_base: path_from("/sys/devices/system/cpu"),
            proc_stat_path: path_from("/proc/stat"),
            hwmon_path: path_from("/sys/class/hwmon"),
            prev_stats: Self::zero_times(num_cores),
        }
    }

    /// A reader of the given paths.
    pub fn with_paths(num_cores: usize, sysfs_base: PathBuf, proc_stat_path: PathBuf, hwmon_path: PathBuf) -> (r: Self)
        ensures
            r.wf(),
            r.spec_num_cores() == num_cores,
            r.prev_times() == Seq::new(num_cores as nat, |i: int| (0u64, 0u64)),
    {
        MetricsMonitor { num_cores, sysfs_base, proc_stat_path, hwmon_path, prev_stats: Self::zero_times(num_cores) }
    }

    /// A core's load since its previous sample, in hundredths of a percent,
    /// from the text of the kernel's CPU time statistics: the first line that
    /// starts with `cpu<N> `, its numeric fields after the label (at least
    /// four; the fourth is idle time, their sum the total, which must fit in
    /// a `u64`). The first sample of a core gives zero. The core's times are
    /// kept for the next sample.
    pub fn update_cpu_load(&mut self, core_id: usize, content: &str) -> (r: Result<u32, MetricsError>)
        requires
            old(self).wf(),
        ensures
            final(self).wf(),
            final(self).spec_num_cores() == old(self).spec_num_cores(),
            core_id >= old(self).spec_num_cores() ==> (r matches Err(e) && e == MetricsError::InvalidCoreId(core_id)),
            core_id < old(self).spec_num_cores() ==> ({
                let line = first_line_with(text_lines(content@), core_line_prefix(core_id));
                &&& (line is None ==> (r matches Err(e) && e is ParseError))
                &&& (line matches Some(l) ==> {
                    let vals = numeric_fields(words(l));
                    &&& (vals.len() < 4 ==> (r matches Err(e) && e is ParseError))
                    &&& (vals.len() >= 4 && sum_u64(vals) > u64::MAX ==> (r matches Err(e) && e is ParseError))
                    &&& (vals.len() >= 4 && sum_u64(vals) <= u64::MAX ==> {
                        let prev = old(self).prev_times()[core_id as int];
                        &&& (r matches Ok(load) && load as int == load_from(prev.0 as int, prev.1 as int, sum_u64(vals), vals[3] as int))
                        &&& final(self).prev_times() == old(self).prev_times().update(
                            core_id as int,
                            (sum_u64(vals) as u64, vals[3]),
                        )
                    })
                })
            }),
            r.is_err() ==> final(self).prev_times() == old(self).prev_times(),
    {
        if core_id >= self.num_cores {
            return Err(MetricsError::InvalidCoreId(core_id));
        }
        let lines = split_lines(content);
        let ghost lv = lines@.map_values(|x: String| x@);
        let digits = decimal_string(core_id as u64);
        let mut prefix = join("cpu", digits.as_str());
        prefix.append(" ");
        let n = lines.len();
        let mut i: usize = 0;
        assert(lv.subrange(0, n as int) =~= lv);
        while i < n && !starts_with(lines[i].as_str(), prefix.as_str())
            invariant
                n == lines@.len(),
                lv == lines@.map_values(|x: String| x@),
                prefix@ == core_line_prefix(core_id),
                i <= n,
                first_line_with(lv, prefix@) == first_line_with(lv.subrange(i as int, n as int), prefix@),
            decreases n - i,
        {
            assert(lv.subrange(i as int, n as int).drop_first() =~= lv.subrange(i as int + 1, n as int));
            assert(lv.subrange(i as int, n as int)[0] == lines@[i as int]@);
            i = i + 1;
        }
        if i == n {
            assert(lv.subrange(n as int, n as int) =~= Seq::<Seq<char>>::empty());
            return Err(MetricsError::ParseError(String::from_str("Core not found in /proc/stat")));
        }
        assert(lv.subrange(i as int, n as int)[0] == lines@[i as int]@);
        let idx = i;
        let ghost line = lines@[idx as int]@;
        assert(first_line_with(text_lines(content@), core_line_prefix(core_id)) == Some(line));
        let ws = split_words(lines[idx].as_str());
        let ghost wv = ws@.map_values(|x: String| x@);
        let mut vals: Vec<u64> = Vec::new();
        let m = ws.len();
        if m == 0 {
            assert(numeric_fields(wv) =~= Seq::<u64>::empty());
            return Err(MetricsError::ParseError(String::from_str("Invalid /proc/stat format for core")));
        }
        assert(numeric_fields(wv.subrange(0, 1)) =~= Seq::<u64>::empty());
        let mut k: usize = 1;
        while k < m
            invariant
                m == ws@.len(),
                wv == ws@.map_values(|x: String| x@),
                1 <= k <= m,
                vals@ == numeric_fields(wv.subrange(0, k as int)),
            decreases m - k,
        {
            assert(wv.subrange(0, k as int + 1).drop_last() =~= wv.subrange(0, k as int));
            assert(wv.subrange(0, k as int + 1).last() == ws@[k as int]@);
            match parse_unsigned(ws[k].as_str(), u64::MAX) {
                Some(v) => vals.push(v),
                None => {},
            }
            k = k + 1;
        }
        assert(wv.subrange(0, m as int) =~= wv);
        if vals.len() < 4 {
            return Err(MetricsError::ParseError(String::from_str("Invalid /proc/stat format for core")));
        }
        let mut total: u128 = 0;
        let mut j: usize = 0;
        while j < vals.len()
            invariant
                j <= vals@.len(),
                total as int == sum_u64(vals@.subrange(0, j as int)),
                total <= j * 0xffff_ffff_ffff_ffffu128,
            decreases vals@.len() - j,
        {
            assert(vals@.subrange(0, j as int + 1).drop_last() =~= vals@.subrange(0, j as int));
            assert(j * 0xffff_ffff_ffff_ffffu128 + 0xffff_ffff_ffff_ffffu128 <= 0xffff_ffff_ffff_ffff_ffff_ffff_ffff_ffffu128)
                by (nonlinear_arith) requires j < vals@.len(), vals@.len() <= usize::MAX;
            total = total + vals[j] as u128;
            j = j + 1;
        }
        assert(vals@.subrange(0, vals@.len() as int) =~= vals@);
        if total > u64::MAX as u128 {
            return Err(MetricsError::ParseError(String::from_str("CPU times in /proc/stat overflow")));
        }
        let total: u64 = total as u64;
        let idle = vals[3];
        let (prev_total, prev_idle) = self.prev_stats[core_id];
        let load: u32 = if prev_total == 0 {
            0
        } else {
            let dt: u128 = if total >= prev_total { (total - prev_total) as u128 } else { 0 };
            let di: u128 = if idle >= prev_idle { (idle - prev_idle) as u128 } else { 0 };
            let da: u128 = if dt >= di { dt - di } else { 0 };
            if dt == 0 {
                0
            } else {
                proof {
                    vstd::arithmetic::div_mod::lemma_div_is_ordered((da * 10000) as int, (dt * 10000) as int, dt as int);
                    vstd::arithmetic::div_mod::lemma_fundamental_div_mod_converse((dt * 10000) as int, dt as int, 10000, 0);
                }
                assert(da * 10000 <= dt * 10000) by (nonlinear_arith) requires da <= dt;
                ((da * 10000) / dt) as u32
            }
        };
        self.prev_stats.set(core_id, (total, idle));
        Ok(load)
    }

    /// Number of cores.
    pub fn num_cores(&self) -> (r: usize)
        ensures
            r == self.spec_num_cores(),
    {
        self.num_cores
    }

    /// Base directory of the CPU sysfs tree.
    pub fn sysfs_base(&self) -> &PathBuf {
        &self.sysfs_base
    }

    /// Path of the kernel's CPU time statistics.
    pub fn proc_stat_path(&self) -> &PathBuf {
        &self.proc_stat_path
    }

    /// Base directory of hwmon devices.
    pub fn hwmon_path(&self) -> &PathBuf {
        &self.hwmon_path
    }

    /// Checks a core index: `Err(InvalidCoreId)` unless it is below the
    /// number of cores.
    pub fn check_core(&self, core_id: usize) -> (r: Result<(), MetricsError>)
        ensures
            r.is_ok() <==> core_id < self.spec_num_cores(),
            r matches Err(e) ==> e matches MetricsError::InvalidCoreId(i) && i == core_id,
    {
        if core_id >= self.num_cores {
            Err(MetricsError::InvalidCoreId(core_id))
        } else {
            Ok(())
        }
    }
}

} // verus!
