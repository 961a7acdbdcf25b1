//! Failure accounting for the external undervolt tool.
//!
//! The tool itself is run by the caller; this type builds its arguments and
//! decides, from each outcome, whether the control loop may go on.

use vstd::prelude::*;
use vstd::string::*;
use std::path::PathBuf;
use crate::text::{decimal, decimal_string, join, signed_decimal, signed_decimal_string};

verus! {

/// Consecutive failures after which the executor gives up.
pub const MAX_CONSECUTIVE_FAILURES: u32 = 5;

/// Declares `std::path::PathBuf` to Verus as an opaque type, carried as a value.
#[verifier::external_type_specification]
#[verifier::external_body]
pub struct ExPathBuf(std::path::PathBuf);

/// Relies on `PathBuf::from`: turns a string into a filesystem path.
#[verifier::external_body]
pub(crate) fn path_from(s: &str) -> (r: PathBuf) {
    PathBuf::from(s)
}

/// Errors of the external undervolt tool.
#[derive(Debug, Clone, PartialEq)]
pub enum RyzenadjError {
    /// The binary does not exist.
    BinaryNotFound(String),
    /// The process could not be run.
    ExecutionFailed(String),
    /// The process exited with a non-zero code.
    NonZeroExit { code: i32, stderr: String },
    /// Too many failures in a row.
    MaxFailuresReached(u32),
}

pub open spec fn error_text(e: RyzenadjError) -> Seq<char> {
    match e {
        RyzenadjError::BinaryNotFound(p) => "ryzenadj binary not found at: "@ + p@,
        RyzenadjError::ExecutionFailed(m) => "ryzenadj execution failed: "@ + m@,
        RyzenadjError::NonZeroExit { code, stderr } => "ryzenadj exited with code "@ + signed_decimal(
            code as int,
        ) + ": "@ + stderr@,
        RyzenadjError::MaxFailuresReached(n) => "ryzenadj failed "@ + decimal(n as nat)
            + " consecutive times"@,
    }
}

impl RyzenadjError {
    /// A human-readable description of the error.
    pub fn message(&self) -> (r: String)
        ensures
            r@ == error_text(*self),
    {
        match self {
            RyzenadjError::BinaryNotFound(p) => join("ryzenadj binary not found at: ", p.as_str()),
            RyzenadjError::ExecutionFailed(m) => join("ryzenadj execution failed: ", m.as_str()),
            RyzenadjError::NonZeroExit { code, stderr } => {
                let c = signed_decimal_string(*code as i64);
                let mut s = join("ryzenadj exited with code ", c.as_str());
                s.append(": ");
                s.append(stderr.as_str());
                s
            },
            RyzenadjError::MaxFailuresReached(n) => {
                let c = decimal_string(*n as u64);
                let mut s = join("ryzenadj failed ", c.as_str());
                s.append(" consecutive times");
                s
            },
        }
    }
}

/// Outcome of one actuation that the loop may continue after.
#[derive(Debug, Clone, Copy, PartialEq, Eq, Structural)]
pub struct ApplyResult {
    pub success: bool,
    pub consecutive_failures: u32,
}

/// The counter after one more failure, held at `u32::MAX`.
pub open spec fn bumped(count: u32) -> u32 {
    if count < u32::MAX { (count + 1) as u32 } else { count }
}

/// What one outcome yields, given the failure count before it.
pub open spec fn outcome_result(count: u32, max: u32, outcome: Result<(), RyzenadjError>) -> Result<ApplyResult, RyzenadjError> {
    match outcome {
        Ok(()) => Ok(ApplyResult { success: true, consecutive_failures: 0 }),
        Err(RyzenadjError::BinaryNotFound(p)) => Err(RyzenadjError::BinaryNotFound(p)),
        Err(_) => if bumped(count) >= max {
            Err(RyzenadjError::MaxFailuresReached(bumped(count)))
        } else {
            Ok(ApplyResult { success: false, consecutive_failures: bumped(count) })
        },
    }
}

/// The failure count after one outcome.
pub open spec fn outcome_count(count: u32, outcome: Result<(), RyzenadjError>) -> u32 {
    match outcome {
        Ok(()) => 0,
        Err(RyzenadjError::BinaryNotFound(_)) => count,
        Err(_) => bumped(count),
    }
}

/// Tracks consecutive failures of the external undervolt tool.
#[derive(Debug)]
pub struct RyzenadjExecutor {
    binary_path: PathBuf,
    consecutive_failures: u32,
    max_failures: u32,
}

impl RyzenadjExecutor {
    pub closed spec fn failures(&self) -> u32 {
        self.consecutive_failures
    }

    pub closed spec fn max(&self) -> u32 {
        self.max_failures
    }

    /// An executor for the binary at `binary_path`, giving up after five
    /// failures in a row.
    pub fn new(binary_path: &str) -> (r: Self)
        ensures
            r.failures() == 0,
            r.max() == MAX_CONSECUTIVE_FAILURES,
    {
        RyzenadjExecutor {
            binary_path: path_from(binary_path),
            consecutive_failures: 0,
            max_failures: MAX_CONSECUTIVE_FAILURES,
        }
    }

    /// An executor that gives up after `max_failures` failures in a row.
    pub fn with_max_failures(binary_path: &str, max_failures: u32) -> (r: Self)
        ensures
            r.failures() == 0,
            r.max() == max_failures,
    {
        RyzenadjExecutor { binary_path: path_from(binary_path), consecutive_failures: 0, max_failures }
    }

    /// Failures since the last success.
    pub fn consecutive_failures(&self) -> (r: u32)
        ensures
            r == self.failures(),
    {
        self.consecutive_failures
    }

    /// The number of failures in a row that is fatal.
    pub fn max_failures(&self) -> (r: u32)
        ensures
            r == self.max(),
    {
        self.max_failures
    }

    /// Path of the binary.
    pub fn binary_path(&self) -> (r: &PathBuf) {
        &self.binary_path
    }

    /// Clears the failure count.
    pub fn reset_failures(&mut self)
        ensures
            final(self).failures() == 0,
            final(self).max() == old(self).max(),
    {
        self.consecutive_failures = 0;
    }

    /// Counts one failure; it is fatal once the count reaches the maximum.
    pub fn record_failure(&mut self) -> (r: Result<u32, RyzenadjError>)
        ensures
            final(self).failures() == bumped(old(self).failures()),
            final(self).max() == old(self).max(),
            r == (if bumped(old(self).failures()) >= old(self).max() {
                Err::<u32, RyzenadjError>(RyzenadjError::MaxFailuresReached(bumped(old(self).failures())))
            } else {
                Ok::<u32, RyzenadjError>(bumped(old(self).failures()))
            }),
    {
        if self.consecutive_failures < u32::MAX {
            self.consecutive_failures = self.consecutive_failures + 1;
        }
        if self.consecutive_failures >= self.max_failures {
            Err(RyzenadjError::MaxFailuresReached(self.consecutive_failures))
        } else {
            Ok(self.consecutive_failures)
        }
    }

    /// Counts one success: the failure count drops to zero.
    pub fn record_success(&mut self)
        ensures
            final(self).failures() == 0,
            final(self).max() == old(self).max(),
    {
        self.consecutive_failures = 0;
    }

    /// Arguments that set each core's undervolt: `--set-coper-<i>` followed
    /// by the magnitude of the value in millivolts.
    pub fn build_args(&self, values: &[i32]) -> (r: Vec<String>)
        ensures
            r@.len() == 2 * values@.len(),
            forall|j: int| 0 <= j < r@.len() ==> #[trigger] r@[j]@ == core_arg(values@, j),
    {
        build_core_args(values)
    }

    /// Decides what one run of the tool means for the loop. A success clears
    /// the count. A missing binary is fatal at once and is not counted. Any
    /// other failure is counted, and is fatal once the count reaches the
    /// maximum.
    pub fn record_outcome(&mut self, outcome: Result<(), RyzenadjError>) -> (r: Result<ApplyResult, RyzenadjError>)
        ensures
            r == outcome_result(old(self).failures(), old(self).max(), outcome),
            final(self).failures() == outcome_count(old(self).failures(), outcome),
            final(self).max() == old(self).max(),
    {
        match outcome {
            Ok(()) => {
                self.record_success();
                Ok(ApplyResult { success: true, consecutive_failures: 0 })
            },
            Err(RyzenadjError::BinaryNotFound(p)) => Err(RyzenadjError::BinaryNotFound(p)),
            Err(_) => match self.record_failure() {
                Ok(count) => Ok(ApplyResult { success: false, consecutive_failures: count }),
                Err(e) => Err(e),
            },
        }
    }
}

/// Argument `j` of the list that sets each core's undervolt.
pub open spec fn core_arg(values: Seq<i32>, j: int) -> Seq<char> {
    if j % 2 == 0 {
        "--set-coper-"@ + decimal((j / 2) as nat)
    } else {
        decimal(abs_mv(values[j / 2]))
    }
}

pub open spec fn abs_mv(v: i32) -> nat {
    if v < 0 { (-(v as int)) as nat } else { v as nat }
}

/// Arguments that set each core's undervolt (see `RyzenadjExecutor::build_args`).
pub fn build_core_args(values: &[i32]) -> (r: Vec<String>)
    ensures
        r@.len() == 2 * values@.len(),
        forall|j: int| 0 <= j < r@.len() ==> #[trigger] r@[j]@ == core_arg(values@, j),
{
    let mut args: Vec<String> = Vec::new();
    let n = values.len();
    let mut k: usize = 0;
    while k < n
        invariant
            n == values@.len(),
            k <= n,
            args@.len() == 2 * k,
            forall|j: int| 0 <= j < args@.len() ==> #[trigger] args@[j]@ == core_arg(values@, j),
        decreases n - k,
    {
        let v = values[k];
        let mag: u64 = if v < 0 { (-(v as i64)) as u64 } else { v as u64 };
        let idx = decimal_string(k as u64);
        let flag = join("--set-coper-", idx.as_str());
        let amount = decimal_string(mag);
        assert(flag@ == core_arg(values@, 2 * k as int));
        assert(amount@ == core_arg(values@, 2 * k as int + 1));
        args.push(flag);
        args.push(amount);
        k = k + 1;
    }
    args
}

/// Arguments that set `num_cores` cores to zero.
pub fn zero_args(num_cores: usize) -> (r: Vec<String>)
    ensures
        r@.len() == 2 * num_cores,
        forall|j: int| 0 <= j < r@.len() ==> #[trigger] r@[j]@ == core_arg(
            Seq::new(num_cores as nat, |i: int| 0i32),
            j,
        ),
{
    let mut zeros: Vec<i32> = Vec::new();
    let mut k: usize = 0;
    while k < num_cores
        invariant
            k <= num_cores,
            zeros@.len() == k,
            forall|i: int| 0 <= i < k ==> zeros@[i] == 0,
        decreases num_cores - k,
    {
        zeros.push(0);
        k = k + 1;
    }
    assert(zeros@ =~= Seq::new(num_cores as nat, |i: int| 0i32));
    build_core_args(zeros.as_slice())
}

/// Result of running the failure count over a sequence of outcomes
/// (`true` for success): `Err(n)` with the count at which it became fatal,
/// else `Ok` with the final count.
pub open spec fn failure_run(results: Seq<bool>, max: u32) -> Result<u32, u32>
    decreases results.len(),
{
    if results.len() == 0 {
        Ok(0)
    } else {
        match failure_run(results.drop_last(), max) {
            Err(c) => Err(c),
            Ok(c) => if results.last() {
                Ok(0)
            } else if c as int + 1 >= max {
                Err((c + 1) as u32)
            } else {
                Ok((c + 1) as u32)
            },
        }
    }
}

proof fn lemma_failure_run_below_max(results: Seq<bool>, max: u32)
    ensures
        failure_run(results, max) matches Ok(c) ==> (c == 0 || c < max),
    decreases results.len(),
{
    if results.len() > 0 {
        lemma_failure_run_below_max(results.drop_last(), max);
    }
}

proof fn lemma_err_sticks(results: Seq<bool>, max: u32, k: int)
    requires
        0 <= k <= results.len(),
        failure_run(results.subrange(0, k), max) is Err,
    ensures
        failure_run(results, max) == failure_run(results.subrange(0, k), max),
    decreases results.len(),
{
    if k < results.len() {
        assert(results.drop_last().subrange(0, k) =~= results.subrange(0, k));
        lemma_err_sticks(results.drop_last(), max, k);
    } else {
        assert(results.subrange(0, k) =~= results);
    }
}

/// Runs the failure count over a sequence of outcomes.
pub fn simulate_failure_sequence(results: &[bool], max_failures: u32) -> (r: Result<u32, u32>)
    ensures
        r == failure_run(results@, max_failures),
{
    let mut count: u32 = 0;
    let n = results.len();
    let mut k: usize = 0;
    while k < n
        invariant
            n == results@.len(),
            k <= n,
            failure_run(results@.subrange(0, k as int), max_failures) == Ok::<u32, u32>(count),
        decreases n - k,
    {
        proof {
            let sub = results@.subrange(0, k as int + 1);
            assert(sub.drop_last() =~= results@.subrange(0, k as int));
            lemma_failure_run_below_max(results@.subrange(0, k as int), max_failures);
        }
        if results[k] {
            count = 0;
        } else {
            count = count + 1;
            if count >= max_failures {
                proof { lemma_err_sticks(results@, max_failures, k as int + 1); }
                return Err(count);
            }
        }
        k = k + 1;
    }
    assert(results@.subrange(0, n as int) =~= results@);
    Ok(count)
}

/// With a maximum of `n`: fewer than `n` failures in a row leave the count at
/// their number, a success after `n - 1` failures brings it back to zero, and
/// the `n`-th failure in a row is fatal.
pub proof fn lemma_failure_counter(n: u32, k: nat)
    requires
        n >= 1,
        k < n,
    ensures
        failure_run(Seq::new(k, |i: int| false), n) == Ok::<u32, u32>(k as u32),
        failure_run(Seq::new((n - 1) as nat, |i: int| false).push(true), n) == Ok::<u32, u32>(0),
        failure_run(Seq::new(n as nat, |i: int| false), n) == Err::<u32, u32>(n),
    decreases k,
{
    if k > 0 {
        lemma_failure_counter(n, (k - 1) as nat);
        assert(Seq::new(k, |i: int| false).drop_last() =~= Seq::new((k - 1) as nat, |i: int| false));
    }
    lemma_all_failures(n, (n - 1) as nat);
    assert(Seq::new((n - 1) as nat, |i: int| false).push(true).drop_last() =~= Seq::new(
        (n - 1) as nat,
        |i: int| false,
    ));
    assert(Seq::new(n as nat, |i: int| false).drop_last() =~= Seq::new((n - 1) as nat, |i: int| false));
}

proof fn lemma_all_failures(n: u32, k: nat)
    requires
        k < n,
    ensures
        failure_run(Seq::new(k, |i: int| false), n) == Ok::<u32, u32>(k as u32),
    decreases k,
{
    if k > 0 {
        lemma_all_failures(n, (k - 1) as nat);
        assert(Seq::new(k, |i: int| false).drop_last() =~= Seq::new((k - 1) as nat, |i: int| false));
    }
}

} // verus!
