use vstd::prelude::*;

use crate::config::Config;
use crate::script::{entry_views, ScriptLogEntry, ScriptOutput};
use crate::text::{decimal, decimal_string};

verus! {

/// Bytes in one mebibyte.
pub const BYTES_PER_MB: usize = 1048576;

/// The time check runs once per this many guest instructions.
pub const HOOK_INSTRUCTION_INTERVAL: u32 = 10000;

/// The longest that one guest `sleep` call may pause, in milliseconds.
pub const MAX_SLEEP_MS: u64 = 1000;

/// Nanoseconds in one millisecond.
pub const NANOS_PER_MS: u64 = 1000000;

/// The ceilings of one run, read from the settings at its start.
#[derive(Debug, Clone, Copy)]
pub struct ExecutionLimits {
    /// Interpreter heap ceiling in bytes; zero means no ceiling.
    pub max_memory_bytes: usize,
    /// Wall-clock budget in milliseconds.
    pub max_wall_time_ms: u64,
}

/// `mb` mebibytes in bytes, held at the largest `usize` where it would not fit.
pub open spec fn memory_bytes_of(mb: usize) -> usize {
    if mb as int * BYTES_PER_MB as int > usize::MAX as int {
        usize::MAX
    } else {
        (mb as int * BYTES_PER_MB as int) as usize
    }
}

impl ExecutionLimits {
    /// The limits that the settings give.
    pub fn from_config(cfg: &Config) -> (r: ExecutionLimits)
        ensures
            r.max_memory_bytes == memory_bytes_of(cfg.script_memory_mb),
            r.max_wall_time_ms == cfg.script_timeout_ms,
    {
        let mb = cfg.script_memory_mb;
        let bytes = if mb > usize::MAX / BYTES_PER_MB {
            assert(mb as int * BYTES_PER_MB as int > usize::MAX as int) by (nonlinear_arith)
                requires
                    mb > usize::MAX / BYTES_PER_MB,
            ;
            usize::MAX
        } else {
            assert(mb as int * BYTES_PER_MB as int <= usize::MAX as int) by (nonlinear_arith)
                requires
                    mb <= usize::MAX / BYTES_PER_MB,
            ;
            mb * BYTES_PER_MB
        };
        ExecutionLimits { max_memory_bytes: bytes, max_wall_time_ms: cfg.script_timeout_ms }
    }

    /// The allocation ceiling to set on the interpreter: none where the
    /// configured value is zero.
    pub fn memory_ceiling(&self) -> (r: Option<usize>)
        ensures
            self.max_memory_bytes == 0 ==> r is None,
            self.max_memory_bytes != 0 ==> r == Some(self.max_memory_bytes),
    {
        if self.max_memory_bytes > 0 {
            Some(self.max_memory_bytes)
        } else {
            None
        }
    }

    /// Whether a run that has been going for `elapsed_ns` nanoseconds is
    /// past its budget and must be stopped.
    pub fn time_exceeded(&self, elapsed_ns: u64) -> (r: bool)
        ensures
            r == (elapsed_ns as int > self.max_wall_time_ms as int * NANOS_PER_MS as int),
    {
        if self.max_wall_time_ms > u64::MAX / NANOS_PER_MS {
            false
        } else {
            elapsed_ns > self.max_wall_time_ms * NANOS_PER_MS
        }
    }
}

/// The message of a run stopped for running past its budget.
pub open spec fn timeout_text(max_ms: u64) -> Seq<char> {
    "script execution timed out (>"@ + decimal(max_ms as nat) + "ms)"@
}

/// The error that the time check raises.
pub fn timeout_message(max_ms: u64) -> (r: String)
    ensures
        r@ == timeout_text(max_ms),
{
    let digits = decimal_string(max_ms);
    String::from_str("script execution timed out (>").concat(digits.as_str()).concat("ms)")
}

/// How long a guest `sleep(ms)` actually pauses.
pub fn clamp_sleep_ms(ms: u64) -> (r: u64)
    ensures
        r == if ms < MAX_SLEEP_MS { ms } else { MAX_SLEEP_MS },
{
    if ms < MAX_SLEEP_MS {
        ms
    } else {
        MAX_SLEEP_MS
    }
}

/// Assembles the result of a run from what was captured, whether the guest
/// finished, failed or was stopped.
pub fn finish_run(
    logs: Vec<ScriptLogEntry>,
    error: Option<String>,
    duration_ms: u64,
    memory_used: usize,
) -> (r: ScriptOutput)
    ensures
        entry_views(r.logs@) == entry_views(logs@),
        r.error == error,
        r.duration_ms == duration_ms,
        r.memory_used == memory_used,
{
    ScriptOutput { logs, error, duration_ms, memory_used }
}

} // verus!
