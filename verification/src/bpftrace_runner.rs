//! Scanners for the tracing runtime's summary records: the `POD_READY`
//! syscall totals of one pod creation, and the throttle counters of a
//! `cpu.stat` cgroup file.
//!
//! The unverified rim spawns the tracing process and reads the files; the
//! parsing of what came back happens here.

use vstd::prelude::*;

use crate::strutil::{
    all_digits, digits_val, extract_metric, extract_metric_spec, match_at, parse_u64,
    split_char_spec, split_lines, split_lines_spec, split_on, starts_with, str_eq,
};

verus! {

/// Marker for the tracing-process runner.
pub struct BpftraceRunner;

/// Syscall statistics of one pod creation, read from the trace summary.
#[derive(Clone, Debug)]
pub struct SyscallStats {
    pub pod_name: String,
    pub total_syscalls: u64,
    pub clone_count: u32,
    pub execve_count: u32,
    pub mount_count: u32,
    pub setns_count: u32,
}

/// One throttling reading of a cgroup's `cpu.stat` counters.
#[derive(Clone, Debug)]
pub struct ThrottleDetection {
    pub pod_name: String,
    pub container_id: String,
    pub throttle_percentage_tenths: u64,
    pub nr_throttled: u64,
    pub nr_periods: u64,
}

/// A `u32` field of a summary record: a missing or oversized value reads as
/// zero.
pub open spec fn field_u32(line: Seq<char>, key: Seq<char>) -> int {
    match extract_metric_spec(line, key) {
        Some(v) => if v <= u32::MAX {
            v as int
        } else {
            0
        },
        None => 0,
    }
}

/// A `u64` field of a summary record: a missing value reads as zero.
pub open spec fn field_u64(line: Seq<char>, key: Seq<char>) -> int {
    match extract_metric_spec(line, key) {
        Some(v) => v as int,
        None => 0,
    }
}

/// The totals of the last `POD_READY` line of a trace, as
/// (total, clone, execve, mount, setns); all zero where no line reports.
pub open spec fn pod_ready_totals(lines: Seq<Seq<char>>) -> (int, int, int, int, int)
    decreases lines.len(),
{
    if lines.len() == 0 {
        (0, 0, 0, 0, 0)
    } else if match_at(lines.last(), "POD_READY"@, 0) {
        (
            field_u64(lines.last(), "total="@),
            field_u32(lines.last(), "clone="@),
            field_u32(lines.last(), "execve="@),
            field_u32(lines.last(), "mount="@),
            field_u32(lines.last(), "setns="@),
        )
    } else {
        pod_ready_totals(lines.drop_last())
    }
}

impl BpftraceRunner {
    /// Reads the syscall totals of a pod creation out of the tracing output:
    /// the last `POD_READY` summary line decides, and a trace without one
    /// reports all zeroes.
    pub fn parse_syscall_stats(output: &str, pod_name: &str) -> (r: SyscallStats)
        ensures
            r.pod_name@ == pod_name@,
            ({
                let (t, c, e, m, s) = pod_ready_totals(split_lines_spec(output@));
                &&& r.total_syscalls == t
                &&& r.clone_count == c
                &&& r.execve_count == e
                &&& r.mount_count == m
                &&& r.setns_count == s
            }),
    {
        let lines = split_lines(output);
        let ghost lv = split_lines_spec(output@);
        let mut stats = SyscallStats {
            pod_name: pod_name.to_owned(),
            total_syscalls: 0,
            clone_count: 0,
            execve_count: 0,
            mount_count: 0,
            setns_count: 0,
        };
        let mut i: usize = 0;
        while i < lines.len()
            invariant
                lines@.len() == lv.len(),
                forall|j: int| 0 <= j < lv.len() ==> lines@[j]@ == lv[j],
                i <= lv.len(),
                stats.pod_name@ == pod_name@,
                ({
                    let (t, c, e, m, s) = pod_ready_totals(lv.subrange(0, i as int));
                    &&& stats.total_syscalls == t
                    &&& stats.clone_count == c
                    &&& stats.execve_count == e
                    &&& stats.mount_count == m
                    &&& stats.setns_count == s
                }),
            decreases lv.len() - i,
        {
            let line = &lines[i];
            proof {
                assert(lv.subrange(0, i + 1 as int).drop_last() =~= lv.subrange(0, i as int));
                assert(lv.subrange(0, i + 1 as int).last() == lv[i as int]);
            }
            if starts_with(line.as_str(), "POD_READY") {
                stats.total_syscalls = extract_u64_or_zero(line.as_str(), "total=");
                stats.clone_count = extract_u32_or_zero(line.as_str(), "clone=");
                stats.execve_count = extract_u32_or_zero(line.as_str(), "execve=");
                stats.mount_count = extract_u32_or_zero(line.as_str(), "mount=");
                stats.setns_count = extract_u32_or_zero(line.as_str(), "setns=");
            }
            i = i + 1;
        }
        proof {
            assert(lv.subrange(0, lv.len() as int) =~= lv);
        }
        stats
    }
}

/// Reads a `u64` field out of a summary record, zero where missing.
fn extract_u64_or_zero(line: &str, key: &str) -> (r: u64)
    ensures
        r == field_u64(line@, key@),
{
    match extract_metric(line, key) {
        Some(v) => v,
        None => 0,
    }
}

/// Reads a `u32` field out of a summary record, zero where missing or
/// oversized.
fn extract_u32_or_zero(line: &str, key: &str) -> (r: u32)
    ensures
        r == field_u32(line@, key@),
{
    match extract_metric(line, key) {
        Some(v) => if v <= u32::MAX as u64 {
            v as u32
        } else {
            0
        },
        None => 0,
    }
}

/// Whether a `cpu.stat` line is `<key> <digits>`: exactly two space-separated
/// segments, the first the key.
pub open spec fn cpu_stat_line_matches(line: Seq<char>, key: Seq<char>) -> bool {
    let parts = split_char_spec(line, ' ');
    parts.len() == 2 && parts[0] == key
}

/// The value of a matching `cpu.stat` line: its second segment as a number,
/// or zero where it does not parse.
pub open spec fn cpu_stat_line_value(line: Seq<char>) -> int {
    let parts = split_char_spec(line, ' ');
    let v = parts[1];
    if v.len() > 0 && all_digits(v) && digits_val(v) <= u64::MAX {
        digits_val(v)
    } else {
        0
    }
}

/// The counter a whole `cpu.stat` file reports under `key`: the last matching
/// line decides, and a file without one reports zero.
pub open spec fn cpu_stat_field(lines: Seq<Seq<char>>, key: Seq<char>) -> int
    decreases lines.len(),
{
    if lines.len() == 0 {
        0
    } else if cpu_stat_line_matches(lines.last(), key) {
        cpu_stat_line_value(lines.last())
    } else {
        cpu_stat_field(lines.drop_last(), key)
    }
}

/// Reads one counter out of the content of a cgroup `cpu.stat` file.
pub fn parse_cpu_stat_field(content: &str, key: &str) -> (r: u64)
    ensures
        r == cpu_stat_field(split_lines_spec(content@), key@),
{
    let lines = split_lines(content);
    let ghost lv = split_lines_spec(content@);
    let mut value: u64 = 0;
    let mut i: usize = 0;
    while i < lines.len()
        invariant
            lines@.len() == lv.len(),
            forall|j: int| 0 <= j < lv.len() ==> lines@[j]@ == lv[j],
            i <= lv.len(),
            value == cpu_stat_field(lv.subrange(0, i as int), key@),
        decreases lv.len() - i,
    {
        let line = &lines[i];
        proof {
            assert(lv.subrange(0, i + 1 as int).drop_last() =~= lv.subrange(0, i as int));
            assert(lv.subrange(0, i + 1 as int).last() == lv[i as int]);
            reveal_strlit(" ");
            assert(" "@ =~= seq![' ']);
        }
        let parts = split_on(line.as_str(), " ");
        if parts.len() == 2 && str_eq(parts[0].as_str(), key) {
            proof {
                assert(split_char_spec(lv[i as int], ' ')[0] == parts@[0]@);
                assert(split_char_spec(lv[i as int], ' ')[1] == parts@[1]@);
            }
            value = match parse_u64(parts[1].as_str()) {
                Some(v) => v,
                None => 0,
            };
        } else {
            proof {
                if parts@.len() == 2 {
                    assert(split_char_spec(lv[i as int], ' ')[0] == parts@[0]@);
                }
            }
        }
        i = i + 1;
    }
    proof {
        assert(lv.subrange(0, lv.len() as int) =~= lv);
    }
    value
}

/// The share of scheduler periods that were throttled, in tenths of a
/// percent, rounded to the nearest tenth; zero where no period elapsed, and
/// capped at what a `u64` can hold.
pub open spec fn throttle_ratio_tenths_spec(nr_throttled: int, nr_periods: int) -> int {
    if nr_periods == 0 {
        0
    } else {
        let v = (nr_throttled * 1000 + nr_periods / 2) / nr_periods;
        if v > u64::MAX {
            u64::MAX as int
        } else {
            v
        }
    }
}

/// Computes the throttled share of scheduler periods in tenths of a percent.
pub fn throttle_ratio_tenths(nr_throttled: u64, nr_periods: u64) -> (r: u64)
    ensures
        r == throttle_ratio_tenths_spec(nr_throttled as int, nr_periods as int),
{
    if nr_periods == 0 {
        return 0;
    }
    let wide: u128 = ((nr_throttled as u128) * 1000 + (nr_periods as u128) / 2)
        / (nr_periods as u128);
    if wide > u64::MAX as u128 {
        u64::MAX
    } else {
        wide as u64
    }
}

} // verus!
