//! Scanners over whole blocks of tracing-runtime output: counting the golden
//! syscalls of a pod creation, and picking out the first throttle record.

use vstd::prelude::*;

use crate::strutil::{
    contains_sub, extract_metric, extract_metric_spec, extract_token, extract_token_spec,
    find_spec, split_lines, split_lines_spec,
};

verus! {

/// Counters of the syscalls that matter for container creation.
#[derive(Clone, Debug)]
pub struct GoldenSyscalls {
    pub clone_count: u64,
    pub mount_count: u64,
    pub cgroup_writes: u64,
    pub openat_count: u64,
}

impl GoldenSyscalls {
    /// Whether all four counters are zero.
    pub open spec fn is_zero(self) -> bool {
        self.clone_count == 0 && self.mount_count == 0 && self.cgroup_writes == 0
            && self.openat_count == 0
    }
}

impl Default for GoldenSyscalls {
    /// Zeroed counters.
    fn default() -> (r: GoldenSyscalls)
        ensures
            r.is_zero(),
    {
        GoldenSyscalls { clone_count: 0, mount_count: 0, cgroup_writes: 0, openat_count: 0 }
    }
}

/// Syscall statistics attributed to one pod's creation.
#[derive(Clone, Debug)]
pub struct PodSyscallStats {
    pub pod_name: String,
    pub total_syscalls: u64,
    pub golden_syscalls: GoldenSyscalls,
    pub duration_ms: u64,
}

/// How one output line moves the four golden counters
/// (clone, mount, openat, cgroup).
pub open spec fn golden_line_delta(l: Seq<char>) -> (int, int, int, int) {
    if find_spec(l, "GOLDEN_SYSCALL"@) is Some {
        if find_spec(l, "type=clone"@) is Some {
            (1, 0, 0, 0)
        } else if find_spec(l, "type=mount"@) is Some {
            (0, 1, 0, 0)
        } else if find_spec(l, "type=openat"@) is Some {
            (0, 0, 1, 0)
        } else if find_spec(l, "cgroup"@) is Some {
            (0, 0, 0, 1)
        } else {
            (0, 0, 0, 0)
        }
    } else if find_spec(l, "cgroup write detected"@) is Some {
        (0, 0, 0, 1)
    } else {
        (0, 0, 0, 0)
    }
}

/// The golden counters over a block of lines
/// (clone, mount, openat, cgroup).
pub open spec fn golden_counts(lines: Seq<Seq<char>>) -> (int, int, int, int)
    decreases lines.len(),
{
    if lines.len() == 0 {
        (0, 0, 0, 0)
    } else {
        let (a, b, c, d) = golden_counts(lines.drop_last());
        let (e, f, g, h) = golden_line_delta(lines.last());
        (a + e, b + f, c + g, d + h)
    }
}

/// Every golden counter is bounded by the number of lines counted.
proof fn lemma_golden_counts_bounded(lines: Seq<Seq<char>>)
    ensures
        ({
            let (a, b, c, d) = golden_counts(lines);
            0 <= a <= lines.len() && 0 <= b <= lines.len() && 0 <= c <= lines.len() && 0 <= d
                <= lines.len()
        }),
    decreases lines.len(),
{
    if lines.len() > 0 {
        lemma_golden_counts_bounded(lines.drop_last());
    }
}

/// Counts the golden syscalls that a block of tracing output reports: one
/// `GOLDEN_SYSCALL` line counts towards its `type=`, and cgroup writes are
/// counted from either record form.
pub fn parse_golden_syscalls(bpftrace_output: &str) -> (r: GoldenSyscalls)
    ensures
        ({
            let (cl, mo, op, cg) = golden_counts(split_lines_spec(bpftrace_output@));
            r.clone_count == cl && r.mount_count == mo && r.openat_count == op
                && r.cgroup_writes == cg
        }),
{
    let lines = split_lines(bpftrace_output);
    let ghost lv = split_lines_spec(bpftrace_output@);
    let mut golden = GoldenSyscalls { clone_count: 0, mount_count: 0, cgroup_writes: 0, openat_count: 0 };
    let mut i: usize = 0;
    while i < lines.len()
        invariant
            lines@.len() == lv.len(),
            forall|j: int| 0 <= j < lv.len() ==> lines@[j]@ == lv[j],
            i <= lv.len(),
            golden.clone_count <= i,
            golden.mount_count <= i,
            golden.openat_count <= i,
            golden.cgroup_writes <= i,
            ({
                let (cl, mo, op, cg) = golden_counts(lv.take(i as int));
                golden.clone_count == cl && golden.mount_count == mo && golden.openat_count == op
                    && golden.cgroup_writes == cg
            }),
        decreases lv.len() - i,
    {
        let line = &lines[i];
        proof {
            assert(lv.take(i + 1 as int).drop_last() =~= lv.take(i as int));
            assert(lv.take(i + 1 as int).last() == lv[i as int]);
        }
        if contains_sub(line.as_str(), "GOLDEN_SYSCALL") {
            if contains_sub(line.as_str(), "type=clone") {
                golden.clone_count = golden.clone_count + 1;
            } else if contains_sub(line.as_str(), "type=mount") {
                golden.mount_count = golden.mount_count + 1;
            } else if contains_sub(line.as_str(), "type=openat") {
                golden.openat_count = golden.openat_count + 1;
            } else if contains_sub(line.as_str(), "cgroup") {
                golden.cgroup_writes = golden.cgroup_writes + 1;
            }
        } else if contains_sub(line.as_str(), "cgroup write detected") {
            golden.cgroup_writes = golden.cgroup_writes + 1;
        }
        i = i + 1;
    }
    proof {
        assert(lv.take(lv.len() as int) =~= lv);
    }
    golden
}

/// One throttle record as picked out of raw tracing output.
#[derive(Clone, Debug)]
pub struct CpuThrottleEvent {
    pub pid: u32,
    pub comm: String,
    pub throttle_ns: u64,
}

impl View for CpuThrottleEvent {
    type V = (u32, Seq<char>, u64);

    open spec fn view(&self) -> (u32, Seq<char>, u64) {
        (self.pid, self.comm@, self.throttle_ns)
    }
}

/// The throttle record of one output line: the line must carry the tag, a
/// non-empty `comm=` and a positive pid; a missing or oversized field reads
/// as zero, as the stream's producer leaves fields it cannot fill at zero.
pub open spec fn throttle_line_event(l: Seq<char>) -> Option<(u32, Seq<char>, u64)> {
    if find_spec(l, "CPU_THROTTLE_EVENT"@) is Some {
        let pid: u32 = match extract_metric_spec(l, "pid="@) {
            Some(v) => if v <= u32::MAX {
                v as u32
            } else {
                0u32
            },
            None => 0u32,
        };
        let tns: u64 = match extract_metric_spec(l, "throttle_ns="@) {
            Some(v) => v,
            None => 0u64,
        };
        match extract_token_spec(l, "comm="@) {
            Some(comm) => if pid > 0 {
                Some((pid, comm, tns))
            } else {
                None
            },
            None => None,
        }
    } else {
        None
    }
}

/// The first line of a block that carries a complete throttle record.
pub open spec fn first_throttle_event(lines: Seq<Seq<char>>) -> Option<(u32, Seq<char>, u64)>
    decreases lines.len(),
{
    if lines.len() == 0 {
        None
    } else {
        match throttle_line_event(lines[0]) {
            Some(e) => Some(e),
            None => first_throttle_event(lines.skip(1)),
        }
    }
}

/// Picks the first complete `CPU_THROTTLE_EVENT` record out of a block of
/// tracing output, or nothing where no line carries one.
pub fn parse_cpu_throttling(bpftrace_output: &str) -> (r: Option<CpuThrottleEvent>)
    ensures
        match r {
            Some(e) => first_throttle_event(split_lines_spec(bpftrace_output@)) == Some(e@),
            None => first_throttle_event(split_lines_spec(bpftrace_output@)) is None,
        },
{
    let lines = split_lines(bpftrace_output);
    let ghost lv = split_lines_spec(bpftrace_output@);
    proof {
        assert(lv.skip(0) =~= lv);
    }
    let mut i: usize = 0;
    while i < lines.len()
        invariant
            lv == split_lines_spec(bpftrace_output@),
            lines@.len() == lv.len(),
            forall|j: int| 0 <= j < lv.len() ==> lines@[j]@ == lv[j],
            i <= lv.len(),
            first_throttle_event(lv.skip(i as int)) == first_throttle_event(lv),
        decreases lv.len() - i,
    {
        let line = &lines[i];
        proof {
            assert(lv.skip(i as int)[0] == lv[i as int]);
            assert(lv.skip(i as int).skip(1) =~= lv.skip(i + 1 as int));
        }
        let mut found: Option<CpuThrottleEvent> = None;
        if contains_sub(line.as_str(), "CPU_THROTTLE_EVENT") {
            let pid64 = extract_metric(line.as_str(), "pid=");
            let tns64 = extract_metric(line.as_str(), "throttle_ns=");
            let comm = extract_token(line.as_str(), "comm=");
            let pid: u32 = match pid64 {
                Some(v) => if v <= u32::MAX as u64 {
                    v as u32
                } else {
                    0
                },
                None => 0,
            };
            let throttle_ns: u64 = match tns64 {
                Some(v) => v,
                None => 0,
            };
            if let Some(comm) = comm {
                if pid > 0 {
                    found = Some(CpuThrottleEvent { pid, comm, throttle_ns });
                }
            }
        }
        match found {
            Some(e) => {
                proof {
                    assert(throttle_line_event(lv[i as int]) == Some(e@));
                    assert(first_throttle_event(lv.skip(i as int)) == Some(e@));
                }
                return Some(e);
            },
            None => {
                proof {
                    assert(throttle_line_event(lv[i as int]) is None);
                }
            },
        }
        i = i + 1;
    }
    proof {
        assert(lv.skip(lv.len() as int) =~= Seq::<Seq<char>>::empty());
    }
    None
}

} // verus!
