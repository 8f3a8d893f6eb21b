//! Aggregation of in-kernel counter maps: turning the raw per-syscall counts
//! that the tracing programs maintain into summary statistics.
//!
//! The unverified rim loads the kernel programs and reads their maps; the
//! folds over what was read happen here.

use vstd::prelude::*;

use crate::actions::{sat_add32, sat_add64, sat_add_u32, sat_add_u64};

verus! {

/// Summary statistics over the syscall counter map.
#[derive(Clone, Copy, Debug)]
pub struct SyscallStats {
    pub total_syscalls: u64,
    pub clone_count: u32,
    pub execve_count: u32,
    pub mount_count: u32,
    pub setns_count: u32,
}

impl SyscallStats {
    /// Whether all counters are zero.
    pub open spec fn is_zero(self) -> bool {
        self.total_syscalls == 0 && self.clone_count == 0 && self.execve_count == 0
            && self.mount_count == 0 && self.setns_count == 0
    }
}

impl Default for SyscallStats {
    /// Zeroed counters.
    fn default() -> (r: SyscallStats)
        ensures
            r.is_zero(),
    {
        SyscallStats {
            total_syscalls: 0,
            clone_count: 0,
            execve_count: 0,
            mount_count: 0,
            setns_count: 0,
        }
    }
}

/// The written-out name of a traced syscall number.
pub open spec fn syscall_name_spec(id: u32) -> Seq<char> {
    if id == 1 {
        "write"@
    } else if id == 56 {
        "clone"@
    } else if id == 59 {
        "execve"@
    } else if id == 165 {
        "mount"@
    } else if id == 257 {
        "openat"@
    } else if id == 308 {
        "setns"@
    } else {
        "unknown"@
    }
}

/// Names a traced syscall number.
pub fn syscall_name(id: u32) -> (r: &'static str)
    ensures
        r@ == syscall_name_spec(id),
{
    if id == 1 {
        "write"
    } else if id == 56 {
        "clone"
    } else if id == 59 {
        "execve"
    } else if id == 165 {
        "mount"
    } else if id == 257 {
        "openat"
    } else if id == 308 {
        "setns"
    } else {
        "unknown"
    }
}

/// How one `(syscall id, count)` map entry moves the summary counters.
pub open spec fn stats_step(s: SyscallStats, e: (u32, u64)) -> SyscallStats {
    let total = sat_add_u64(s.total_syscalls as int, e.1 as int) as u64;
    let capped = if e.1 > u32::MAX {
        u32::MAX as int
    } else {
        e.1 as int
    };
    if e.0 == 56 {
        SyscallStats {
            total_syscalls: total,
            clone_count: sat_add_u32(s.clone_count as int, capped) as u32,
            ..s
        }
    } else if e.0 == 59 {
        SyscallStats {
            total_syscalls: total,
            execve_count: sat_add_u32(s.execve_count as int, capped) as u32,
            ..s
        }
    } else if e.0 == 165 {
        SyscallStats {
            total_syscalls: total,
            mount_count: sat_add_u32(s.mount_count as int, capped) as u32,
            ..s
        }
    } else if e.0 == 308 {
        SyscallStats {
            total_syscalls: total,
            setns_count: sat_add_u32(s.setns_count as int, capped) as u32,
            ..s
        }
    } else {
        SyscallStats { total_syscalls: total, ..s }
    }
}

/// The summary over a whole counter map.
pub open spec fn stats_fold(entries: Seq<(u32, u64)>) -> SyscallStats
    decreases entries.len(),
{
    if entries.len() == 0 {
        SyscallStats {
            total_syscalls: 0,
            clone_count: 0,
            execve_count: 0,
            mount_count: 0,
            setns_count: 0,
        }
    } else {
        stats_step(stats_fold(entries.drop_last()), entries.last())
    }
}

/// Folds the `(syscall id, count)` entries of the kernel counter map into
/// summary statistics: every count joins the total, and the clone, execve,
/// mount and setns counts are tracked apart (saturating at the counters'
/// width).
pub fn aggregate_syscall_counts(entries: &Vec<(u32, u64)>) -> (r: SyscallStats)
    ensures
        r == stats_fold(entries@),
{
    let mut stats = SyscallStats {
        total_syscalls: 0,
        clone_count: 0,
        execve_count: 0,
        mount_count: 0,
        setns_count: 0,
    };
    let mut i: usize = 0;
    while i < entries.len()
        invariant
            i <= entries@.len(),
            stats == stats_fold(entries@.subrange(0, i as int)),
        decreases entries@.len() - i,
    {
        let (id, cnt) = entries[i];
        proof {
            assert(entries@.subrange(0, i + 1 as int).drop_last() =~= entries@.subrange(
                0,
                i as int,
            ));
            assert(entries@.subrange(0, i + 1 as int).last() == entries@[i as int]);
        }
        stats.total_syscalls = sat_add64(stats.total_syscalls, cnt);
        let capped: u32 = if cnt > u32::MAX as u64 {
            u32::MAX
        } else {
            cnt as u32
        };
        if id == 56 {
            stats.clone_count = sat_add32(stats.clone_count, capped);
        } else if id == 59 {
            stats.execve_count = sat_add32(stats.execve_count, capped);
        } else if id == 165 {
            stats.mount_count = sat_add32(stats.mount_count, capped);
        } else if id == 308 {
            stats.setns_count = sat_add32(stats.setns_count, capped);
        }
        i = i + 1;
    }
    proof {
        assert(entries@.subrange(0, entries@.len() as int) =~= entries@);
    }
    stats
}

/// A cgroup seen throttling, read out of the kernel throttle-counter map.
#[derive(Clone, Copy, Debug)]
pub struct ThrottleDetection {
    pub cgroup_id: u64,
    pub throttle_count: u64,
    pub detected_at_ms: u64,
}

/// The throttled cgroups of a counter map: every entry with a positive count,
/// in map-read order.
pub open spec fn detections_spec(entries: Seq<(u64, u64)>) -> Seq<(u64, u64)>
    decreases entries.len(),
{
    if entries.len() == 0 {
        Seq::empty()
    } else {
        let rest = detections_spec(entries.drop_last());
        if entries.last().1 > 0 {
            rest.push(entries.last())
        } else {
            rest
        }
    }
}

/// Picks the throttled cgroups out of the `(cgroup id, throttle count)`
/// entries of the kernel map, stamping each with the passed clock reading.
pub fn throttle_detections(entries: &Vec<(u64, u64)>, now_ms: u64) -> (r: Vec<ThrottleDetection>)
    ensures
        r@.len() == detections_spec(entries@).len(),
        forall|i: int|
            0 <= i < r@.len() ==> {
                &&& (#[trigger] r@[i]).cgroup_id == detections_spec(entries@)[i].0
                &&& r@[i].throttle_count == detections_spec(entries@)[i].1
                &&& r@[i].detected_at_ms == now_ms
            },
{
    let mut out: Vec<ThrottleDetection> = Vec::new();
    let mut i: usize = 0;
    while i < entries.len()
        invariant
            i <= entries@.len(),
            out@.len() == detections_spec(entries@.subrange(0, i as int)).len(),
            forall|j: int|
                0 <= j < out@.len() ==> {
                    &&& (#[trigger] out@[j]).cgroup_id == detections_spec(
                        entries@.subrange(0, i as int),
                    )[j].0
                    &&& out@[j].throttle_count == detections_spec(
                        entries@.subrange(0, i as int),
                    )[j].1
                    &&& out@[j].detected_at_ms == now_ms
                },
        decreases entries@.len() - i,
    {
        let (cgroup_id, throttle_count) = entries[i];
        proof {
            assert(entries@.subrange(0, i + 1 as int).drop_last() =~= entries@.subrange(
                0,
                i as int,
            ));
            assert(entries@.subrange(0, i + 1 as int).last() == entries@[i as int]);
        }
        if throttle_count > 0 {
            out.push(ThrottleDetection { cgroup_id, throttle_count, detected_at_ms: now_ms });
        }
        i = i + 1;
    }
    proof {
        assert(entries@.subrange(0, entries@.len() as int) =~= entries@);
    }
    out
}

} // verus!
