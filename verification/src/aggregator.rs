//! The observer aggregator: tracks container-runtime lineages per pid,
//! accumulates their counters, and decides which events publish payloads.
//!
//! A lineage is born observed, becomes a runtime lineage when its process
//! name is in the runtime set (or its parent already is one), is marked
//! main-found when the container's primary process appears, and completes on
//! the birth-complete record, which is the publish trigger. Records die on
//! process exit and are reaped after a bounded idle interval.

use std::collections::HashMap;

use vstd::prelude::*;

use crate::actions::{sat_add64, sat_add_u64};
use crate::parser::TraceEvent;
use crate::resolver::{is_container_runtime, is_runtime_comm};

verus! {

broadcast use vstd::std_specs::hash::group_hash_axioms;

/// Where a lineage stands in its life cycle.
#[derive(Clone, Copy, Debug, PartialEq, Eq, Structural)]
pub enum LineageState {
    Observed,
    Runtime,
    MainFound,
    Completed,
}

/// What the observer knows about one process lineage.
#[derive(Clone, Copy, Debug)]
pub struct LineageRecord {
    pub pid: u32,
    pub parent_pid: Option<u32>,
    pub is_runtime: bool,
    pub state: LineageState,
    pub started_at_ms: u64,
    pub syscall_count: u64,
    pub namespace_op_count: u64,
    pub mount_op_count: u64,
    pub main_child_pid: Option<u32>,
    pub last_update_ms: u64,
}

/// What the observer should do after one event: nothing, attempt a workload
/// resolution, or resolve and publish a payload.
#[derive(Clone, Copy, Debug, PartialEq, Eq, Structural)]
pub enum ObserverAction {
    Nothing,
    TryResolve { pid: u32 },
    PublishCreation {
        pid: u32,
        total_syscalls: u64,
        namespace_ops: u64,
        mount_ops: u64,
        duration_ns: u64,
    },
    PublishThrottle { pid: u32, throttle_ns: u64 },
}

/// Whether a pid's parent lineage is a runtime lineage.
pub open spec fn parent_is_runtime(m: Map<u32, LineageRecord>, ppid: u32) -> bool {
    m.contains_key(ppid) && m[ppid].is_runtime
}

/// The fresh record a process-start event creates.
pub open spec fn start_record(
    m: Map<u32, LineageRecord>,
    pid: u32,
    ppid: u32,
    comm: Seq<char>,
    timestamp_ms: u64,
) -> LineageRecord {
    let runtime = is_runtime_comm(comm) || parent_is_runtime(m, ppid);
    LineageRecord {
        pid,
        parent_pid: Some(ppid),
        is_runtime: runtime,
        state: if runtime {
            LineageState::Runtime
        } else {
            LineageState::Observed
        },
        started_at_ms: timestamp_ms,
        syscall_count: 0,
        namespace_op_count: 0,
        mount_op_count: 0,
        main_child_pid: None,
        last_update_ms: timestamp_ms,
    }
}

/// A record with its namespace-operation counter stepped.
pub open spec fn ns_op_record(r: LineageRecord, ts: u64) -> LineageRecord {
    LineageRecord {
        namespace_op_count: sat_add_u64(r.namespace_op_count as int, 1) as u64,
        last_update_ms: ts,
        ..r
    }
}

/// A record with its mount-operation counter stepped.
pub open spec fn mount_op_record(r: LineageRecord, ts: u64) -> LineageRecord {
    LineageRecord {
        mount_op_count: sat_add_u64(r.mount_op_count as int, 1) as u64,
        last_update_ms: ts,
        ..r
    }
}

/// A record with its syscall counter set to the reported running total.
pub open spec fn syscalls_record(r: LineageRecord, total: u64, ts: u64) -> LineageRecord {
    LineageRecord { syscall_count: total, last_update_ms: ts, ..r }
}

/// The parent's record once its main child is found.
pub open spec fn main_parent_record(r: LineageRecord, child: u32, ts: u64) -> LineageRecord {
    LineageRecord {
        main_child_pid: Some(child),
        state: LineageState::MainFound,
        last_update_ms: ts,
        ..r
    }
}

/// The child's record once it is known to be the container's main process:
/// the runtime flag stops propagating into this subtree.
pub open spec fn main_child_record(r: LineageRecord, ts: u64) -> LineageRecord {
    LineageRecord { is_runtime: false, last_update_ms: ts, ..r }
}

/// A completed record: the completion totals are authoritative.
pub open spec fn completed_record(
    r: LineageRecord,
    total_syscalls: u64,
    namespace_ops: u64,
    mount_ops: u64,
    ts: u64,
) -> LineageRecord {
    LineageRecord {
        state: LineageState::Completed,
        syscall_count: total_syscalls,
        namespace_op_count: namespace_ops,
        mount_op_count: mount_ops,
        last_update_ms: ts,
        ..r
    }
}

/// The per-node observer aggregator.
pub struct ObserverAggregator {
    table: HashMap<u32, LineageRecord>,
    pids: Vec<u32>,
}

impl ObserverAggregator {
    /// The records, keyed by pid.
    pub closed spec fn view(&self) -> Map<u32, LineageRecord> {
        self.table@
    }

    /// Every record sits under its own pid, and every tracked pid is
    /// remembered for reaping.
    pub closed spec fn wf(&self) -> bool {
        &&& forall|k: u32| self.table@.contains_key(k) ==> (#[trigger] self.table@[k]).pid == k
        &&& forall|k: u32| self.table@.contains_key(k) ==> self.pids@.contains(k)
    }

    /// Builds an empty aggregator.
    pub fn new() -> (r: ObserverAggregator)
        ensures
            r.wf(),
            r@ == Map::<u32, LineageRecord>::empty(),
    {
        ObserverAggregator { table: HashMap::new(), pids: Vec::new() }
    }

    /// The number of tracked lineages.
    pub fn len(&self) -> (r: usize)
        ensures
            r == self@.dom().len(),
    {
        self.table.len()
    }

    /// Feeds one trace event through the lineage state machine. The table
    /// moves as the event dictates, and the returned action says what the
    /// observer must do next: a throttle event always asks for a resolve and
    /// a throttle publish, a birth completion always asks for a resolve and a
    /// creation publish with the completion's own totals, a main event asks
    /// for a resolution attempt, everything else is internal bookkeeping.
    pub fn observe_event(&mut self, ev: &TraceEvent) -> (r: ObserverAction)
        requires
            old(self).wf(),
        ensures
            final(self).wf(),
            match ev {
                TraceEvent::CpuThrottle { pid, throttle_ns, .. } => {
                    &&& final(self)@ == old(self)@
                    &&& r == (ObserverAction::PublishThrottle {
                        pid: *pid,
                        throttle_ns: *throttle_ns,
                    })
                },
                TraceEvent::ProcessStart { pid, ppid, comm, timestamp_ms } => {
                    &&& final(self)@ == old(self)@.insert(
                        *pid,
                        start_record(old(self)@, *pid, *ppid, comm@, *timestamp_ms),
                    )
                    &&& r == ObserverAction::Nothing
                },
                TraceEvent::NamespaceOp { pid, timestamp_ms, .. } => {
                    &&& final(self)@ == if old(self)@.contains_key(*pid) {
                        old(self)@.insert(*pid, ns_op_record(old(self)@[*pid], *timestamp_ms))
                    } else {
                        old(self)@
                    }
                    &&& r == ObserverAction::Nothing
                },
                TraceEvent::MountOp { pid, timestamp_ms, .. } => {
                    &&& final(self)@ == if old(self)@.contains_key(*pid) {
                        old(self)@.insert(*pid, mount_op_record(old(self)@[*pid], *timestamp_ms))
                    } else {
                        old(self)@
                    }
                    &&& r == ObserverAction::Nothing
                },
                TraceEvent::SyscallProgress { pid, total, timestamp_ms } => {
                    &&& final(self)@ == if old(self)@.contains_key(*pid) {
                        old(self)@.insert(
                            *pid,
                            syscalls_record(old(self)@[*pid], *total, *timestamp_ms),
                        )
                    } else {
                        old(self)@
                    }
                    &&& r == ObserverAction::Nothing
                },
                TraceEvent::Main { pid, ppid, timestamp_ms, .. } => {
                    &&& ({
                        let after_parent = if old(self)@.contains_key(*ppid) {
                            old(self)@.insert(
                                *ppid,
                                main_parent_record(old(self)@[*ppid], *pid, *timestamp_ms),
                            )
                        } else {
                            old(self)@
                        };
                        final(self)@ == if after_parent.contains_key(*pid) {
                            after_parent.insert(
                                *pid,
                                main_child_record(after_parent[*pid], *timestamp_ms),
                            )
                        } else {
                            after_parent
                        }
                    })
                    &&& r == (ObserverAction::TryResolve { pid: *pid })
                },
                TraceEvent::BirthComplete {
                    pid,
                    total_syscalls,
                    namespace_ops,
                    mount_ops,
                    duration_ns,
                    timestamp_ms,
                    ..
                } => {
                    &&& final(self)@ == if old(self)@.contains_key(*pid) {
                        old(self)@.insert(
                            *pid,
                            completed_record(
                                old(self)@[*pid],
                                *total_syscalls,
                                *namespace_ops,
                                *mount_ops,
                                *timestamp_ms,
                            ),
                        )
                    } else {
                        old(self)@
                    }
                    &&& r == (ObserverAction::PublishCreation {
                        pid: *pid,
                        total_syscalls: *total_syscalls,
                        namespace_ops: *namespace_ops,
                        mount_ops: *mount_ops,
                        duration_ns: *duration_ns,
                    })
                },
            },
    {
        match ev {
            TraceEvent::CpuThrottle { pid, throttle_ns, .. } => ObserverAction::PublishThrottle {
                pid: *pid,
                throttle_ns: *throttle_ns,
            },
            TraceEvent::ProcessStart { pid, ppid, comm, timestamp_ms } => {
                let parent_runtime = match self.table.get(ppid) {
                    Some(p) => p.is_runtime,
                    None => false,
                };
                let runtime = is_container_runtime(comm.as_str()) || parent_runtime;
                let rec = LineageRecord {
                    pid: *pid,
                    parent_pid: Some(*ppid),
                    is_runtime: runtime,
                    state: if runtime {
                        LineageState::Runtime
                    } else {
                        LineageState::Observed
                    },
                    started_at_ms: *timestamp_ms,
                    syscall_count: 0,
                    namespace_op_count: 0,
                    mount_op_count: 0,
                    main_child_pid: None,
                    last_update_ms: *timestamp_ms,
                };
                self.table.insert(*pid, rec);
                self.pids.push(*pid);
                proof {
                    assert forall|k: u32| self.table@.contains_key(k) implies self.pids@.contains(
                        k,
                    ) by {
                        if k != *pid {
                            assert(old(self).pids@.contains(k));
                            let i = choose|i: int|
                                0 <= i < old(self).pids@.len() && old(self).pids@[i] == k;
                            assert(self.pids@[i] == k);
                        } else {
                            assert(self.pids@[self.pids@.len() - 1] == k);
                        }
                    }
                }
                ObserverAction::Nothing
            },
            TraceEvent::NamespaceOp { pid, timestamp_ms, .. } => {
                if let Some(r) = self.table.get(pid) {
                    let mut rec = *r;
                    rec.namespace_op_count = sat_add64(rec.namespace_op_count, 1);
                    rec.last_update_ms = *timestamp_ms;
                    self.table.insert(*pid, rec);
                    proof {
                        self.lemma_reinsert_keeps_pids(*old(self), *pid);
                    }
                }
                ObserverAction::Nothing
            },
            TraceEvent::MountOp { pid, timestamp_ms, .. } => {
                if let Some(r) = self.table.get(pid) {
                    let mut rec = *r;
                    rec.mount_op_count = sat_add64(rec.mount_op_count, 1);
                    rec.last_update_ms = *timestamp_ms;
                    self.table.insert(*pid, rec);
                    proof {
                        self.lemma_reinsert_keeps_pids(*old(self), *pid);
                    }
                }
                ObserverAction::Nothing
            },
            TraceEvent::SyscallProgress { pid, total, timestamp_ms } => {
                if let Some(r) = self.table.get(pid) {
                    let mut rec = *r;
                    rec.syscall_count = *total;
                    rec.last_update_ms = *timestamp_ms;
                    self.table.insert(*pid, rec);
                    proof {
                        self.lemma_reinsert_keeps_pids(*old(self), *pid);
                    }
                }
                ObserverAction::Nothing
            },
            TraceEvent::Main { pid, ppid, timestamp_ms, .. } => {
                if let Some(r) = self.table.get(ppid) {
                    let mut rec = *r;
                    rec.main_child_pid = Some(*pid);
                    rec.state = LineageState::MainFound;
                    rec.last_update_ms = *timestamp_ms;
                    self.table.insert(*ppid, rec);
                    proof {
                        self.lemma_reinsert_keeps_pids(*old(self), *ppid);
                    }
                }
                let ghost mid = *self;
                if let Some(r) = self.table.get(pid) {
                    let mut rec = *r;
                    rec.is_runtime = false;
                    rec.last_update_ms = *timestamp_ms;
                    self.table.insert(*pid, rec);
                    proof {
                        self.lemma_reinsert_keeps_pids(mid, *pid);
                    }
                }
                ObserverAction::TryResolve { pid: *pid }
            },
            TraceEvent::BirthComplete {
                pid,
                total_syscalls,
                namespace_ops,
                mount_ops,
                duration_ns,
                timestamp_ms,
                ..
            } => {
                if let Some(r) = self.table.get(pid) {
                    let mut rec = *r;
                    rec.state = LineageState::Completed;
                    rec.syscall_count = *total_syscalls;
                    rec.namespace_op_count = *namespace_ops;
                    rec.mount_op_count = *mount_ops;
                    rec.last_update_ms = *timestamp_ms;
                    self.table.insert(*pid, rec);
                    proof {
                        self.lemma_reinsert_keeps_pids(*old(self), *pid);
                    }
                }
                ObserverAction::PublishCreation {
                    pid: *pid,
                    total_syscalls: *total_syscalls,
                    namespace_ops: *namespace_ops,
                    mount_ops: *mount_ops,
                    duration_ns: *duration_ns,
                }
            },
        }
    }

    /// Re-inserting under an already-tracked pid keeps the pid list covering.
    proof fn lemma_reinsert_keeps_pids(&self, prev: ObserverAggregator, pid: u32)
        requires
            prev.wf(),
            prev.table@.contains_key(pid),
            self.pids@ == prev.pids@,
            forall|k: u32| self.table@.contains_key(k) ==> k == pid || prev.table@.contains_key(k),
        ensures
            forall|k: u32| self.table@.contains_key(k) ==> self.pids@.contains(k),
    {
    }

    /// Removes the lineage of an exited process at once.
    pub fn on_process_exit(&mut self, pid: u32)
        requires
            old(self).wf(),
        ensures
            final(self).wf(),
            final(self)@ == old(self)@.remove(pid),
    {
        self.table.remove(&pid);
    }

    /// Removes every lineage that has not been updated for `bound_ms`
    /// milliseconds: records older than the bound are dropped, all others
    /// survive untouched.
    pub fn reap(&mut self, now_ms: u64, bound_ms: u64)
        requires
            old(self).wf(),
        ensures
            final(self).wf(),
            forall|k: u32|
                final(self)@.contains_key(k) <==> (old(self)@.contains_key(k)
                    && old(self)@[k].last_update_ms + bound_ms >= now_ms),
            forall|k: u32| final(self)@.contains_key(k) ==> final(self)@[k] == old(self)@[k],
    {
        let ghost m0 = self.table@;
        let mut fresh_table: HashMap<u32, LineageRecord> = HashMap::new();
        let mut fresh_pids: Vec<u32> = Vec::new();
        let mut i: usize = 0;
        while i < self.pids.len()
            invariant
                old(self).wf(),
                self.table@ == m0,
                self.pids@ == old(self).pids@,
                i <= self.pids@.len(),
                forall|k: u32|
                    #[trigger] fresh_table@.contains_key(k) ==> (m0.contains_key(k)
                        && m0[k].last_update_ms + bound_ms >= now_ms && fresh_table@[k] == m0[k]),
                forall|k: u32|
                    #![trigger fresh_table@.contains_key(k)]
                    (m0.contains_key(k) && m0[k].last_update_ms + bound_ms >= now_ms
                        && self.pids@.subrange(0, i as int).contains(k))
                        ==> fresh_table@.contains_key(k),
                forall|k: u32| fresh_table@.contains_key(k) ==> fresh_pids@.contains(k),
            decreases self.pids@.len() - i,
        {
            let pid = self.pids[i];
            match self.table.get(&pid) {
                Some(r) => {
                    let keep = if now_ms > bound_ms {
                        r.last_update_ms >= now_ms - bound_ms
                    } else {
                        true
                    };
                    if keep {
                        let rec = *r;
                        let ghost fp0 = fresh_pids@;
                        let ghost ft0 = fresh_table@;
                        fresh_table.insert(pid, rec);
                        fresh_pids.push(pid);
                        proof {
                            assert(fresh_table@ == ft0.insert(pid, rec));
                            assert forall|k: u32| #[trigger] fresh_table@.contains_key(k) implies
                                (m0.contains_key(k) && m0[k].last_update_ms + bound_ms >= now_ms
                                    && fresh_table@[k] == m0[k]) by {
                                if k != pid {
                                    assert(ft0.contains_key(k));
                                    assert(fresh_table@[k] == ft0[k]);
                                } else {
                                    assert(fresh_table@[k] == rec);
                                }
                            }
                            assert forall|k: u32| fresh_table@.contains_key(k) implies
                                fresh_pids@.contains(k) by {
                                if k != pid {
                                    assert(ft0.contains_key(k));
                                    assert(fp0.contains(k));
                                    let j = choose|j: int| 0 <= j < fp0.len() && fp0[j] == k;
                                    assert(fresh_pids@[j] == k);
                                } else {
                                    assert(fresh_pids@[fresh_pids@.len() - 1] == k);
                                }
                            }
                        }
                    }
                },
                None => {},
            }
            proof {
                assert forall|k: u32|
                    #![trigger fresh_table@.contains_key(k)]
                    (m0.contains_key(k) && m0[k].last_update_ms + bound_ms >= now_ms
                        && self.pids@.subrange(0, i + 1 as int).contains(k)) implies
                    fresh_table@.contains_key(k) by {
                    let sub = self.pids@.subrange(0, i + 1 as int);
                    let j = choose|j: int| 0 <= j < sub.len() && sub[j] == k;
                    if j < i {
                        assert(self.pids@.subrange(0, i as int)[j] == k);
                        assert(self.pids@.subrange(0, i as int).contains(k));
                    }
                }
            }
            i = i + 1;
        }
        proof {
            assert(self.pids@.subrange(0, self.pids@.len() as int) =~= self.pids@);
            assert forall|k: u32|
                #![trigger m0.contains_key(k)]
                (m0.contains_key(k) && m0[k].last_update_ms + bound_ms >= now_ms) implies
                fresh_table@.contains_key(k) by {
                assert(old(self).pids@.contains(k));
                assert(self.pids@.subrange(0, self.pids@.len() as int).contains(k));
            }
        }
        self.table = fresh_table;
        self.pids = fresh_pids;
    }

    /// Reads one lineage record.
    pub fn get(&self, pid: u32) -> (r: Option<&LineageRecord>)
        ensures
            match r {
                Some(rec) => self@.contains_key(pid) && *rec == self@[pid],
                None => !self@.contains_key(pid),
            },
    {
        self.table.get(&pid)
    }
}

} // verus!
