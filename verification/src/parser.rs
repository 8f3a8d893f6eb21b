//! Parser for the tracing runtime's line-oriented stream.
//!
//! Each recognized line is a tag followed by positional `key=value` pairs.
//! The parser is total and side-effect free: a line whose tag is unknown, or
//! whose fields do not extract, yields no event and never fails the stream.

use vstd::prelude::*;

use crate::strutil::{
    all_digits, dec_str, digits_val, extract_metric, extract_metric_spec, extract_token,
    extract_token_spec, find_spec, find_sub, is_digit_char, lemma_dec_str_digits, lemma_find_spec,
    lemma_find_spec_none, lemma_find_spec_unique, match_at, str_eq,
};

verus! {

/// The kind of namespace operation a trace line reports.
#[derive(Clone, Copy, Debug, PartialEq, Eq, Structural)]
pub enum NamespaceOpKind {
    CloneOp,
    UnshareOp,
    SetnsOp,
}

/// The kind of mount operation a trace line reports.
#[derive(Clone, Copy, Debug, PartialEq, Eq, Structural)]
pub enum MountOpKind {
    MountOp,
    PivotRootOp,
}

/// A typed event recovered from one trace line.
#[derive(Clone, Debug)]
pub enum TraceEvent {
    CpuThrottle { pid: u32, comm: String, throttle_ns: u64, timestamp: u64 },
    ProcessStart { pid: u32, ppid: u32, comm: String, timestamp_ms: u64 },
    NamespaceOp { pid: u32, op: NamespaceOpKind, timestamp_ms: u64 },
    MountOp { pid: u32, op: MountOpKind, timestamp_ms: u64 },
    SyscallProgress { pid: u32, total: u64, timestamp_ms: u64 },
    Main { pid: u32, ppid: u32, comm: String, timestamp_ms: u64 },
    BirthComplete {
        pid: u32,
        ppid: u32,
        comm: String,
        total_syscalls: u64,
        namespace_ops: u64,
        mount_ops: u64,
        duration_ns: u64,
        timestamp_ms: u64,
    },
}

/// The mathematical image of a `TraceEvent`.
pub enum TraceEventV {
    CpuThrottle { pid: u32, comm: Seq<char>, throttle_ns: u64, timestamp: u64 },
    ProcessStart { pid: u32, ppid: u32, comm: Seq<char>, timestamp_ms: u64 },
    NamespaceOp { pid: u32, op: NamespaceOpKind, timestamp_ms: u64 },
    MountOp { pid: u32, op: MountOpKind, timestamp_ms: u64 },
    SyscallProgress { pid: u32, total: u64, timestamp_ms: u64 },
    Main { pid: u32, ppid: u32, comm: Seq<char>, timestamp_ms: u64 },
    BirthComplete {
        pid: u32,
        ppid: u32,
        comm: Seq<char>,
        total_syscalls: u64,
        namespace_ops: u64,
        mount_ops: u64,
        duration_ns: u64,
        timestamp_ms: u64,
    },
}

impl View for TraceEvent {
    type V = TraceEventV;

    open spec fn view(&self) -> TraceEventV {
        match self {
            TraceEvent::CpuThrottle { pid, comm, throttle_ns, timestamp } =>
                TraceEventV::CpuThrottle {
                    pid: *pid,
                    comm: comm@,
                    throttle_ns: *throttle_ns,
                    timestamp: *timestamp,
                },
            TraceEvent::ProcessStart { pid, ppid, comm, timestamp_ms } =>
                TraceEventV::ProcessStart {
                    pid: *pid,
                    ppid: *ppid,
                    comm: comm@,
                    timestamp_ms: *timestamp_ms,
                },
            TraceEvent::NamespaceOp { pid, op, timestamp_ms } =>
                TraceEventV::NamespaceOp { pid: *pid, op: *op, timestamp_ms: *timestamp_ms },
            TraceEvent::MountOp { pid, op, timestamp_ms } =>
                TraceEventV::MountOp { pid: *pid, op: *op, timestamp_ms: *timestamp_ms },
            TraceEvent::SyscallProgress { pid, total, timestamp_ms } =>
                TraceEventV::SyscallProgress {
                    pid: *pid,
                    total: *total,
                    timestamp_ms: *timestamp_ms,
                },
            TraceEvent::Main { pid, ppid, comm, timestamp_ms } =>
                TraceEventV::Main {
                    pid: *pid,
                    ppid: *ppid,
                    comm: comm@,
                    timestamp_ms: *timestamp_ms,
                },
            TraceEvent::BirthComplete {
                pid,
                ppid,
                comm,
                total_syscalls,
                namespace_ops,
                mount_ops,
                duration_ns,
                timestamp_ms,
            } => TraceEventV::BirthComplete {
                pid: *pid,
                ppid: *ppid,
                comm: comm@,
                total_syscalls: *total_syscalls,
                namespace_ops: *namespace_ops,
                mount_ops: *mount_ops,
                duration_ns: *duration_ns,
                timestamp_ms: *timestamp_ms,
            },
        }
    }
}

/// A pid field fits a kernel pid.
pub open spec fn pid_ok(v: u64) -> bool {
    v <= u32::MAX
}

/// The namespace operation that a `type=` token names.
pub open spec fn ns_op_of(tok: Seq<char>) -> Option<NamespaceOpKind> {
    if tok == "clone"@ {
        Some(NamespaceOpKind::CloneOp)
    } else if tok == "unshare"@ {
        Some(NamespaceOpKind::UnshareOp)
    } else if tok == "setns"@ {
        Some(NamespaceOpKind::SetnsOp)
    } else {
        None
    }
}

/// The mount operation that a `type=` token names.
pub open spec fn mount_op_of(tok: Seq<char>) -> Option<MountOpKind> {
    if tok == "mount"@ {
        Some(MountOpKind::MountOp)
    } else if tok == "pivot_root"@ {
        Some(MountOpKind::PivotRootOp)
    } else {
        None
    }
}

/// The event of a `CPU_THROTTLE_EVENT` line, if all its fields extract.
pub open spec fn cpu_throttle_spec(line: Seq<char>) -> Option<TraceEventV> {
    if find_spec(line, "CPU_THROTTLE_EVENT"@) is Some {
        match (
            extract_metric_spec(line, "pid="@),
            extract_token_spec(line, "comm="@),
            extract_metric_spec(line, "throttle_ns="@),
            extract_metric_spec(line, "timestamp="@),
        ) {
            (Some(pid), Some(comm), Some(tns), Some(ts)) => if pid_ok(pid) {
                Some(TraceEventV::CpuThrottle {
                    pid: pid as u32,
                    comm,
                    throttle_ns: tns,
                    timestamp: ts,
                })
            } else {
                None
            },
            _ => None,
        }
    } else {
        None
    }
}

/// The event of a `CONTAINER_PROCESS_START` line, if all its fields extract.
pub open spec fn process_start_spec(line: Seq<char>) -> Option<TraceEventV> {
    if find_spec(line, "CONTAINER_PROCESS_START"@) is Some {
        match (
            extract_metric_spec(line, "pid="@),
            extract_metric_spec(line, "ppid="@),
            extract_token_spec(line, "comm="@),
            extract_metric_spec(line, "timestamp_ms="@),
        ) {
            (Some(pid), Some(ppid), Some(comm), Some(ts)) => if pid_ok(pid) && pid_ok(ppid) {
                Some(TraceEventV::ProcessStart {
                    pid: pid as u32,
                    ppid: ppid as u32,
                    comm,
                    timestamp_ms: ts,
                })
            } else {
                None
            },
            _ => None,
        }
    } else {
        None
    }
}

/// The event of a `CONTAINER_NAMESPACE_OP` line, if all its fields extract.
pub open spec fn namespace_op_spec(line: Seq<char>) -> Option<TraceEventV> {
    if find_spec(line, "CONTAINER_NAMESPACE_OP"@) is Some {
        match (
            extract_metric_spec(line, "pid="@),
            extract_token_spec(line, "type="@),
            extract_metric_spec(line, "timestamp_ms="@),
        ) {
            (Some(pid), Some(tok), Some(ts)) => match ns_op_of(tok) {
                Some(op) => if pid_ok(pid) {
                    Some(TraceEventV::NamespaceOp { pid: pid as u32, op, timestamp_ms: ts })
                } else {
                    None
                },
                None => None,
            },
            _ => None,
        }
    } else {
        None
    }
}

/// The event of a `CONTAINER_MOUNT_OP` line, if all its fields extract.
pub open spec fn mount_op_spec(line: Seq<char>) -> Option<TraceEventV> {
    if find_spec(line, "CONTAINER_MOUNT_OP"@) is Some {
        match (
            extract_metric_spec(line, "pid="@),
            extract_token_spec(line, "type="@),
            extract_metric_spec(line, "timestamp_ms="@),
        ) {
            (Some(pid), Some(tok), Some(ts)) => match mount_op_of(tok) {
                Some(op) => if pid_ok(pid) {
                    Some(TraceEventV::MountOp { pid: pid as u32, op, timestamp_ms: ts })
                } else {
                    None
                },
                None => None,
            },
            _ => None,
        }
    } else {
        None
    }
}

/// The event of a `CONTAINER_SYSCALLS` progress line, if all its fields
/// extract.
pub open spec fn syscalls_spec(line: Seq<char>) -> Option<TraceEventV> {
    if find_spec(line, "CONTAINER_SYSCALLS"@) is Some {
        match (
            extract_metric_spec(line, "pid="@),
            extract_metric_spec(line, "total="@),
            extract_metric_spec(line, "timestamp_ms="@),
        ) {
            (Some(pid), Some(total), Some(ts)) => if pid_ok(pid) {
                Some(TraceEventV::SyscallProgress { pid: pid as u32, total, timestamp_ms: ts })
            } else {
                None
            },
            _ => None,
        }
    } else {
        None
    }
}

/// The event of a `CONTAINER_MAIN` line, if all its fields extract.
pub open spec fn main_spec(line: Seq<char>) -> Option<TraceEventV> {
    if find_spec(line, "CONTAINER_MAIN"@) is Some {
        match (
            extract_metric_spec(line, "pid="@),
            extract_metric_spec(line, "ppid="@),
            extract_token_spec(line, "comm="@),
            extract_metric_spec(line, "timestamp_ms="@),
        ) {
            (Some(pid), Some(ppid), Some(comm), Some(ts)) => if pid_ok(pid) && pid_ok(ppid) {
                Some(TraceEventV::Main {
                    pid: pid as u32,
                    ppid: ppid as u32,
                    comm,
                    timestamp_ms: ts,
                })
            } else {
                None
            },
            _ => None,
        }
    } else {
        None
    }
}

/// The event of a `CONTAINER_BIRTH_COMPLETE` line, if all its fields extract.
pub open spec fn birth_complete_spec(line: Seq<char>) -> Option<TraceEventV> {
    if find_spec(line, "CONTAINER_BIRTH_COMPLETE"@) is Some {
        match (
            extract_metric_spec(line, "pid="@),
            extract_metric_spec(line, "ppid="@),
            extract_token_spec(line, "comm="@),
            extract_metric_spec(line, "total_syscalls="@),
        ) {
            (Some(pid), Some(ppid), Some(comm), Some(tsc)) => match (
                extract_metric_spec(line, "namespace_ops="@),
                extract_metric_spec(line, "mount_ops="@),
                extract_metric_spec(line, "duration_ns="@),
                extract_metric_spec(line, "timestamp_ms="@),
            ) {
                (Some(nso), Some(mo), Some(dns), Some(ts)) => if pid_ok(pid) && pid_ok(ppid) {
                    Some(TraceEventV::BirthComplete {
                        pid: pid as u32,
                        ppid: ppid as u32,
                        comm,
                        total_syscalls: tsc,
                        namespace_ops: nso,
                        mount_ops: mo,
                        duration_ns: dns,
                        timestamp_ms: ts,
                    })
                } else {
                    None
                },
                _ => None,
            },
            _ => None,
        }
    } else {
        None
    }
}

/// The typed event of one trace line: the first tag whose fields all extract,
/// or nothing. Unknown tags and malformed lines yield nothing.
pub open spec fn parse_line_spec(line: Seq<char>) -> Option<TraceEventV> {
    if cpu_throttle_spec(line) is Some {
        cpu_throttle_spec(line)
    } else if process_start_spec(line) is Some {
        process_start_spec(line)
    } else if namespace_op_spec(line) is Some {
        namespace_op_spec(line)
    } else if mount_op_spec(line) is Some {
        mount_op_spec(line)
    } else if syscalls_spec(line) is Some {
        syscalls_spec(line)
    } else if main_spec(line) is Some {
        main_spec(line)
    } else {
        birth_complete_spec(line)
    }
}

/// Parses one line of the trace stream into a typed event. Total: any line
/// that carries no well-formed tagged record yields `None`.
pub fn parse_line(line: &str) -> (r: Option<TraceEvent>)
    ensures
        match r {
            Some(ev) => parse_line_spec(line@) == Some(ev@),
            None => parse_line_spec(line@) is None,
        },
{
    if let Some(ev) = parse_cpu_throttle(line) {
        return Some(ev);
    }
    if let Some(ev) = parse_process_start(line) {
        return Some(ev);
    }
    if let Some(ev) = parse_namespace_op(line) {
        return Some(ev);
    }
    if let Some(ev) = parse_mount_op(line) {
        return Some(ev);
    }
    if let Some(ev) = parse_syscalls(line) {
        return Some(ev);
    }
    if let Some(ev) = parse_main(line) {
        return Some(ev);
    }
    if let Some(ev) = parse_birth_complete(line) {
        return Some(ev);
    }
    None
}

fn parse_cpu_throttle(line: &str) -> (r: Option<TraceEvent>)
    ensures
        match r {
            Some(ev) => cpu_throttle_spec(line@) == Some(ev@),
            None => cpu_throttle_spec(line@) is None,
        },
{
    if find_sub(line, "CPU_THROTTLE_EVENT").is_none() {
        return None;
    }
    let pid = extract_metric(line, "pid=");
    let comm = extract_token(line, "comm=");
    let tns = extract_metric(line, "throttle_ns=");
    let ts = extract_metric(line, "timestamp=");
    match (pid, comm, tns, ts) {
        (Some(pid), Some(comm), Some(tns), Some(ts)) => {
            if pid <= u32::MAX as u64 {
                Some(TraceEvent::CpuThrottle { pid: pid as u32, comm, throttle_ns: tns, timestamp: ts })
            } else {
                None
            }
        },
        _ => None,
    }
}

fn parse_process_start(line: &str) -> (r: Option<TraceEvent>)
    ensures
        match r {
            Some(ev) => process_start_spec(line@) == Some(ev@),
            None => process_start_spec(line@) is None,
        },
{
    if find_sub(line, "CONTAINER_PROCESS_START").is_none() {
        return None;
    }
    let pid = extract_metric(line, "pid=");
    let ppid = extract_metric(line, "ppid=");
    let comm = extract_token(line, "comm=");
    let ts = extract_metric(line, "timestamp_ms=");
    match (pid, ppid, comm, ts) {
        (Some(pid), Some(ppid), Some(comm), Some(ts)) => {
            if pid <= u32::MAX as u64 && ppid <= u32::MAX as u64 {
                Some(TraceEvent::ProcessStart {
                    pid: pid as u32,
                    ppid: ppid as u32,
                    comm,
                    timestamp_ms: ts,
                })
            } else {
                None
            }
        },
        _ => None,
    }
}

fn parse_namespace_op(line: &str) -> (r: Option<TraceEvent>)
    ensures
        match r {
            Some(ev) => namespace_op_spec(line@) == Some(ev@),
            None => namespace_op_spec(line@) is None,
        },
{
    if find_sub(line, "CONTAINER_NAMESPACE_OP").is_none() {
        return None;
    }
    let pid = extract_metric(line, "pid=");
    let tok = extract_token(line, "type=");
    let ts = extract_metric(line, "timestamp_ms=");
    match (pid, tok, ts) {
        (Some(pid), Some(tok), Some(ts)) => {
            let op = if str_eq(tok.as_str(), "clone") {
                Some(NamespaceOpKind::CloneOp)
            } else if str_eq(tok.as_str(), "unshare") {
                Some(NamespaceOpKind::UnshareOp)
            } else if str_eq(tok.as_str(), "setns") {
                Some(NamespaceOpKind::SetnsOp)
            } else {
                None
            };
            match op {
                Some(op) => {
                    if pid <= u32::MAX as u64 {
                        Some(TraceEvent::NamespaceOp { pid: pid as u32, op, timestamp_ms: ts })
                    } else {
                        None
                    }
                },
                None => None,
            }
        },
        _ => None,
    }
}

fn parse_mount_op(line: &str) -> (r: Option<TraceEvent>)
    ensures
        match r {
            Some(ev) => mount_op_spec(line@) == Some(ev@),
            None => mount_op_spec(line@) is None,
        },
{
    if find_sub(line, "CONTAINER_MOUNT_OP").is_none() {
        return None;
    }
    let pid = extract_metric(line, "pid=");
    let tok = extract_token(line, "type=");
    let ts = extract_metric(line, "timestamp_ms=");
    match (pid, tok, ts) {
        (Some(pid), Some(tok), Some(ts)) => {
            let op = if str_eq(tok.as_str(), "mount") {
                Some(MountOpKind::MountOp)
            } else if str_eq(tok.as_str(), "pivot_root") {
                Some(MountOpKind::PivotRootOp)
            } else {
                None
            };
            match op {
                Some(op) => {
                    if pid <= u32::MAX as u64 {
                        Some(TraceEvent::MountOp { pid: pid as u32, op, timestamp_ms: ts })
                    } else {
                        None
                    }
                },
                None => None,
            }
        },
        _ => None,
    }
}

fn parse_syscalls(line: &str) -> (r: Option<TraceEvent>)
    ensures
        match r {
            Some(ev) => syscalls_spec(line@) == Some(ev@),
            None => syscalls_spec(line@) is None,
        },
{
    if find_sub(line, "CONTAINER_SYSCALLS").is_none() {
        return None;
    }
    let pid = extract_metric(line, "pid=");
    let total = extract_metric(line, "total=");
    let ts = extract_metric(line, "timestamp_ms=");
    match (pid, total, ts) {
        (Some(pid), Some(total), Some(ts)) => {
            if pid <= u32::MAX as u64 {
                Some(TraceEvent::SyscallProgress { pid: pid as u32, total, timestamp_ms: ts })
            } else {
                None
            }
        },
        _ => None,
    }
}

fn parse_main(line: &str) -> (r: Option<TraceEvent>)
    ensures
        match r {
            Some(ev) => main_spec(line@) == Some(ev@),
            None => main_spec(line@) is None,
        },
{
    if find_sub(line, "CONTAINER_MAIN").is_none() {
        return None;
    }
    let pid = extract_metric(line, "pid=");
    let ppid = extract_metric(line, "ppid=");
    let comm = extract_token(line, "comm=");
    let ts = extract_metric(line, "timestamp_ms=");
    match (pid, ppid, comm, ts) {
        (Some(pid), Some(ppid), Some(comm), Some(ts)) => {
            if pid <= u32::MAX as u64 && ppid <= u32::MAX as u64 {
                Some(TraceEvent::Main { pid: pid as u32, ppid: ppid as u32, comm, timestamp_ms: ts })
            } else {
                None
            }
        },
        _ => None,
    }
}

fn parse_birth_complete(line: &str) -> (r: Option<TraceEvent>)
    ensures
        match r {
            Some(ev) => birth_complete_spec(line@) == Some(ev@),
            None => birth_complete_spec(line@) is None,
        },
{
    if find_sub(line, "CONTAINER_BIRTH_COMPLETE").is_none() {
        return None;
    }
    let pid = extract_metric(line, "pid=");
    let ppid = extract_metric(line, "ppid=");
    let comm = extract_token(line, "comm=");
    let tsc = extract_metric(line, "total_syscalls=");
    let nso = extract_metric(line, "namespace_ops=");
    let mo = extract_metric(line, "mount_ops=");
    let dns = extract_metric(line, "duration_ns=");
    let ts = extract_metric(line, "timestamp_ms=");
    match (pid, ppid, comm, tsc) {
        (Some(pid), Some(ppid), Some(comm), Some(tsc)) => {
            match (nso, mo, dns, ts) {
                (Some(nso), Some(mo), Some(dns), Some(ts)) => {
                    if pid <= u32::MAX as u64 && ppid <= u32::MAX as u64 {
                        Some(TraceEvent::BirthComplete {
                            pid: pid as u32,
                            ppid: ppid as u32,
                            comm,
                            total_syscalls: tsc,
                            namespace_ops: nso,
                            mount_ops: mo,
                            duration_ns: dns,
                            timestamp_ms: ts,
                        })
                    } else {
                        None
                    }
                },
                _ => None,
            }
        },
        _ => None,
    }
}

/// The canonical throttle line that the tracing runtime emits for a reading.
pub open spec fn throttle_line_of(
    pid: u64,
    comm: Seq<char>,
    throttle_ns: u64,
    timestamp: u64,
) -> Seq<char> {
    "CPU_THROTTLE_EVENT pid="@ + dec_str(pid as int) + " comm="@ + comm + " throttle_ns="@
        + dec_str(throttle_ns as int) + " timestamp="@ + dec_str(timestamp as int)
}

/// A process name as the trace stream carries it: non-empty, and free of the
/// space and equals characters that delimit the record's fields.
pub open spec fn plain_comm(comm: Seq<char>) -> bool {
    comm.len() > 0 && forall|i: int| 0 <= i < comm.len() ==> comm[i] != ' ' && comm[i] != '='
}

/// In a one-character pattern, a match is a character.
proof fn lemma_match_single(s: Seq<char>, c: char, j: int)
    ensures
        match_at(s, seq![c], j) <==> (0 <= j < s.len() && s[j] == c),
{
    if 0 <= j < s.len() {
        assert(s.subrange(j, j + 1) =~= seq![s[j]]);
        if s[j] == c {
            assert(s.subrange(j, j + 1) =~= seq![c]);
        } else {
            assert(s.subrange(j, j + 1)[0] == s[j]);
        }
    }
}

/// A digit-only prefix followed by a space (or the end) pins the first space.
proof fn lemma_first_space(s: Seq<char>, k: int)
    requires
        0 <= k <= s.len(),
        forall|j: int| 0 <= j < k ==> s[j] != ' ',
        k < s.len() ==> s[k] == ' ',
    ensures
        k < s.len() ==> find_spec(s, seq![' ']) == Some(k),
        k == s.len() ==> find_spec(s, seq![' ']) is None,
{
    assert forall|j: int| 0 <= j < k implies !match_at(s, seq![' '], j) by {
        lemma_match_single(s, ' ', j);
    }
    if k < s.len() {
        lemma_match_single(s, ' ', k);
        lemma_find_spec_unique(s, seq![' '], k);
    } else {
        assert forall|j: int| !match_at(s, seq![' '], j) by {
            lemma_match_single(s, ' ', j);
        }
        lemma_find_spec_none(s, seq![' ']);
    }
}

/// Parsing the canonical throttle line recovers the pid, the process name,
/// the throttle nanoseconds and the timestamp verbatim.
#[verifier::rlimit(60)]
pub proof fn lemma_throttle_line_round_trip(pid: u64, comm: Seq<char>, tns: u64, ts: u64)
    requires
        pid <= u32::MAX,
        plain_comm(comm),
    ensures
        parse_line_spec(throttle_line_of(pid, comm, tns, ts)) == Some(
            TraceEventV::CpuThrottle {
                pid: pid as u32,
                comm,
                throttle_ns: tns,
                timestamp: ts,
            },
        ),
{
    reveal_strlit("CPU_THROTTLE_EVENT pid=");
    reveal_strlit(" comm=");
    reveal_strlit(" throttle_ns=");
    reveal_strlit(" timestamp=");
    reveal_strlit("CPU_THROTTLE_EVENT");
    reveal_strlit("pid=");
    reveal_strlit("comm=");
    reveal_strlit("throttle_ns=");
    reveal_strlit("timestamp=");
    let a = "CPU_THROTTLE_EVENT pid="@;
    let b = " comm="@;
    let cc = " throttle_ns="@;
    let d = " timestamp="@;
    let d1 = dec_str(pid as int);
    let d3 = dec_str(tns as int);
    let d4 = dec_str(ts as int);
    let line = throttle_line_of(pid, comm, tns, ts);
    lemma_dec_str_digits(pid as int);
    lemma_dec_str_digits(tns as int);
    lemma_dec_str_digits(ts as int);
    let l1 = d1.len() as int;
    let l2 = comm.len() as int;
    let l3 = d3.len() as int;
    let l4 = d4.len() as int;
    let p2 = 23 + l1;
    let p3 = p2 + 6;
    let p4 = p3 + l2;
    let p5 = p4 + 13;
    let p6 = p5 + l3;
    let p7 = p6 + 11;
    let end = p7 + l4;
    assert(a.len() == 23);
    assert(b.len() == 6);
    assert(cc.len() == 13);
    assert(d.len() == 11);
    assert(line.len() == end);
    // Where each component's characters sit in the assembled line.
    assert forall|j: int| 0 <= j < 23 implies line[j] == a[j] by {}
    assert forall|j: int| 0 <= j < l1 implies line[23 + j] == d1[j] by {}
    assert forall|j: int| 0 <= j < 6 implies line[p2 + j] == b[j] by {}
    assert forall|j: int| 0 <= j < l2 implies line[p3 + j] == comm[j] by {}
    assert forall|j: int| 0 <= j < 13 implies line[p4 + j] == cc[j] by {}
    assert forall|j: int| 0 <= j < l3 implies line[p5 + j] == d3[j] by {}
    assert forall|j: int| 0 <= j < 11 implies line[p6 + j] == d[j] by {}
    assert forall|j: int| 0 <= j < l4 implies line[p7 + j] == d4[j] by {}
    // A digit character is neither a delimiter nor a key character.
    assert forall|x: char| is_digit_char(x) implies x != '=' && x != ' ' && x != 't' by {}
    // Every equals sign of the line ends one of the four keys.
    let eq2 = p2 + 5;
    let eq3 = p4 + 12;
    let eq4 = p6 + 10;
    assert forall|j: int| 0 <= j < end && line[j] == '=' implies
        (j == 22 || j == eq2 || j == eq3 || j == eq4) by {
        if j < 23 {
            assert(line[j] == a[j]);
        } else if j < p2 {
            assert(line[j] == d1[j - 23] && is_digit_char(d1[j - 23]));
        } else if j < p3 {
            assert(line[j] == b[j - p2]);
        } else if j < p4 {
            assert(line[j] == comm[j - p3]);
        } else if j < p5 {
            assert(line[j] == cc[j - p4]);
        } else if j < p6 {
            assert(line[j] == d3[j - p5] && is_digit_char(d3[j - p5]));
        } else if j < p7 {
            assert(line[j] == d[j - p6]);
        } else {
            assert(line[j] == d4[j - p7] && is_digit_char(d4[j - p7]));
        }
    }
    // The tag is present.
    assert(line.subrange(0, 18) =~= "CPU_THROTTLE_EVENT"@);
    assert(match_at(line, "CPU_THROTTLE_EVENT"@, 0));
    lemma_find_spec(line, "CPU_THROTTLE_EVENT"@);
    assert(find_spec(line, "CPU_THROTTLE_EVENT"@) is Some);
    // The pid field: the key first occurs right inside the leading literal,
    // and the digits behind it run to the following space.
    assert(line.subrange(19, 23) =~= "pid="@);
    assert(match_at(line, "pid="@, 19));
    assert forall|j: int| 0 <= j < 19 implies !match_at(line, "pid="@, j) by {
        if match_at(line, "pid="@, j) {
            assert(line.subrange(j, j + 4)[3] == line[j + 3]);
            assert(line[j + 3] == '=');
        }
    }
    lemma_find_spec_unique(line, "pid="@, 19);
    let rest1 = line.subrange(23, end);
    assert forall|j: int| 0 <= j < l1 implies rest1[j] != ' ' by {
        assert(rest1[j] == d1[j]);
    }
    assert(rest1[l1] == b[0]);
    lemma_first_space(rest1, l1);
    assert(rest1.subrange(0, l1) =~= d1);
    assert(extract_metric_spec(line, "pid="@) == Some(pid));
    // The comm field.
    assert(line.subrange(p2 + 1, p2 + 6) =~= "comm="@);
    assert(match_at(line, "comm="@, p2 + 1));
    assert forall|j: int| 0 <= j < p2 + 1 implies !match_at(line, "comm="@, j) by {
        if match_at(line, "comm="@, j) {
            assert(line.subrange(j, j + 5)[4] == line[j + 4]);
            assert(line[j + 4] == '=');
            assert(j == 18);
            assert(line.subrange(j, j + 5)[0] == line[j]);
            assert(line[18] == a[18]);
        }
    }
    lemma_find_spec_unique(line, "comm="@, p2 + 1);
    let rest2 = line.subrange(p2 + 6, end);
    assert forall|j: int| 0 <= j < l2 implies rest2[j] != ' ' by {
        assert(rest2[j] == comm[j]);
    }
    assert(rest2[l2] == cc[0]);
    lemma_first_space(rest2, l2);
    assert(rest2.subrange(0, l2) =~= comm);
    assert(extract_token_spec(line, "comm="@) == Some(comm));
    // The throttle_ns field: any earlier equals sign would have to close the
    // key inside the leading literal or the pid digits, where no lowercase
    // `t` opens it.
    assert(line.subrange(p4 + 1, p4 + 13) =~= "throttle_ns="@);
    assert(match_at(line, "throttle_ns="@, p4 + 1));
    assert forall|j: int| 0 <= j < p4 + 1 implies !match_at(line, "throttle_ns="@, j) by {
        if match_at(line, "throttle_ns="@, j) {
            assert(line.subrange(j, j + 12)[11] == line[j + 11]);
            assert(line[j + 11] == '=');
            assert(line.subrange(j, j + 12)[0] == line[j]);
            assert(line[j] == 't');
            assert(j == 11 || j == eq2 - 11);
            if j < 23 {
                assert(line[j] == a[j]);
            } else {
                assert(j < p2);
                assert(line[j] == d1[j - 23] && is_digit_char(d1[j - 23]));
            }
        }
    }
    lemma_find_spec_unique(line, "throttle_ns="@, p4 + 1);
    let rest3 = line.subrange(p4 + 13, end);
    assert forall|j: int| 0 <= j < l3 implies rest3[j] != ' ' by {
        assert(rest3[j] == d3[j]);
    }
    assert(rest3[l3] == d[0]);
    lemma_first_space(rest3, l3);
    assert(rest3.subrange(0, l3) =~= d3);
    assert(extract_metric_spec(line, "throttle_ns="@) == Some(tns));
    // The timestamp field: the record's last key, with the digits running to
    // the end of the line.
    assert(line.subrange(p6 + 1, p6 + 11) =~= "timestamp="@);
    assert(match_at(line, "timestamp="@, p6 + 1));
    assert forall|j: int| 0 <= j < p6 + 1 implies !match_at(line, "timestamp="@, j) by {
        if match_at(line, "timestamp="@, j) {
            assert(line.subrange(j, j + 10)[9] == line[j + 9]);
            assert(line[j + 9] == '=');
            assert(line.subrange(j, j + 10)[0] == line[j]);
            assert(line[j] == 't');
            assert(j == 13 || j == eq2 - 9 || j == eq3 - 9);
            if j == eq3 - 9 {
                assert(line[j] == cc[3]);
            } else if j < 23 {
                assert(line[j] == a[j]);
            } else {
                assert(j < p2);
                assert(line[j] == d1[j - 23] && is_digit_char(d1[j - 23]));
            }
        }
    }
    lemma_find_spec_unique(line, "timestamp="@, p6 + 1);
    let rest4 = line.subrange(p6 + 11, end);
    assert(rest4 =~= d4);
    assert forall|j: int| 0 <= j < l4 implies rest4[j] != ' ' by {
        assert(rest4[j] == d4[j]);
    }
    lemma_first_space(rest4, l4);
    assert(extract_metric_spec(line, "timestamp="@) == Some(ts));
    assert(cpu_throttle_spec(line) == Some(TraceEventV::CpuThrottle {
        pid: pid as u32,
        comm,
        throttle_ns: tns,
        timestamp: ts,
    }));
}

/// A line in which none of the seven tags occurs yields no event: the parser
/// is total over unknown input.
pub proof fn lemma_unknown_tag_yields_nothing(line: Seq<char>)
    requires
        find_spec(line, "CPU_THROTTLE_EVENT"@) is None,
        find_spec(line, "CONTAINER_PROCESS_START"@) is None,
        find_spec(line, "CONTAINER_NAMESPACE_OP"@) is None,
        find_spec(line, "CONTAINER_MOUNT_OP"@) is None,
        find_spec(line, "CONTAINER_SYSCALLS"@) is None,
        find_spec(line, "CONTAINER_MAIN"@) is None,
        find_spec(line, "CONTAINER_BIRTH_COMPLETE"@) is None,
    ensures
        parse_line_spec(line) is None,
{
}

} // verus!
