//! The pod-lifecycle observations gathered by scanning `/proc` and the cgroup
//! filesystem, and the human-readable report assembled from them.
//!
//! The unverified rim walks the filesystem; what it reads is interpreted and
//! rendered here.

use vstd::prelude::*;

use crate::strutil::{
    dec_str, match_at, pad_left, pad_left_spec, pad_right, pad_right_spec, repeat_char,
    split_lines, split_lines_spec, str_eq, u64_to_string,
};

verus! {

/// One kernel operation observed during a pod's creation.
#[derive(Clone, Debug)]
pub struct KernelOperation {
    pub op_type: String,
    pub details: String,
    pub timestamp_ms: u64,
}

/// Which namespaces were seen created for the pod.
#[derive(Clone, Copy, Debug)]
pub struct NamespaceChanges {
    pub pid_namespace_created: bool,
    pub net_namespace_created: bool,
    pub mnt_namespace_created: bool,
    pub uts_namespace_created: bool,
    pub ipc_namespace_created: bool,
    pub cgroup_namespace_created: bool,
}

impl Default for NamespaceChanges {
    /// No namespace seen yet.
    fn default() -> (r: NamespaceChanges)
        ensures
            !r.pid_namespace_created && !r.net_namespace_created && !r.mnt_namespace_created
                && !r.uts_namespace_created && !r.ipc_namespace_created
                && !r.cgroup_namespace_created,
    {
        NamespaceChanges {
            pid_namespace_created: false,
            net_namespace_created: false,
            mnt_namespace_created: false,
            uts_namespace_created: false,
            ipc_namespace_created: false,
            cgroup_namespace_created: false,
        }
    }
}

/// Which resource controls the pod's cgroup carries, and where it lives.
#[derive(Clone, Debug)]
pub struct CgroupOperations {
    pub cpu_limit_set: bool,
    pub memory_limit_set: bool,
    pub pids_limit_set: bool,
    pub io_limit_set: bool,
    pub cgroup_path: String,
}

impl Default for CgroupOperations {
    /// No control seen yet, no path known.
    fn default() -> (r: CgroupOperations)
        ensures
            !r.cpu_limit_set && !r.memory_limit_set && !r.pids_limit_set && !r.io_limit_set
                && r.cgroup_path@.len() == 0,
    {
        CgroupOperations {
            cpu_limit_set: false,
            memory_limit_set: false,
            pids_limit_set: false,
            io_limit_set: false,
            cgroup_path: String::new(),
        }
    }
}

/// Everything observed about one pod's creation.
#[derive(Debug)]
pub struct PodLifecycleEvents {
    pub pod_name: String,
    pub operations: Vec<KernelOperation>,
    pub namespace_changes: NamespaceChanges,
    pub cgroup_operations: CgroupOperations,
    pub total_duration_ms: u64,
}

/// Whether `c` is blank space.
pub open spec fn is_ws_char(c: char) -> bool {
    c == ' ' || c == '\n' || c == '\t' || c == '\r'
}

/// The length of the blank prefix of `s`.
pub open spec fn ws_prefix_len(s: Seq<char>) -> int
    decreases s.len(),
{
    if s.len() == 0 || !is_ws_char(s[0]) {
        0
    } else {
        1 + ws_prefix_len(s.skip(1))
    }
}

/// The blank prefix ends at the first non-blank character.
proof fn lemma_ws_prefix(s: Seq<char>, k: int)
    requires
        0 <= k <= s.len(),
        forall|j: int| 0 <= j < k ==> is_ws_char(s[j]),
        k == s.len() || !is_ws_char(s[k]),
    ensures
        ws_prefix_len(s) == k,
    decreases k,
{
    if k > 0 {
        lemma_ws_prefix(s.skip(1), k - 1);
    }
}

/// Whether a cgroup limit file reports a set limit: its first word, after
/// leading blank space, is anything but `max`.
pub open spec fn limit_is_set_spec(content: Seq<char>) -> bool {
    !match_at(content, "max"@, ws_prefix_len(content))
}

/// Tests the content of a cgroup limit file (`cpu.max`, `memory.max`) for a
/// set limit.
pub fn limit_is_set(content: &str) -> (r: bool)
    ensures
        r == limit_is_set_spec(content@),
{
    let n = content.unicode_len();
    let mut i: usize = 0;
    while i < n
        invariant
            i <= n,
            n == content@.len(),
            forall|j: int| 0 <= j < i ==> is_ws_char(content@[j]),
        decreases n - i,
    {
        let c = content.get_char(i);
        if !(c == ' ' || c == '\n' || c == '\t' || c == '\r') {
            proof {
                lemma_ws_prefix(content@, i as int);
                reveal_strlit("max");
            }
            if n - i >= 3 {
                let head = content.substring_char(i, i + 3);
                let hit = str_eq(head, "max");
                proof {
                    assert(head@ =~= content@.subrange(i as int, i + 3 as int));
                }
                return !hit;
            }
            proof {
                assert(!match_at(content@, "max"@, i as int));
            }
            return true;
        }
        i = i + 1;
    }
    proof {
        lemma_ws_prefix(content@, n as int);
        reveal_strlit("max");
        assert(!match_at(content@, "max"@, n as int));
    }
    true
}

/// The number of non-empty lines of a `cgroup.procs` file.
pub open spec fn nonempty_line_count(lines: Seq<Seq<char>>) -> int
    decreases lines.len(),
{
    if lines.len() == 0 {
        0
    } else {
        nonempty_line_count(lines.drop_last()) + if lines.last().len() > 0 {
            1int
        } else {
            0int
        }
    }
}

/// The count is bounded by the number of lines.
proof fn lemma_nonempty_count_bounded(lines: Seq<Seq<char>>)
    ensures
        0 <= nonempty_line_count(lines) <= lines.len(),
    decreases lines.len(),
{
    if lines.len() > 0 {
        lemma_nonempty_count_bounded(lines.drop_last());
    }
}

/// Counts the processes listed in the content of a `cgroup.procs` file — its
/// non-empty lines — saturating at the counter's width.
pub fn count_processes(content: &str) -> (r: u32)
    ensures
        r == if nonempty_line_count(split_lines_spec(content@)) > u32::MAX {
            u32::MAX as int
        } else {
            nonempty_line_count(split_lines_spec(content@))
        },
{
    let lines = split_lines(content);
    let ghost lv = split_lines_spec(content@);
    let mut count: u32 = 0;
    let mut i: usize = 0;
    proof {
        lemma_nonempty_count_bounded(lv);
    }
    while i < lines.len()
        invariant
            lines@.len() == lv.len(),
            forall|j: int| 0 <= j < lv.len() ==> lines@[j]@ == lv[j],
            i <= lv.len(),
            count == if nonempty_line_count(lv.subrange(0, i as int)) > u32::MAX {
                u32::MAX as int
            } else {
                nonempty_line_count(lv.subrange(0, i as int))
            },
        decreases lv.len() - i,
    {
        proof {
            assert(lv.subrange(0, i + 1 as int).drop_last() =~= lv.subrange(0, i as int));
            assert(lv.subrange(0, i + 1 as int).last() == lv[i as int]);
            lemma_nonempty_count_bounded(lv.subrange(0, i + 1 as int));
        }
        if lines[i].as_str().unicode_len() > 0 {
            if count < u32::MAX {
                count = count + 1;
            }
        }
        i = i + 1;
    }
    proof {
        assert(lv.subrange(0, lv.len() as int) =~= lv);
    }
    count
}

/// `yes` or `no`.
pub open spec fn mark(b: bool) -> Seq<char> {
    if b {
        "yes"@
    } else {
        "no"@
    }
}

/// One line of the kernel cascade: the timestamp right-aligned to four
/// places, the operation type left-aligned to twenty, then the details.
pub open spec fn op_line_spec(op: KernelOperation) -> Seq<char> {
    "["@ + pad_left_spec(dec_str(op.timestamp_ms as int), 4) + "ms] "@ + pad_right_spec(
        op.op_type@,
        20,
    ) + " "@ + op.details@ + "\n"@
}

/// The cascade section: one line per operation, in order.
pub open spec fn ops_report(ops: Seq<KernelOperation>) -> Seq<char>
    decreases ops.len(),
{
    if ops.len() == 0 {
        Seq::empty()
    } else {
        ops_report(ops.drop_last()) + op_line_spec(ops.last())
    }
}

/// One `label: yes/no` line of the report.
pub open spec fn flag_line_spec(label: Seq<char>, b: bool) -> Seq<char> {
    label + ": "@ + mark(b) + "\n"@
}

/// The whole birth certificate: header, identity, the kernel cascade, the
/// namespace isolation flags, and the resource controls.
pub open spec fn certificate_spec(
    pod_name: Seq<char>,
    duration_ms: u64,
    ops: Seq<KernelOperation>,
    ns: NamespaceChanges,
    cg: CgroupOperations,
) -> Seq<char> {
    "POD BIRTH CERTIFICATE\n"@ + repeat_char('=', 60) + "\n\nPod: "@ + pod_name
        + "\nBirth Duration: "@ + dec_str(duration_ms as int)
        + " ms\n\nKERNEL CASCADE OF EVENTS:\n"@ + repeat_char('-', 30) + "\n"@ + ops_report(ops)
        + "\nNAMESPACE ISOLATION:\n"@ + repeat_char('-', 30) + "\n"@ + flag_line_spec(
        "PID namespace"@,
        ns.pid_namespace_created,
    ) + flag_line_spec("Network namespace"@, ns.net_namespace_created) + flag_line_spec(
        "Mount namespace"@,
        ns.mnt_namespace_created,
    ) + flag_line_spec("UTS namespace"@, ns.uts_namespace_created) + flag_line_spec(
        "IPC namespace"@,
        ns.ipc_namespace_created,
    ) + flag_line_spec("Cgroup namespace"@, ns.cgroup_namespace_created)
        + "\nRESOURCE CONTROLS:\n"@ + repeat_char('-', 30) + "\n"@ + flag_line_spec(
        "CPU limits"@,
        cg.cpu_limit_set,
    ) + flag_line_spec("Memory limits"@, cg.memory_limit_set)
}

/// Marker for the pod-lifecycle observer.
pub struct PodLifecycleObserver;

impl PodLifecycleObserver {
    /// Renders the birth certificate of one observed pod creation.
    pub fn generate_birth_certificate(events: &PodLifecycleEvents) -> (r: String)
        ensures
            r@ == certificate_spec(
                events.pod_name@,
                events.total_duration_ms,
                events.operations@,
                events.namespace_changes,
                events.cgroup_operations,
            ),
    {
        let sixty = repeat_dashes_or_equals('=', 60);
        let thirty = repeat_dashes_or_equals('-', 30);
        let mut cert = String::new();
        cert.append("POD BIRTH CERTIFICATE\n");
        cert.append(sixty.as_str());
        cert.append("\n\nPod: ");
        cert.append(events.pod_name.as_str());
        cert.append("\nBirth Duration: ");
        cert.append(u64_to_string(events.total_duration_ms).as_str());
        cert.append(" ms\n\nKERNEL CASCADE OF EVENTS:\n");
        cert.append(thirty.as_str());
        cert.append("\n");
        let ops = &events.operations;
        let mut i: usize = 0;
        let ghost before_ops = cert@;
        while i < ops.len()
            invariant
                i <= ops@.len(),
                cert@ == before_ops + ops_report(ops@.subrange(0, i as int)),
            decreases ops@.len() - i,
        {
            proof {
                assert(ops@.subrange(0, i + 1 as int).drop_last() =~= ops@.subrange(0, i as int));
                assert(ops@.subrange(0, i + 1 as int).last() == ops@[i as int]);
            }
            let op = &ops[i];
            cert.append("[");
            cert.append(pad_left(u64_to_string(op.timestamp_ms).as_str(), 4).as_str());
            cert.append("ms] ");
            cert.append(pad_right(op.op_type.as_str(), 20).as_str());
            cert.append(" ");
            cert.append(op.details.as_str());
            cert.append("\n");
            proof {
                assert(cert@ =~= before_ops + ops_report(ops@.subrange(0, i + 1 as int)));
            }
            i = i + 1;
        }
        proof {
            assert(ops@.subrange(0, ops@.len() as int) =~= ops@);
        }
        cert.append("\nNAMESPACE ISOLATION:\n");
        cert.append(thirty.as_str());
        cert.append("\n");
        append_flag_line(&mut cert, "PID namespace", events.namespace_changes.pid_namespace_created);
        append_flag_line(
            &mut cert,
            "Network namespace",
            events.namespace_changes.net_namespace_created,
        );
        append_flag_line(
            &mut cert,
            "Mount namespace",
            events.namespace_changes.mnt_namespace_created,
        );
        append_flag_line(&mut cert, "UTS namespace", events.namespace_changes.uts_namespace_created);
        append_flag_line(&mut cert, "IPC namespace", events.namespace_changes.ipc_namespace_created);
        append_flag_line(
            &mut cert,
            "Cgroup namespace",
            events.namespace_changes.cgroup_namespace_created,
        );
        cert.append("\nRESOURCE CONTROLS:\n");
        cert.append(thirty.as_str());
        cert.append("\n");
        append_flag_line(&mut cert, "CPU limits", events.cgroup_operations.cpu_limit_set);
        append_flag_line(&mut cert, "Memory limits", events.cgroup_operations.memory_limit_set);
        proof {
            assert(cert@ =~= certificate_spec(
                events.pod_name@,
                events.total_duration_ms,
                events.operations@,
                events.namespace_changes,
                events.cgroup_operations,
            ));
        }
        cert
    }
}

/// Appends one `label: yes/no` line.
fn append_flag_line(out: &mut String, label: &str, b: bool)
    ensures
        final(out)@ == old(out)@ + flag_line_spec(label@, b),
{
    out.append(label);
    out.append(": ");
    if b {
        out.append("yes");
    } else {
        out.append("no");
    }
    out.append("\n");
    proof {
        assert(out@ =~= old(out)@ + flag_line_spec(label@, b));
    }
}

/// A separator line of repeated `=` or `-`.
fn repeat_dashes_or_equals(c: char, n: usize) -> (r: String)
    requires
        c == '=' || c == '-',
    ensures
        r@ == repeat_char(c, n as int),
{
    proof {
        reveal_strlit("=");
        reveal_strlit("-");
        assert("="@ =~= seq!['=']);
        assert("-"@ =~= seq!['-']);
    }
    let mut out = String::new();
    let mut i: usize = 0;
    while i < n
        invariant
            i <= n,
            c == '=' || c == '-',
            out@ == repeat_char(c, i as int),
        decreases n - i,
    {
        if c == '=' {
            out.append("=");
        } else {
            out.append("-");
        }
        proof {
            reveal_strlit("=");
            reveal_strlit("-");
            assert("="@ =~= seq!['=']);
            assert("-"@ =~= seq!['-']);
            assert(out@ =~= repeat_char(c, i + 1 as int));
        }
        i = i + 1;
    }
    out
}

} // verus!
