use kernel_gossip::parser::{parse_line, MountOpKind, NamespaceOpKind, TraceEvent};
use kernel_gossip::strutil::{extract_metric, extract_token, format_tenths, u64_to_string};

#[test]
fn test_parse_throttle_line_recovers_fields_verbatim() {
    let line = "CPU_THROTTLE_EVENT pid=1234 comm=nginx throttle_ns=50000000 timestamp=1699999999";
    match parse_line(line) {
        Some(TraceEvent::CpuThrottle { pid, comm, throttle_ns, timestamp }) => {
            assert_eq!(pid, 1234);
            assert_eq!(comm, "nginx");
            assert_eq!(throttle_ns, 50000000);
            assert_eq!(timestamp, 1699999999);
        },
        other => panic!("expected a throttle event, got {other:?}"),
    }
}

#[test]
fn test_parse_unknown_tag_yields_nothing() {
    assert!(parse_line("SOME_OTHER_RECORD pid=1 comm=x").is_none());
    assert!(parse_line("").is_none());
    assert!(parse_line("Attaching 4 probes...").is_none());
}

#[test]
fn test_parse_malformed_known_tag_yields_nothing() {
    // The tag is there but the pid field is missing.
    assert!(parse_line("CPU_THROTTLE_EVENT comm=nginx throttle_ns=1 timestamp=2").is_none());
    // A pid too large for a kernel pid.
    assert!(parse_line("CPU_THROTTLE_EVENT pid=99999999999 comm=x throttle_ns=1 timestamp=2")
        .is_none());
}

#[test]
fn test_parse_process_start_line() {
    let line = "CONTAINER_PROCESS_START pid=100 ppid=50 comm=runc timestamp_ms=777";
    match parse_line(line) {
        Some(TraceEvent::ProcessStart { pid, ppid, comm, timestamp_ms }) => {
            assert_eq!(pid, 100);
            assert_eq!(ppid, 50);
            assert_eq!(comm, "runc");
            assert_eq!(timestamp_ms, 777);
        },
        other => panic!("expected a process start, got {other:?}"),
    }
}

#[test]
fn test_parse_namespace_and_mount_ops() {
    match parse_line("CONTAINER_NAMESPACE_OP pid=100 type=unshare timestamp_ms=5") {
        Some(TraceEvent::NamespaceOp { pid, op, timestamp_ms }) => {
            assert_eq!(pid, 100);
            assert_eq!(op, NamespaceOpKind::UnshareOp);
            assert_eq!(timestamp_ms, 5);
        },
        other => panic!("expected a namespace op, got {other:?}"),
    }
    match parse_line("CONTAINER_MOUNT_OP pid=100 type=pivot_root timestamp_ms=6") {
        Some(TraceEvent::MountOp { pid, op, timestamp_ms }) => {
            assert_eq!(pid, 100);
            assert_eq!(op, MountOpKind::PivotRootOp);
            assert_eq!(timestamp_ms, 6);
        },
        other => panic!("expected a mount op, got {other:?}"),
    }
    // An undocumented operation kind is rejected.
    assert!(parse_line("CONTAINER_NAMESPACE_OP pid=100 type=fork timestamp_ms=5").is_none());
}

#[test]
fn test_parse_birth_complete_line() {
    let line = "CONTAINER_BIRTH_COMPLETE pid=7 ppid=3 comm=runc total_syscalls=1247 \
                namespace_ops=12 mount_ops=8 duration_ns=123000000 timestamp_ms=42";
    match parse_line(line) {
        Some(TraceEvent::BirthComplete {
            pid,
            ppid,
            comm,
            total_syscalls,
            namespace_ops,
            mount_ops,
            duration_ns,
            timestamp_ms,
        }) => {
            assert_eq!(pid, 7);
            assert_eq!(ppid, 3);
            assert_eq!(comm, "runc");
            assert_eq!(total_syscalls, 1247);
            assert_eq!(namespace_ops, 12);
            assert_eq!(mount_ops, 8);
            assert_eq!(duration_ns, 123000000);
            assert_eq!(timestamp_ms, 42);
        },
        other => panic!("expected a birth completion, got {other:?}"),
    }
}

#[test]
fn test_parse_main_and_syscalls_lines() {
    match parse_line("CONTAINER_MAIN pid=9 ppid=7 comm=nginx timestamp_ms=8") {
        Some(TraceEvent::Main { pid, ppid, comm, timestamp_ms }) => {
            assert_eq!(pid, 9);
            assert_eq!(ppid, 7);
            assert_eq!(comm, "nginx");
            assert_eq!(timestamp_ms, 8);
        },
        other => panic!("expected a main event, got {other:?}"),
    }
    match parse_line("CONTAINER_SYSCALLS pid=9 total=55 timestamp_ms=8") {
        Some(TraceEvent::SyscallProgress { pid, total, timestamp_ms }) => {
            assert_eq!(pid, 9);
            assert_eq!(total, 55);
            assert_eq!(timestamp_ms, 8);
        },
        other => panic!("expected a progress event, got {other:?}"),
    }
}

#[test]
fn test_extract_metric_and_token() {
    assert_eq!(extract_metric("a pid=42 b", "pid="), Some(42));
    assert_eq!(extract_metric("a pid=42", "pid="), Some(42));
    assert_eq!(extract_metric("a pid= b", "pid="), None);
    assert_eq!(extract_metric("a pid=4x2", "pid="), None);
    assert_eq!(extract_metric("nothing here", "pid="), None);
    assert_eq!(extract_token("x comm=nginx y", "comm="), Some("nginx".to_string()));
    assert_eq!(extract_token("x comm= y", "comm="), None);
}

#[test]
fn test_decimal_formatting() {
    assert_eq!(u64_to_string(0), "0");
    assert_eq!(u64_to_string(7), "7");
    assert_eq!(u64_to_string(1704067200000), "1704067200000");
    assert_eq!(format_tenths(855), "85.5");
    assert_eq!(format_tenths(1000), "100.0");
    assert_eq!(format_tenths(0), "0.0");
    assert_eq!(format_tenths(5), "0.5");
}
