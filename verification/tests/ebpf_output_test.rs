use kernel_gossip::ebpf::{parse_cpu_throttling, parse_golden_syscalls, GoldenSyscalls};

#[test]
fn test_parse_golden_syscalls() {
    let bpftrace_output = r#"
GOLDEN_SYSCALL type=clone pid=1234 timestamp=1000000 comm=runc
GOLDEN_SYSCALL type=mount pid=1234 timestamp=2000000 comm=runc
GOLDEN_SYSCALL type=openat pid=1234 timestamp=3000000 comm=containerd
cgroup write detected
"#;

    let golden = parse_golden_syscalls(bpftrace_output);
    assert_eq!(golden.clone_count, 1);
    assert_eq!(golden.mount_count, 1);
    assert_eq!(golden.openat_count, 1);
    assert_eq!(golden.cgroup_writes, 1);
}

#[test]
fn test_parse_cpu_throttling() {
    let bpftrace_output = r#"
CPU_THROTTLE_EVENT pid=1234 comm=nginx throttle_ns=1000000
other line
CPU_THROTTLE_EVENT pid=5678 comm=stress throttle_ns=2000000
"#;

    let throttle_event = parse_cpu_throttling(bpftrace_output);
    assert!(throttle_event.is_some());

    let event = throttle_event.unwrap();
    assert_eq!(event.pid, 1234);
    assert_eq!(event.comm, "nginx");
    assert_eq!(event.throttle_ns, 1000000);
}

#[test]
fn test_golden_syscalls_default() {
    let golden = GoldenSyscalls::default();
    assert_eq!(golden.clone_count, 0);
    assert_eq!(golden.mount_count, 0);
    assert_eq!(golden.cgroup_writes, 0);
    assert_eq!(golden.openat_count, 0);
}

#[test]
fn test_parse_cpu_throttling_rejects_incomplete_lines() {
    // No comm: the line does not count as a throttle record.
    assert!(parse_cpu_throttling("CPU_THROTTLE_EVENT pid=1 throttle_ns=5").is_none());
    // pid zero is not a process.
    assert!(parse_cpu_throttling("CPU_THROTTLE_EVENT pid=0 comm=x throttle_ns=5").is_none());
    assert!(parse_cpu_throttling("nothing to see").is_none());
}

#[test]
fn test_golden_syscall_line_without_tag_is_ignored() {
    let golden = parse_golden_syscalls("type=clone without the tag\ncgroup elsewhere");
    assert_eq!(golden.clone_count, 0);
    assert_eq!(golden.cgroup_writes, 0);
}
