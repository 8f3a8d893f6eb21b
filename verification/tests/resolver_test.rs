use kernel_gossip::resolver::{
    extract_pod_uid, extract_pod_uid_from_cgroup_content, extract_pod_uid_from_cgroup_line,
    find_runtime_ancestor, hostname_from_environ, is_container_runtime,
    parse_cpu_quantity_millicores, parse_top_cpu_millicores, resolution_queries,
    sum_cpu_quantities, ProcEntry, ProcSnapshot, ResolveQuery,
};

#[test]
fn test_uid_from_systemd_slice_line() {
    // The systemd slice form with underscores: the UID comes back normalized.
    let line = "0::/kubepods.slice/kubepods-burstable.slice/kubepods-burstable-pod2bac1a6a_95d3_4abc_990f_aefaf5c74812.slice/cri-containerd-0123456789abcdef.scope";
    assert_eq!(
        extract_pod_uid_from_cgroup_line(line),
        Some("2bac1a6a-95d3-4abc-990f-aefaf5c74812".to_string())
    );
}

#[test]
fn test_uid_from_cgroupfs_line() {
    let line = "0::/kubepods/besteffort/pod7c5c5d8e-5a1a-4b3c-8d1e-9f8e7c6d5a4b/container123";
    assert_eq!(
        extract_pod_uid_from_cgroup_line(line),
        Some("7c5c5d8e-5a1a-4b3c-8d1e-9f8e7c6d5a4b".to_string())
    );
}

#[test]
fn test_uid_extraction_rejects_short_segments() {
    assert_eq!(extract_pod_uid_from_cgroup_line("0::/system.slice/ssh.service"), None);
    assert_eq!(extract_pod_uid_from_cgroup_line("0::/kubepods.slice/kubepods-pod1234.slice"), None);
}

#[test]
fn test_uid_from_whole_cgroup_file() {
    let content = "12:cpu:/system.slice\n0::/kubepods.slice/kubepods-burstable.slice/kubepods-burstable-pod2bac1a6a_95d3_4abc_990f_aefaf5c74812.slice/x";
    assert_eq!(
        extract_pod_uid_from_cgroup_content(content),
        Some("2bac1a6a-95d3-4abc-990f-aefaf5c74812".to_string())
    );
    assert_eq!(extract_pod_uid_from_cgroup_content("0::/init.scope"), None);
}

#[test]
fn test_uid_from_cgroup_directory_name() {
    // The first `pod` of the directory name decides, as the scanner is
    // defined; `kubepods` itself carries none before the class segment.
    assert_eq!(
        extract_pod_uid("besteffort-pod2bac1a6a_95d3.slice"),
        "2bac1a6a_95d3".to_string()
    );
    // Without the .slice suffix the whole name comes back.
    assert_eq!(extract_pod_uid("plain-directory"), "plain-directory".to_string());
}

#[test]
fn test_runtime_set() {
    assert!(is_container_runtime("runc"));
    assert!(is_container_runtime("crun"));
    assert!(is_container_runtime("conmon"));
    assert!(is_container_runtime("containerd-shim"));
    assert!(is_container_runtime("containerd-shim-runc-v2"));
    assert!(!is_container_runtime("nginx"));
    assert!(!is_container_runtime("systemd"));
}

fn entry(pid: u32, comm: &str) -> ProcEntry {
    ProcEntry { pid, comm: comm.to_string(), cgroup_content: None }
}

#[test]
fn test_runtime_ancestor_found_within_depth() {
    let chain = vec![entry(100, "nginx"), entry(50, "containerd-shim"), entry(1, "systemd")];
    assert_eq!(find_runtime_ancestor(&chain), Some(1));
}

#[test]
fn test_runtime_ancestor_depth_is_bounded() {
    let mut chain: Vec<ProcEntry> = Vec::new();
    for i in 0..10 {
        chain.push(entry(100 + i, "bash"));
    }
    chain.push(entry(42, "runc"));
    // The runtime sits at depth ten: out of the bounded walk.
    assert_eq!(find_runtime_ancestor(&chain), None);
}

#[test]
fn test_hostname_from_environ() {
    let environ = "PATH=/bin\u{0}HOSTNAME=web-5f7d8\u{0}HOME=/root\u{0}";
    assert_eq!(hostname_from_environ(environ), Some("web-5f7d8".to_string()));
    assert_eq!(hostname_from_environ("PATH=/bin\u{0}HOME=/root"), None);
}

#[test]
fn test_cpu_quantity_parsing() {
    assert_eq!(parse_cpu_quantity_millicores("100m"), 100);
    assert_eq!(parse_cpu_quantity_millicores("1"), 1000);
    assert_eq!(parse_cpu_quantity_millicores("2"), 2000);
    assert_eq!(parse_cpu_quantity_millicores("0.5"), 500);
    assert_eq!(parse_cpu_quantity_millicores("1.25"), 1250);
    assert_eq!(parse_cpu_quantity_millicores("not-a-number"), 0);
    assert_eq!(parse_cpu_quantity_millicores(""), 0);
}

#[test]
fn test_cpu_quantity_sum() {
    let qs = vec!["100m".to_string(), "0.5".to_string(), "1".to_string()];
    assert_eq!(sum_cpu_quantities(&qs), 1600);
}

#[test]
fn test_resolution_prefers_own_cgroup_uid() {
    let snap = ProcSnapshot {
        cgroup_content: Some(
            "0::/kubepods/besteffort/pod7c5c5d8e-5a1a-4b3c-8d1e-9f8e7c6d5a4b/c1".to_string(),
        ),
        chain: vec![entry(4242, "nginx")],
        environ: None,
    };
    let queries = resolution_queries(&snap);
    assert_eq!(queries.len(), 1);
    match &queries[0] {
        ResolveQuery::ByUid(uid) => {
            assert_eq!(uid, "7c5c5d8e-5a1a-4b3c-8d1e-9f8e7c6d5a4b");
        },
        _ => panic!("the cgroup strategy resolves by UID"),
    }
}

#[test]
fn test_resolution_falls_back_to_hostname() {
    let snap = ProcSnapshot {
        cgroup_content: Some("0::/init.scope".to_string()),
        chain: vec![entry(4242, "nginx"), entry(1, "systemd")],
        environ: Some("HOSTNAME=web-5f7d8\u{0}".to_string()),
    };
    let queries = resolution_queries(&snap);
    assert_eq!(queries.len(), 1);
    assert!(matches!(&queries[0], ResolveQuery::ByName(n) if n == "web-5f7d8"));
}

#[test]
fn test_resolution_returns_none_without_any_identity() {
    // No pod segment in the cgroup, no runtime ancestor, no hostname: the
    // resolver yields no query and the event is dropped.
    let snap = ProcSnapshot {
        cgroup_content: Some("0::/init.scope".to_string()),
        chain: vec![entry(4242, "nginx"), entry(1, "systemd")],
        environ: Some("PATH=/bin\u{0}".to_string()),
    };
    assert!(resolution_queries(&snap).is_empty());
}

#[test]
fn test_top_report_cpu_column() {
    assert_eq!(parse_top_cpu_millicores("web-5f7d8   100m   256Mi"), Some(100));
    assert_eq!(parse_top_cpu_millicores("web-5f7d8   2   256Mi"), Some(2000));
    assert_eq!(parse_top_cpu_millicores("lonely"), None);
    assert_eq!(parse_top_cpu_millicores(""), None);
}
