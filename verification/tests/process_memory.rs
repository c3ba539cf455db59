use llm_access::process_memory::{
    parse_cgroup_bytes_value, parse_cgroup_v2_relative_path, parse_proc_status_kib_line,
    read_cgroup_v2_dir, read_proc_status_memory, read_process_memory_stats_from_paths, CgroupFiles,
};

#[test]
fn proc_status_kib_line_converts_to_bytes() {
    assert_eq!(parse_proc_status_kib_line("VmRSS:\t  1234 kB", "VmRSS:"), Some(1_263_616));
    assert_eq!(parse_proc_status_kib_line("VmSize: none", "VmRSS:"), None);
}

#[test]
fn cgroup_bytes_value_treats_max_as_unlimited() {
    assert_eq!(parse_cgroup_bytes_value("3221225472\n"), Some(3_221_225_472));
    assert_eq!(parse_cgroup_bytes_value("max\n"), None);
}

#[test]
fn cgroup_v2_path_uses_unified_hierarchy() {
    let raw = "0::/system.slice/llm-access-usage-worker.service\n";
    assert_eq!(
        parse_cgroup_v2_relative_path(raw).as_deref(),
        Some("/system.slice/llm-access-usage-worker.service")
    );
}

#[test]
fn amounts_that_do_not_fit_are_unknown() {
    assert_eq!(parse_proc_status_kib_line("VmRSS: 18014398509481983 kB", "VmRSS:"), Some(
        18_446_744_073_709_550_592
    ));
    assert_eq!(parse_proc_status_kib_line("VmRSS: 18014398509481984 kB", "VmRSS:"), None);
    assert_eq!(parse_proc_status_kib_line("VmRSS:", "VmRSS:"), None);
    assert_eq!(parse_proc_status_kib_line("VmRSS: many kB", "VmRSS:"), None);
}

#[test]
fn status_file_gives_both_amounts() {
    let status = "Name:\tllm\nVmSize:\t    2048 kB\nVmRSS:\t     10 kB\nThreads:\t4\n";
    assert_eq!(read_proc_status_memory(status), (Some(10_240), Some(2_097_152)));
    assert_eq!(read_proc_status_memory(""), (None, None));
    assert_eq!(read_proc_status_memory("VmRSS: 1 kB\nVmRSS: 2 kB\nVmRSS: x kB"), (Some(2048), None));
}

#[test]
fn control_group_directory_lies_in_the_root() {
    assert_eq!(
        read_cgroup_v2_dir("1:cpu:/other\n0::/a/b\n", "/sys/fs/cgroup").as_deref(),
        Some("/sys/fs/cgroup/a/b")
    );
    assert_eq!(
        read_cgroup_v2_dir("0::a:b", "/sys/fs/cgroup/").as_deref(),
        Some("/sys/fs/cgroup/a:b")
    );
    assert_eq!(read_cgroup_v2_dir("0:://x\n", "/sys/fs/cgroup").as_deref(), Some("/x"));
    assert_eq!(read_cgroup_v2_dir("1:cpu:/other\n", "/sys/fs/cgroup"), None);
}

#[test]
fn memory_stats_collect_every_file() {
    let files = CgroupFiles {
        current: Some("100\n"),
        peak: Some(" 200 "),
        high: Some("max"),
        max: None,
        swap_current: Some(""),
        swap_max: Some("7"),
    };
    let stats = read_process_memory_stats_from_paths(Some("VmRSS: 3 kB\nVmSize: 5 kB"), &files);
    assert_eq!(stats.rss_bytes, Some(3072));
    assert_eq!(stats.virtual_bytes, Some(5120));
    assert_eq!(stats.cgroup_current_bytes, Some(100));
    assert_eq!(stats.cgroup_peak_bytes, Some(200));
    assert_eq!(stats.cgroup_high_bytes, None);
    assert_eq!(stats.cgroup_max_bytes, None);
    assert_eq!(stats.cgroup_swap_current_bytes, None);
    assert_eq!(stats.cgroup_swap_max_bytes, Some(7));
    assert_eq!(read_process_memory_stats_from_paths(None, &files).rss_bytes, None);
}
