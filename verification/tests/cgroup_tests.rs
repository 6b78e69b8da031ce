use we_layerd::cgroup::{
    attach_writes, cgroup_abs_path, cgroup_mode_name, cgroup_path_from_proc, cpu_usage_from_stat, escape_toml,
    memory_current_from, wine_limit_group_paths, ProcCgroupStats, RuntimeCgroup,
};
use we_layerd::config::{CgroupConfig, CgroupMode};

fn limit_cfg() -> CgroupConfig {
    CgroupConfig {
        enabled: true,
        mode: CgroupMode::LimitWine,
        memory_max: Some("2147483648".to_string()),
        cpu_max: Some("50000 100000".to_string()),
    }
}

#[test]
fn wine_spawn_is_limited_only_in_limit_mode() {
    let mut c = RuntimeCgroup::new(limit_cfg());
    assert!(c.on_wine_spawn(4242));
    assert_eq!(c.wine_pid, Some(4242));
    let mut d = RuntimeCgroup::new(CgroupConfig { mode: CgroupMode::Detect, ..limit_cfg() });
    assert!(!d.on_wine_spawn(1));
    let mut off = RuntimeCgroup::new(CgroupConfig { enabled: false, ..limit_cfg() });
    assert!(!off.on_wine_spawn(1));
}

#[test]
fn status_block_in_limit_mode() {
    let mut c = RuntimeCgroup::new(limit_cfg());
    c.on_wine_spawn(77);
    c.set_error("write \"failed\"".to_string());
    let limit = Some(ProcCgroupStats {
        path: "user.slice/we-layerd/wine".to_string(),
        cpu_usage_usec: Some(1500),
        memory_current: None,
    });
    let text = c.render_status_toml(12, &None, &None, &limit);
    assert_eq!(
        text,
        "[status.cgroup]\nenabled = true\nmode = \"limit_wine\"\nmemory_max = \"2147483648\"\ncpu_max = \"50000 100000\"\nsupported = true\nself_pid = 12\nwine_pid = 77\nwine_limit_cgroup = \"user.slice/we-layerd/wine\"\nwine_limit_cpu_usage_usec = 1500\nlast_error = \"write \\\"failed\\\"\"\n"
    );
}

#[test]
fn status_block_in_detect_mode_without_wine() {
    let c = RuntimeCgroup::new(CgroupConfig { enabled: true, mode: CgroupMode::Detect, memory_max: None, cpu_max: None });
    let own = Some(ProcCgroupStats { path: "/a".to_string(), cpu_usage_usec: None, memory_current: Some(9) });
    let text = c.render_status_toml(1, &own, &None, &None);
    assert_eq!(
        text,
        "[status.cgroup]\nenabled = true\nmode = \"detect\"\nsupported = true\nself_pid = 1\nself_cgroup = \"/a\"\nself_memory_current = 9\n"
    );
}

#[test]
fn toml_escaping_and_mode_names() {
    assert_eq!(escape_toml("a\\b\"c"), "a\\\\b\\\"c");
    assert_eq!(cgroup_mode_name(CgroupMode::Detect), "detect");
    assert_eq!(cgroup_mode_name(CgroupMode::LimitWine), "limit_wine");
}

#[test]
fn kernel_files_are_read() {
    assert_eq!(cgroup_path_from_proc("1:name=x:/y\n0::/user.slice/app.scope\n").as_deref(), Some("/user.slice/app.scope"));
    assert_eq!(cgroup_path_from_proc("1:cpu:/x\n"), None);
    assert_eq!(cpu_usage_from_stat("usage_usec 12345\nuser_usec 1\n"), Some(12345));
    assert_eq!(cpu_usage_from_stat("usage_usec x\nusage_usec 5\n"), Some(5));
    assert_eq!(cpu_usage_from_stat("user_usec 1\n"), None);
    assert_eq!(memory_current_from("  4096\n"), Some(4096));
    assert_eq!(memory_current_from("max\n"), None);
}

#[test]
fn limit_group_paths() {
    assert_eq!(cgroup_abs_path("//user.slice"), "/sys/fs/cgroup/user.slice");
    let (abs, shown) = wine_limit_group_paths("/user.slice/app.scope/");
    assert_eq!(abs, "/sys/fs/cgroup/user.slice/app.scope/we-layerd/wine");
    assert_eq!(shown, "user.slice/app.scope/we-layerd/wine");
}

#[test]
fn attaching_writes_limits_then_pid() {
    let w = attach_writes(&limit_cfg(), 99, "/sys/fs/cgroup/g");
    assert_eq!(
        w,
        vec![
            ("/sys/fs/cgroup/g/memory.max".to_string(), "2147483648".to_string()),
            ("/sys/fs/cgroup/g/cpu.max".to_string(), "50000 100000".to_string()),
            ("/sys/fs/cgroup/g/cgroup.procs".to_string(), "99".to_string()),
        ]
    );
    let w = attach_writes(&CgroupConfig { memory_max: None, cpu_max: None, ..limit_cfg() }, 5, "/g");
    assert_eq!(w, vec![("/g/cgroup.procs".to_string(), "5".to_string())]);
}

#[test]
fn attach_failures_become_the_last_error_and_the_latest_pid_is_reported() {
    let mut cg = RuntimeCgroup::new(limit_cfg());
    assert!(cg.on_wine_spawn(41));
    cg.record_attach_result(Err("permission denied".to_string()));
    assert_eq!(cg.last_error.as_deref(), Some("cgroup limit attach failed: permission denied"));
    assert!(cg.on_wine_spawn(42));
    cg.record_attach_result(Ok(()));
    assert_eq!(cg.last_error.as_deref(), Some("cgroup limit attach failed: permission denied"));
    let status = cg.render_status_toml(7, &None, &None, &None);
    assert!(status.contains("self_pid = 7\nwine_pid = 42\n"));
    assert!(!status.contains("wine_pid = 41"));
}
