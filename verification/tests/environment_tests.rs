use bluemap_renderer::clock::{elapsed_seconds, job_dir_name, Timestamp};
use bluemap_renderer::commands::{
    diagnostic_report, lock_error, open_external_result, port_search_end, ports_unavailable_message, OpenOutcome,
};
use bluemap_renderer::environment::{
    check_environment, check_tools, check_world, probe_java_failure, probe_java_output,
    recommended_threads,
};
use bluemap_renderer::job::RenderManager;
use bluemap_renderer::status::status_from_manager;
use bluemap_renderer::world::inspect_world_path;

#[test]
fn recommended_threads_stay_between_one_and_four() {
    assert_eq!(recommended_threads(0), 1);
    assert_eq!(recommended_threads(1), 1);
    assert_eq!(recommended_threads(3), 2);
    assert_eq!(recommended_threads(5), 4);
    assert_eq!(recommended_threads(64), 4);
}

#[test]
fn probe_reads_java_output() {
    let j = probe_java_output(String::new(), "openjdk version \"21.0.1\" 2023-10-17\n".to_string(), true);
    assert!(j.found);
    assert_eq!(j.version.as_deref(), Some("21.0.1"));
    assert_eq!(j.major, Some(21));
    assert_eq!(j.path.as_deref(), Some("java"));
    let odd = probe_java_output("garbage".to_string(), String::new(), false);
    assert!(!odd.found);
    assert_eq!(odd.output, "garbage");
    let failed = probe_java_failure("not found".to_string());
    assert!(!failed.found);
    assert!(failed.path.is_none());
}

#[test]
fn tools_check_needs_java_21_and_the_jar() {
    let old = probe_java_output(String::new(), "java version \"1.8.0_292\"".to_string(), true);
    assert_eq!(old.major, Some(8));
    assert_eq!(
        check_tools(&old, true),
        Err("需要 Java 21 或更新版本。请先安装对应系统架构的 JDK。".to_string())
    );
    let new = probe_java_output(String::new(), "openjdk version \"22\"".to_string(), true);
    assert_eq!(check_tools(&new, false), Err("找不到 bin/BlueMap-cli.jar，无法启动 BlueMap。".to_string()));
    assert_eq!(check_tools(&new, true), Ok(()));
}

#[test]
fn world_check_refuses_folders_without_level_dat() {
    let bad = inspect_world_path("/x".to_string(), None, false, true, true, Ok((0, 0)));
    assert_eq!(
        check_world(bad).err(),
        Some("选择的目录不是有效的 Minecraft Java 世界目录。".to_string())
    );
    let good = inspect_world_path("/x".to_string(), None, true, true, true, Ok((0, 0)));
    assert!(check_world(good).is_ok());
}

#[test]
fn environment_report_is_assembled() {
    let java = probe_java_failure("missing".to_string());
    let env = check_environment(java, "linux".to_string(), "x86_64".to_string(), 8, 16 * 1024 * 1024 * 1024 + 5, Some("/bin/BlueMap-cli.jar".to_string()), false);
    assert_eq!(env.system.recommended_threads, 4);
    assert_eq!(env.system.total_memory_mb, Some(16 * 1024));
    assert!(!env.bluemap_jar_found);
    assert_eq!(env.bluemap_jar_path.as_deref(), Some("/bin/BlueMap-cli.jar"));
}

#[test]
fn clock_texts_come_from_chrono() {
    let env = check_environment(probe_java_failure(String::new()), String::new(), String::new(), 1, 0, None, false);
    let status = status_from_manager(&RenderManager::new(), (0, 0), Timestamp { secs: 0, nanos: 0 });
    let report = diagnostic_report(Timestamp { secs: 0, nanos: 0 }, env, status, None);
    assert_eq!(report.generated_at.as_deref(), Some("1970-01-01T00:00:00+00:00"));
    assert!(!report.environment.bluemap_jar_found);
    let env = check_environment(probe_java_failure(String::new()), String::new(), String::new(), 1, 0, None, false);
    let status = status_from_manager(&RenderManager::new(), (0, 0), Timestamp { secs: 0, nanos: 0 });
    let late = diagnostic_report(Timestamp { secs: 0, nanos: 2_000_000_000 }, env, status, None);
    assert_eq!(late.generated_at, None);
    assert_eq!(job_dir_name(Timestamp { secs: 1_700_000_000, nanos: 0 }).as_deref(), Some("render-20231114-221320"));
}

#[test]
fn elapsed_seconds_truncates_and_never_goes_negative() {
    let start = Timestamp { secs: 100, nanos: 900_000_000 };
    assert_eq!(elapsed_seconds(start, Timestamp { secs: 101, nanos: 800_000_000 }), 0);
    assert_eq!(elapsed_seconds(start, Timestamp { secs: 102, nanos: 900_000_000 }), 2);
    assert_eq!(elapsed_seconds(start, Timestamp { secs: 50, nanos: 0 }), 0);
}

#[test]
fn port_range_and_messages() {
    assert_eq!(port_search_end(8100), 8110);
    assert_eq!(port_search_end(65530), 65535);
    assert_eq!(ports_unavailable_message(8100, 8110), "端口 8100-8110 都不可用。");
    assert_eq!(lock_error(), "内部状态锁定失败。");
}

#[test]
fn open_results_report_failures() {
    assert_eq!(open_external_result(OpenOutcome::Finished { success: true, status: String::new() }), Ok(()));
    assert_eq!(
        open_external_result(OpenOutcome::Finished { success: false, status: "exit status: 3".to_string() }),
        Err("打开命令退出：exit status: 3".to_string())
    );
    assert_eq!(
        open_external_result(OpenOutcome::LaunchFailed { message: "no xdg-open".to_string() }),
        Err("打开失败：no xdg-open".to_string())
    );
}
