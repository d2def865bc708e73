use bluemap_renderer::clock::Timestamp;
use bluemap_renderer::job::{
    begin_job, check_not_running, exit_monitor_step, handle_log_line, handle_log_text,
    log_monitor_should_continue,
    preview_url, stop_render, ChildPoll, RenderManager, RenderState,
};
use bluemap_renderer::status::status_from_manager;

fn at(secs: i64) -> Timestamp {
    Timestamp { secs, nanos: 0 }
}

fn running_manager() -> RenderManager {
    let mut m = RenderManager::new();
    begin_job(
        &mut m,
        "job-1".to_string(),
        "/worlds/survival".to_string(),
        "/out/render-1".to_string(),
        "/out/render-1/web".to_string(),
        8100,
        at(1_700_000_000),
    );
    m
}

#[test]
fn default_state_is_idle() {
    assert_eq!(RenderState::default(), RenderState::Idle);
}

#[test]
fn begin_job_starts_a_running_job() {
    let m = running_manager();
    let job = m.job.as_ref().unwrap();
    assert_eq!(job.state, RenderState::Running);
    assert_eq!(job.preview_url, "http://127.0.0.1:8100");
    assert!(job.logs.is_empty());
    assert!(m.process_running);
    assert_eq!(preview_url(80), "http://127.0.0.1:80");
}

#[test]
fn second_render_is_refused_while_running() {
    let mut m = running_manager();
    assert_eq!(check_not_running(&m), Err("已有渲染任务正在运行。".to_string()));
    stop_render(&mut m, at(1_700_000_010));
    assert_eq!(check_not_running(&m), Ok(()));
    assert_eq!(check_not_running(&RenderManager::new()), Ok(()));
}

#[test]
fn log_lines_update_progress_completion_and_errors() {
    let mut m = running_manager();
    handle_log_line(&mut m, "[INFO] updating map 'overworld': 12.5% (ETA: 4:00)".to_string(), at(1_700_000_005));
    {
        let job = m.job.as_ref().unwrap();
        let p = job.progress.as_ref().unwrap();
        assert_eq!(p.map, "overworld");
        assert_eq!(p.percent, "12.5");
        assert_eq!(job.state, RenderState::Running);
        assert_eq!(job.logs.len(), 1);
    }
    handle_log_line(&mut m, "[ERROR] disk full".to_string(), at(1_700_000_006));
    assert_eq!(m.job.as_ref().unwrap().error.as_deref(), Some("[ERROR] disk full"));
    handle_log_line(&mut m, "   ".to_string(), at(1_700_000_007));
    assert_eq!(m.job.as_ref().unwrap().logs.len(), 2);
    handle_log_line(&mut m, "[INFO] Your maps are now all up-to-date!".to_string(), at(1_700_000_100));
    let job = m.job.as_ref().unwrap();
    assert_eq!(job.state, RenderState::Completed);
    assert_eq!(job.completed_at, Some(at(1_700_000_100)));
    assert_eq!(job.logs.len(), 3);
}

#[test]
fn log_lines_without_a_job_change_nothing() {
    let mut m = RenderManager::new();
    handle_log_line(&mut m, "[ERROR] boom".to_string(), at(1));
    assert!(m.job.is_none());
    assert!(!m.process_running);
}

#[test]
fn stop_marks_the_job_stopped() {
    let mut m = running_manager();
    stop_render(&mut m, at(1_700_000_050));
    let job = m.job.as_ref().unwrap();
    assert_eq!(job.state, RenderState::Stopped);
    assert_eq!(job.completed_at, Some(at(1_700_000_050)));
    assert_eq!(job.logs.back().unwrap(), "渲染任务已停止。");
    assert!(!m.process_running);
    assert!(!log_monitor_should_continue(&m));
}

#[test]
fn exit_monitor_records_success_and_failure() {
    let mut ok = running_manager();
    assert!(exit_monitor_step(&mut ok, ChildPoll::StillRunning, at(1_700_000_001)));
    assert!(!exit_monitor_step(
        &mut ok,
        ChildPoll::Exited { success: true, status: "exit status: 0".to_string() },
        at(1_700_000_002),
    ));
    assert_eq!(ok.job.as_ref().unwrap().state, RenderState::Completed);
    assert!(!ok.process_running);

    let mut bad = running_manager();
    exit_monitor_step(
        &mut bad,
        ChildPoll::Exited { success: false, status: "exit status: 1".to_string() },
        at(1_700_000_002),
    );
    let job = bad.job.as_ref().unwrap();
    assert_eq!(job.state, RenderState::Failed);
    assert_eq!(job.error.as_deref(), Some("BlueMap 进程退出：exit status: 1"));
}

#[test]
fn exit_after_stop_keeps_stopped() {
    let mut m = running_manager();
    stop_render(&mut m, at(1_700_000_003));
    exit_monitor_step(
        &mut m,
        ChildPoll::Exited { success: false, status: "signal: 9".to_string() },
        at(1_700_000_004),
    );
    let job = m.job.as_ref().unwrap();
    assert_eq!(job.state, RenderState::Stopped);
    assert!(job.error.is_none());
}

#[test]
fn failed_wait_marks_the_job_failed() {
    let mut m = running_manager();
    assert!(!exit_monitor_step(&mut m, ChildPoll::WaitFailed { message: "gone".to_string() }, at(9)));
    let job = m.job.as_ref().unwrap();
    assert_eq!(job.state, RenderState::Failed);
    assert_eq!(job.error.as_deref(), Some("gone"));
    assert!(m.process_running);
    assert!(!exit_monitor_step(&mut m, ChildPoll::NoChild, at(10)));
}

#[test]
fn log_monitor_follows_running_and_completed_jobs() {
    let mut m = running_manager();
    assert!(log_monitor_should_continue(&m));
    handle_log_line(&mut m, "Your maps are now all up-to-date".to_string(), at(1_700_000_001));
    assert!(log_monitor_should_continue(&m));
    assert!(!log_monitor_should_continue(&RenderManager::new()));
}

#[test]
fn status_of_idle_manager() {
    let s = status_from_manager(&RenderManager::new(), (5, 6), at(10));
    assert_eq!(s.state, RenderState::Idle);
    assert!(s.job_id.is_none());
    assert_eq!(s.output_size_bytes, 0);
    assert_eq!(s.output_file_count, 0);
    assert!(s.logs.is_empty());
    assert!(!s.process_running);
}

#[test]
fn status_of_running_job() {
    let mut m = running_manager();
    handle_log_line(&mut m, "hello".to_string(), at(1_700_000_001));
    let s = status_from_manager(&m, (2048, 3), Timestamp { secs: 1_700_000_061, nanos: 500 });
    assert_eq!(s.state, RenderState::Running);
    assert_eq!(s.job_id.as_deref(), Some("job-1"));
    assert_eq!(s.preview_url.as_deref(), Some("http://127.0.0.1:8100"));
    assert_eq!(s.port, Some(8100));
    assert_eq!(s.started_at.as_deref(), Some("2023-11-14T22:13:20+00:00"));
    assert!(s.completed_at.is_none());
    assert_eq!(s.elapsed_seconds, 61);
    assert_eq!(s.output_size_bytes, 2048);
    assert_eq!(s.output_file_count, 3);
    assert!(s.process_running);
    assert_eq!(s.logs, vec!["hello".to_string()]);
}

#[test]
fn log_text_is_applied_line_by_line() {
    let mut m = running_manager();
    handle_log_text(
        &mut m,
        "[INFO] start\r\n[INFO] start\n\n[INFO] updating map 'end': 50% (ETA: 1:00)\nYour maps are now all up-to-date",
        at(1_700_000_200),
    );
    let job = m.job.as_ref().unwrap();
    assert_eq!(job.logs.len(), 3);
    assert_eq!(job.progress.as_ref().unwrap().map, "end");
    assert_eq!(job.state, RenderState::Completed);
    assert_eq!(job.completed_at, Some(at(1_700_000_200)));
}
