use bluemap_renderer::clock::Timestamp;
use bluemap_renderer::commands::{check_start, find_available_port, java_command_args, job_directory};
use bluemap_renderer::environment::{
    jar_relative_path, locate_bluemap_jar, probe_java_failure, probe_java_output, JarBase, JavaInfo,
};
use bluemap_renderer::job::{begin_job, record_start, JobLaunch, RenderManager, RenderState};
use bluemap_renderer::logs::{next_log_offset, LogRead};
use bluemap_renderer::world::{inspect_world_path, DirTally, EntryKind, WorldInspection};

fn at(secs: i64) -> Timestamp {
    Timestamp { secs, nanos: 0 }
}

fn java_21() -> JavaInfo {
    probe_java_output(String::new(), "openjdk version \"21.0.1\" 2023-10-17\n".to_string(), true)
}

fn valid_world() -> Result<WorldInspection, String> {
    inspect_world_path("/worlds/survival".to_string(), Some("survival".to_string()), true, false, false, Ok((10, 2)))
}

fn invalid_world() -> Result<WorldInspection, String> {
    inspect_world_path("/tmp/empty".to_string(), Some("empty".to_string()), false, false, false, Ok((0, 0)))
}

fn running_manager() -> RenderManager {
    let mut m = RenderManager::new();
    begin_job(
        &mut m,
        "job-1".to_string(),
        "/worlds/survival".to_string(),
        "/out/render-1".to_string(),
        "/out/render-1/web".to_string(),
        8100,
        at(1_700_000_000),
    );
    m
}

fn strings(items: &[&str]) -> Vec<String> {
    items.iter().map(|item| item.to_string()).collect()
}

#[test]
fn port_search_answers_first_bindable_port() {
    assert_eq!(find_available_port(8100, |port| port >= 8103), Ok(8103));
    assert_eq!(find_available_port(8100, |_| true), Ok(8100));
    assert_eq!(find_available_port(8100, |port| port == 8110), Ok(8110));
}

#[test]
fn port_search_tries_no_port_past_the_answer() {
    let tried = std::cell::RefCell::new(Vec::new());
    let r = find_available_port(8100, |port| {
        tried.borrow_mut().push(port);
        port == 8102
    });
    assert_eq!(r, Ok(8102));
    assert_eq!(*tried.borrow(), vec![8100, 8101, 8102]);
}

#[test]
fn port_search_reports_an_unavailable_range() {
    assert_eq!(find_available_port(8100, |_| false), Err("端口 8100-8110 都不可用。".to_string()));
    assert_eq!(find_available_port(8100, |port| port == 8111), Err("端口 8100-8110 都不可用。".to_string()));
    assert_eq!(find_available_port(65535, |_| false), Err("端口 65535-65535 都不可用。".to_string()));
    assert_eq!(find_available_port(65530, |port| port == 65535), Ok(65535));
}

#[test]
fn java_is_started_with_jar_render_update_and_web_server() {
    assert_eq!(java_command_args("/app/bin/BlueMap-cli.jar".to_string()), strings(&["-jar", "/app/bin/BlueMap-cli.jar", "-r", "-u", "-w"]));
}

#[test]
fn jar_candidates_are_taken_in_order() {
    assert_eq!(locate_bluemap_jar(true, true, true, true), Some(JarBase::ResourceDir));
    assert_eq!(locate_bluemap_jar(true, false, false, false), Some(JarBase::ResourceDir));
    assert_eq!(locate_bluemap_jar(false, false, true, true), None);
    assert_eq!(locate_bluemap_jar(false, true, true, true), Some(JarBase::AppRoot));
    assert_eq!(locate_bluemap_jar(false, true, false, true), Some(JarBase::RepoRoot));
    assert_eq!(locate_bluemap_jar(false, true, false, false), None);
    assert_eq!(jar_relative_path(JarBase::ResourceDir), "BlueMap-cli.jar");
    assert_eq!(jar_relative_path(JarBase::AppRoot), "bin/BlueMap-cli.jar");
    assert_eq!(jar_relative_path(JarBase::RepoRoot), "bin/BlueMap-cli.jar");
}

#[test]
fn start_checks_refuse_in_order() {
    let idle = RenderManager::new();
    let running = running_manager();
    let old_java = probe_java_failure("not found".to_string());
    let too_old = Err("需要 Java 21 或更新版本。请先安装对应系统架构的 JDK。".to_string());
    assert_eq!(check_start(&old_java, true, invalid_world(), &running).map(|_| ()), too_old);
    let no_jar = Err("找不到 bin/BlueMap-cli.jar，无法启动 BlueMap。".to_string());
    assert_eq!(check_start(&java_21(), false, invalid_world(), &running).map(|_| ()), no_jar);
    let bad_world = Err("选择的目录不是有效的 Minecraft Java 世界目录。".to_string());
    assert_eq!(check_start(&java_21(), true, invalid_world(), &running).map(|_| ()), bad_world);
    assert_eq!(
        check_start(&java_21(), true, Err("读取失败".to_string()), &idle).map(|_| ()),
        Err("读取失败".to_string())
    );
    let busy = Err("已有渲染任务正在运行。".to_string());
    assert_eq!(check_start(&java_21(), true, valid_world(), &running).map(|_| ()), busy);
    let passed = check_start(&java_21(), true, valid_world(), &idle).expect("all checks pass");
    assert_eq!(passed.world_path, "/worlds/survival");
}

#[test]
fn refused_start_registers_nothing() {
    let mut idle = RenderManager::new();
    assert_eq!(record_start(&mut idle, Err("端口 8100-8110 都不可用。".to_string()), at(5)), Err("端口 8100-8110 都不可用。".to_string()));
    assert!(idle.job.is_none());
    assert!(!idle.process_running);

    let mut running = running_manager();
    assert_eq!(record_start(&mut running, Err("启动 BlueMap 失败：x".to_string()), at(5)), Err("启动 BlueMap 失败：x".to_string()));
    let job = running.job.as_ref().expect("job kept");
    assert_eq!(job.id, "job-1");
    assert_eq!(job.state, RenderState::Running);
    assert!(running.process_running);
}

#[test]
fn launched_start_registers_the_job() {
    let mut m = RenderManager::new();
    let launch = JobLaunch {
        id: "job-2".to_string(),
        world_path: "/worlds/creative".to_string(),
        job_dir: "/out/render-2".to_string(),
        output_dir: "/out/render-2/web".to_string(),
        port: 8105,
    };
    assert_eq!(record_start(&mut m, Ok(launch), at(7)), Ok(()));
    let job = m.job.as_ref().expect("registered");
    assert_eq!(job.id, "job-2");
    assert_eq!(job.port, 8105);
    assert_eq!(job.preview_url, "http://127.0.0.1:8105");
    assert_eq!(job.state, RenderState::Running);
    assert_eq!(job.started_at, at(7));
    assert!(m.process_running);
}

#[test]
fn job_directory_goes_where_output_belongs() {
    let world_parent = strings(&["/", "worlds"]);
    assert_eq!(
        job_directory(None, Some(world_parent.clone()), "render-1".to_string()),
        strings(&["/", "worlds", "TongCraftRenderOutput", "render-1"])
    );
    assert_eq!(job_directory(None, None, "render-1".to_string()), strings(&["TongCraftRenderOutput", "render-1"]));
    assert_eq!(
        job_directory(Some(strings(&["/", "out"])), Some(world_parent), "render-1".to_string()),
        strings(&["/", "out", "render-1"])
    );
}

#[test]
fn default_output_stays_outside_the_world() {
    let world = strings(&["/", "worlds", "survival"]);
    let job = job_directory(None, Some(world[..2].to_vec()), "render-1".to_string());
    assert!(!job.starts_with(&world));
    let odd_world = strings(&["/", "worlds", "TongCraftRenderOutput"]);
    let odd_job = job_directory(None, Some(odd_world[..2].to_vec()), "render-1".to_string());
    assert!(odd_job.starts_with(&odd_world));
}

#[test]
fn requested_output_inside_the_world_lands_inside() {
    let world = strings(&["/", "worlds", "survival"]);
    let inside = job_directory(Some(strings(&["/", "worlds", "survival", "out"])), None, "render-1".to_string());
    assert!(inside.starts_with(&world));
    let outside = job_directory(Some(strings(&["/", "worlds"])), None, "render-1".to_string());
    assert!(!outside.starts_with(&world));
}

#[test]
fn listing_counts_files_and_names_directories() {
    let mut t = DirTally::new();
    let first = vec![
        EntryKind::File { len: 10 },
        EntryKind::Directory,
        EntryKind::Other,
        EntryKind::File { len: 5 },
        EntryKind::Directory,
    ];
    assert_eq!(t.record_listing(&first), vec![1, 4]);
    assert_eq!((t.size_bytes, t.file_count), (15, 2));
    let second = vec![EntryKind::File { len: u64::MAX }, EntryKind::File { len: 1 }];
    assert_eq!(t.record_listing(&second), Vec::<usize>::new());
    assert_eq!((t.size_bytes, t.file_count), (u64::MAX, 4));
    assert_eq!(t.record_listing(&Vec::new()), Vec::<usize>::new());
    assert_eq!((t.size_bytes, t.file_count), (u64::MAX, 4));
}

#[test]
fn log_offset_moves_to_where_the_read_stopped() {
    assert_eq!(next_log_offset(0, LogRead::Read { position: Some(120) }), 120);
    assert_eq!(next_log_offset(120, LogRead::Failed), 120);
    assert_eq!(next_log_offset(120, LogRead::Read { position: None }), 120);
    assert_eq!(next_log_offset(120, LogRead::Read { position: Some(120) }), 120);
}
