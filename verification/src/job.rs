//! The render job and its life cycle: what a log line, a stop request or the
//! end of the BlueMap process does to it, and the status reported for it.
use vstd::prelude::*;
use std::collections::VecDeque;
use crate::clock::Timestamp;
use crate::logs::{self, is_fatal_log_line, push_line};
use crate::progress::{self, ProgressInfo, ProgressView, parse_progress};
use crate::text::{self, contains_text, decimal_text, is_blank_text};

verus! {

/// Where a render job stands.
#[derive(Clone, Copy, Debug, PartialEq, Eq, Structural)]
pub enum RenderState {
    Idle,
    Running,
    Completed,
    Failed,
    Stopped,
}

impl Default for RenderState {
    fn default() -> (s: Self)
        ensures
            s == RenderState::Idle,
    {
        RenderState::Idle
    }
}

/// One render of one world.
pub struct RenderJob {
    pub id: String,
    pub world_path: String,
    pub job_dir: String,
    pub output_dir: String,
    pub preview_url: String,
    pub port: u16,
    pub started_at: Timestamp,
    pub completed_at: Option<Timestamp>,
    pub state: RenderState,
    pub progress: Option<ProgressInfo>,
    pub logs: VecDeque<String>,
    pub error: Option<String>,
}

/// The plain-value model of `RenderJob`.
pub struct JobView {
    pub id: Seq<char>,
    pub world_path: Seq<char>,
    pub job_dir: Seq<char>,
    pub output_dir: Seq<char>,
    pub preview_url: Seq<char>,
    pub port: u16,
    pub started_at: Timestamp,
    pub completed_at: Option<Timestamp>,
    pub state: RenderState,
    pub progress: Option<ProgressView>,
    pub logs: Seq<Seq<char>>,
    pub error: Option<Seq<char>>,
}

impl View for RenderJob {
    type V = JobView;

    open spec fn view(&self) -> JobView {
        JobView {
            id: self.id@,
            world_path: self.world_path@,
            job_dir: self.job_dir@,
            output_dir: self.output_dir@,
            preview_url: self.preview_url@,
            port: self.port,
            started_at: self.started_at,
            completed_at: self.completed_at,
            state: self.state,
            progress: self.progress.deep_view(),
            logs: self.logs.deep_view(),
            error: self.error.deep_view(),
        }
    }
}

impl DeepView for RenderJob {
    type V = JobView;

    open spec fn deep_view(&self) -> JobView {
        self@
    }
}

/// The job, if any, and whether its BlueMap process is still attached.
pub struct RenderManager {
    pub job: Option<RenderJob>,
    pub process_running: bool,
}

/// The plain-value model of `RenderManager`.
pub struct ManagerView {
    pub job: Option<JobView>,
    pub process_running: bool,
}

impl View for RenderManager {
    type V = ManagerView;

    open spec fn view(&self) -> ManagerView {
        ManagerView { job: self.job.deep_view(), process_running: self.process_running }
    }
}

impl RenderManager {
    /// No job yet and no process.
    pub fn new() -> (m: RenderManager)
        ensures
            m@.job is None,
            !m@.process_running,
    {
        RenderManager { job: None, process_running: false }
    }
}

/// The line BlueMap prints once every map is rendered.
pub open spec fn completion_marker() -> Seq<char> {
    "Your maps are now all up-to-date"@
}

/// What one (non-blank) log line does to a job: a progress line records the
/// progress and marks the job running; the completion line marks it
/// completed at `now`; a fatal line becomes the job's error; and the line
/// joins the log.
pub open spec fn job_after_log_line(job: JobView, line: Seq<char>, now: Timestamp) -> JobView {
    let p = progress::progress_of_line(line);
    let j1 = if p is Some {
        JobView { progress: p, state: RenderState::Running, ..job }
    } else {
        job
    };
    let j2 = if text::contains_seq(line, completion_marker()) {
        JobView { state: RenderState::Completed, completed_at: Some(now), ..j1 }
    } else {
        j1
    };
    let j3 = if logs::is_fatal_spec(line) {
        JobView { error: Some(line), ..j2 }
    } else {
        j2
    };
    JobView { logs: logs::pushed_log(j3.logs, line), ..j3 }
}

/// What a log line does to the manager: nothing without a job or for a line
/// that is blank once trimmed; otherwise `job_after_log_line`.
pub open spec fn manager_after_log_line(m: ManagerView, line: Seq<char>, now: Timestamp) -> ManagerView {
    match m.job {
        None => m,
        Some(job) => if text::is_blank(line) {
            m
        } else {
            ManagerView { job: Some(job_after_log_line(job, line, now)), ..m }
        },
    }
}

/// Adds a line to the job's log (see `logs::pushed_log`).
pub fn push_log(job: &mut RenderJob, line: String)
    ensures
        final(job)@ == (JobView { logs: logs::pushed_log(old(job)@.logs, line@), ..old(job)@ }),
{
    push_line(&mut job.logs, line);
}

/// Applies one line of BlueMap output to the manager.
pub fn handle_log_line(manager: &mut RenderManager, line: String, now: Timestamp)
    ensures
        final(manager)@ == manager_after_log_line(old(manager)@, line@, now),
{
    if manager.job.is_none() || is_blank_text(line.as_str()) {
        return;
    }
    let mut job = manager.job.take().unwrap();
    let ghost j0 = job@;
    let p = parse_progress(line.as_str());
    if p.is_some() {
        job.progress = p;
        job.state = RenderState::Running;
    }
    if contains_text(line.as_str(), "Your maps are now all up-to-date") {
        job.state = RenderState::Completed;
        job.completed_at = Some(now);
    }
    if is_fatal_log_line(line.as_str()) {
        job.error = Some(line.clone());
    }
    push_log(&mut job, line);
    assert(job@ == job_after_log_line(j0, line@, now));
    manager.job = Some(job);
}


/// The manager after a sequence of log lines, applied in order.
pub open spec fn manager_after_log_lines(m: ManagerView, lines: Seq<Seq<char>>, now: Timestamp) -> ManagerView
    decreases lines.len(),
{
    if lines.len() == 0 {
        m
    } else {
        manager_after_log_line(manager_after_log_lines(m, lines.drop_last(), now), lines.last(), now)
    }
}

/// Applies a chunk of text read from the BlueMap log file: each of its lines
/// (`str::lines`) in order.
pub fn handle_log_text(manager: &mut RenderManager, text: &str, now: Timestamp)
    ensures
        final(manager)@ == manager_after_log_lines(old(manager)@, text::lines_spec(text@), now),
{
    let lines = text::split_lines(text);
    let ghost all = lines.deep_view();
    let n = lines.len();
    let mut i: usize = 0;
    while i < n
        invariant
            n == lines.len(),
            all == lines.deep_view(),
            all == text::lines_spec(text@),
            i <= n,
            manager@ == manager_after_log_lines(old(manager)@, all.take(i as int), now),
        decreases n - i,
    {
        let line = lines[i].clone();
        assert(all.take(i + 1).drop_last() =~= all.take(i as int));
        assert(line@ == all[i as int]);
        handle_log_line(manager, line, now);
        i = i + 1;
    }
    assert(all.take(n as int) =~= all);
}

/// The log line recorded when the user stops a render.
pub open spec fn stop_message() -> Seq<char> {
    "渲染任务已停止。"@
}

/// The manager after the user stops the render at `now`: the process is
/// gone, and a job is marked stopped at `now` with the stop line logged.
pub open spec fn manager_after_stop(m: ManagerView, now: Timestamp) -> ManagerView {
    ManagerView {
        job: match m.job {
            None => None,
            Some(job) => Some(
                JobView {
                    state: RenderState::Stopped,
                    completed_at: Some(now),
                    logs: logs::pushed_log(job.logs, stop_message()),
                    ..job
                },
            ),
        },
        process_running: false,
    }
}

/// Records that the user stopped the render (after its process was killed).
pub fn stop_render(manager: &mut RenderManager, now: Timestamp)
    ensures
        final(manager)@ == manager_after_stop(old(manager)@, now),
{
    manager.process_running = false;
    if manager.job.is_some() {
        let mut job = manager.job.take().unwrap();
        job.state = RenderState::Stopped;
        job.completed_at = Some(now);
        push_log(&mut job, String::from_str("渲染任务已停止。"));
        manager.job = Some(job);
    }
}

/// What polling the BlueMap process found.
pub enum ChildPoll {
    /// No process is attached any more.
    NoChild,
    /// The process is still running.
    StillRunning,
    /// The process ended; whether it succeeded, and its exit status as text.
    Exited { success: bool, status: String },
    /// Asking about the process failed, with the error as text.
    WaitFailed { message: String },
}

/// The error recorded when BlueMap ends without success.
pub open spec fn exit_error_text(status: Seq<char>) -> Seq<char> {
    "BlueMap 进程退出："@ + status
}

/// The manager after a poll of the process.
///
/// An exit detaches the process; unless the job already completed or was
/// stopped, the job is then marked completed (on success) or failed (with
/// the exit status as its error) at `now`. A failed poll marks the job
/// failed at `now` with the poll error. Otherwise nothing changes.
pub open spec fn manager_after_poll(m: ManagerView, poll: ChildPollView, now: Timestamp) -> ManagerView {
    match poll {
        ChildPollView::Exited { success, status } => ManagerView {
            job: match m.job {
                None => None,
                Some(job) => if job.state == RenderState::Completed || job.state
                    == RenderState::Stopped {
                    Some(job)
                } else if success {
                    Some(JobView { state: RenderState::Completed, completed_at: Some(now), ..job })
                } else {
                    Some(
                        JobView {
                            state: RenderState::Failed,
                            completed_at: Some(now),
                            error: Some(exit_error_text(status)),
                            ..job
                        },
                    )
                },
            },
            process_running: false,
        },
        ChildPollView::WaitFailed { message } => ManagerView {
            job: match m.job {
                None => None,
                Some(job) => Some(
                    JobView {
                        state: RenderState::Failed,
                        completed_at: Some(now),
                        error: Some(message),
                        ..job
                    },
                ),
            },
            ..m
        },
        _ => m,
    }
}

/// Whether the exit watcher keeps polling after this poll: only while the
/// process is still running.
pub open spec fn keeps_polling(poll: ChildPollView) -> bool {
    poll is StillRunning
}

/// The plain-value model of `ChildPoll`.
pub enum ChildPollView {
    NoChild,
    StillRunning,
    Exited { success: bool, status: Seq<char> },
    WaitFailed { message: Seq<char> },
}

impl View for ChildPoll {
    type V = ChildPollView;

    open spec fn view(&self) -> ChildPollView {
        match self {
            ChildPoll::NoChild => ChildPollView::NoChild,
            ChildPoll::StillRunning => ChildPollView::StillRunning,
            ChildPoll::Exited { success, status } => ChildPollView::Exited {
                success: *success,
                status: status@,
            },
            ChildPoll::WaitFailed { message } => ChildPollView::WaitFailed { message: message@ },
        }
    }
}

/// One step of the exit watcher: applies a poll of the process to the
/// manager and says whether to keep watching.
pub fn exit_monitor_step(manager: &mut RenderManager, poll: ChildPoll, now: Timestamp) -> (keep: bool)
    ensures
        final(manager)@ == manager_after_poll(old(manager)@, poll@, now),
        keep == keeps_polling(poll@),
{
    match poll {
        ChildPoll::NoChild => false,
        ChildPoll::StillRunning => true,
        ChildPoll::Exited { success, status } => {
            manager.process_running = false;
            if manager.job.is_some() {
                let mut job = manager.job.take().unwrap();
                if !(job.state == RenderState::Completed || job.state == RenderState::Stopped) {
                    job.state = if success {
                        RenderState::Completed
                    } else {
                        RenderState::Failed
                    };
                    job.completed_at = Some(now);
                    if !success {
                        let msg = String::from_str("BlueMap 进程退出：");
                        job.error = Some(msg.concat(status.as_str()));
                    }
                }
                manager.job = Some(job);
            }
            false
        },
        ChildPoll::WaitFailed { message } => {
            if manager.job.is_some() {
                let mut job = manager.job.take().unwrap();
                job.state = RenderState::Failed;
                job.completed_at = Some(now);
                job.error = Some(message);
                manager.job = Some(job);
            }
            false
        },
    }
}

/// Whether the BlueMap log file is still worth following: while the job is
/// running or completed.
pub open spec fn follows_log_spec(m: ManagerView) -> bool {
    match m.job {
        Some(job) => job.state == RenderState::Running || job.state == RenderState::Completed,
        None => false,
    }
}

/// Whether the log watcher keeps following the BlueMap log file.
pub fn log_monitor_should_continue(manager: &RenderManager) -> (b: bool)
    ensures
        b == follows_log_spec(manager@),
{
    match &manager.job {
        Some(job) => job.state == RenderState::Running || job.state == RenderState::Completed,
        None => false,
    }
}

/// The address of the preview web server of a job on `port`.
pub open spec fn preview_url_spec(port: u16) -> Seq<char> {
    "http://127.0.0.1:"@ + text::decimal(port as nat)
}

/// The address of the preview web server of a job on `port`.
pub fn preview_url(port: u16) -> (r: String)
    ensures
        r@ == preview_url_spec(port),
{
    let base = String::from_str("http://127.0.0.1:");
    let digits = decimal_text(port as u64);
    base.concat(digits.as_str())
}

/// A job that has just been started at `now`.
pub open spec fn fresh_job(
    id: Seq<char>,
    world_path: Seq<char>,
    job_dir: Seq<char>,
    output_dir: Seq<char>,
    port: u16,
    now: Timestamp,
) -> JobView {
    JobView {
        id,
        world_path,
        job_dir,
        output_dir,
        preview_url: preview_url_spec(port),
        port,
        started_at: now,
        completed_at: None,
        state: RenderState::Running,
        progress: None,
        logs: Seq::empty(),
        error: None,
    }
}

/// Records a freshly started render and its process.
pub fn begin_job(
    manager: &mut RenderManager,
    id: String,
    world_path: String,
    job_dir: String,
    output_dir: String,
    port: u16,
    now: Timestamp,
)
    ensures
        final(manager)@ == (ManagerView {
            job: Some(fresh_job(id@, world_path@, job_dir@, output_dir@, port, now)),
            process_running: true,
        }),
{
    let job = RenderJob {
        id,
        world_path,
        job_dir,
        output_dir,
        preview_url: preview_url(port),
        port,
        started_at: now,
        completed_at: None,
        state: RenderState::Running,
        progress: None,
        logs: VecDeque::new(),
        error: None,
    };
    assert(job.logs.deep_view() =~= Seq::<Seq<char>>::empty());
    manager.job = Some(job);
    manager.process_running = true;
}

/// What a start that got through its checks and launched the process hands
/// over: the new job's identity, its places and its preview port.
pub struct JobLaunch {
    pub id: String,
    pub world_path: String,
    pub job_dir: String,
    pub output_dir: String,
    pub port: u16,
}

/// The manager after the outcome of a start: a refused or failed start
/// leaves it as it was; a launched one holds the fresh job and a running
/// process.
pub open spec fn after_start(
    m: ManagerView,
    outcome: Result<(Seq<char>, Seq<char>, Seq<char>, Seq<char>, u16), Seq<char>>,
    now: Timestamp,
) -> ManagerView {
    match outcome {
        Err(_) => m,
        Ok((id, world_path, job_dir, output_dir, port)) => ManagerView {
            job: Some(fresh_job(id, world_path, job_dir, output_dir, port, now)),
            process_running: true,
        },
    }
}

/// The plain-value model of a start's outcome.
pub open spec fn launch_view(outcome: Result<JobLaunch, String>) -> Result<
    (Seq<char>, Seq<char>, Seq<char>, Seq<char>, u16),
    Seq<char>,
> {
    match outcome {
        Ok(l) => Ok((l.id@, l.world_path@, l.job_dir@, l.output_dir@, l.port)),
        Err(e) => Err(e@),
    }
}

/// Records the outcome of a start at `now` (see `after_start`) and answers
/// it: the error of a refused or failed start, unchanged.
pub fn record_start(manager: &mut RenderManager, outcome: Result<JobLaunch, String>, now: Timestamp) -> (r:
    Result<(), String>)
    ensures
        final(manager)@ == after_start(old(manager)@, launch_view(outcome), now),
        match launch_view(outcome) {
            Ok(_) => r is Ok,
            Err(e) => r matches Err(msg) && msg@ == e,
        },
{
    match outcome {
        Ok(launch) => {
            begin_job(
                manager,
                launch.id,
                launch.world_path,
                launch.job_dir,
                launch.output_dir,
                launch.port,
                now,
            );
            Ok(())
        },
        Err(e) => Err(e),
    }
}

/// A start that was refused or failed, at whatever step, registers no job:
/// the manager is left exactly as it was.
pub proof fn law_refused_start_registers_nothing(m: ManagerView, error: Seq<char>, now: Timestamp)
    ensures
        after_start(
            m,
            Err::<(Seq<char>, Seq<char>, Seq<char>, Seq<char>, u16), Seq<char>>(error),
            now,
        ) == m,
{
}

/// The refusal to start a render while another one runs.
pub open spec fn already_running_message() -> Seq<char> {
    "已有渲染任务正在运行。"@
}

/// A render may start unless the current job is running.
pub open spec fn start_allowed_spec(m: ManagerView) -> bool {
    !(m.job matches Some(job) && job.state == RenderState::Running)
}

/// Refuses a new render while the current job is running.
pub fn check_not_running(manager: &RenderManager) -> (r: Result<(), String>)
    ensures
        r is Ok == start_allowed_spec(manager@),
        r matches Err(e) ==> e@ == already_running_message(),
{
    match &manager.job {
        Some(job) => {
            if job.state == RenderState::Running {
                Err(String::from_str("已有渲染任务正在运行。"))
            } else {
                Ok(())
            }
        },
        None => Ok(()),
    }
}

/// Law: once a render has begun, a second one is refused until the first
/// stops running.
pub proof fn law_running_job_blocks_start(
    id: Seq<char>,
    world_path: Seq<char>,
    job_dir: Seq<char>,
    output_dir: Seq<char>,
    port: u16,
    now: Timestamp,
)
    ensures
        !start_allowed_spec(
            ManagerView {
                job: Some(fresh_job(id, world_path, job_dir, output_dir, port, now)),
                process_running: true,
            },
        ),
{
}

/// Law: a stopped render allows a new one to start.
pub proof fn law_stop_allows_start(m: ManagerView, now: Timestamp)
    ensures
        start_allowed_spec(manager_after_stop(m, now)),
{
}

/// Law: once the user stops a render, the log watcher stops following the
/// BlueMap log file.
pub proof fn law_stop_ends_log_following(m: ManagerView, now: Timestamp)
    ensures
        !follows_log_spec(manager_after_stop(m, now)),
{
}

/// Law: the end of the process never overrides a job that already completed
/// or was stopped.
pub proof fn law_exit_keeps_final_states(m: ManagerView, success: bool, status: Seq<char>, now: Timestamp)
    requires
        m.job matches Some(job) && (job.state == RenderState::Completed || job.state
            == RenderState::Stopped),
    ensures
        manager_after_poll(m, ChildPollView::Exited { success, status }, now).job == m.job,
{
}

/// Law: a log line never changes whether a process is attached, nor the
/// identity, directories, address, port or start time of the job.
pub proof fn law_log_line_keeps_identity(m: ManagerView, line: Seq<char>, now: Timestamp)
    ensures
        ({
            let r = manager_after_log_line(m, line, now);
            &&& r.process_running == m.process_running
            &&& r.job is Some == m.job is Some
            &&& (m.job matches Some(j) ==> {
                let k = r.job->0;
                &&& k.id == j.id
                &&& k.world_path == j.world_path
                &&& k.job_dir == j.job_dir
                &&& k.output_dir == j.output_dir
                &&& k.preview_url == j.preview_url
                &&& k.port == j.port
                &&& k.started_at == j.started_at
            })
        }),
{
}

/// Law: every job the manager can reach keeps a well-kept log (at most
/// `MAX_LOG_LINES` lines, none repeating the one before it) through log
/// lines and stop requests.
pub proof fn law_job_log_stays_well_kept(m: ManagerView, line: Seq<char>, now: Timestamp)
    requires
        m.job matches Some(j) ==> logs::log_well_kept(j.logs),
    ensures
        manager_after_log_line(m, line, now).job matches Some(j) ==> logs::log_well_kept(j.logs),
        manager_after_stop(m, now).job matches Some(j) ==> logs::log_well_kept(j.logs),
{
    if let Some(j) = m.job {
        logs::law_log_stays_well_kept(j.logs, line);
        logs::law_log_stays_well_kept(j.logs, stop_message());
    }
}


/// Law: a well-kept job log stays well kept through any sequence of log
/// lines.
pub proof fn law_log_lines_keep_log_well_kept(m: ManagerView, lines: Seq<Seq<char>>, now: Timestamp)
    requires
        m.job matches Some(j) ==> logs::log_well_kept(j.logs),
    ensures
        manager_after_log_lines(m, lines, now).job matches Some(j) ==> logs::log_well_kept(j.logs),
    decreases lines.len(),
{
    if lines.len() > 0 {
        law_log_lines_keep_log_well_kept(m, lines.drop_last(), now);
        law_job_log_stays_well_kept(manager_after_log_lines(m, lines.drop_last(), now), lines.last(), now);
    }
}

/// Only a running job blocks a start: with no job, or with a job that is
/// idle, completed, failed or stopped, a start is allowed; with a running
/// job it is refused.
pub proof fn law_only_running_job_blocks_start(m: ManagerView)
    ensures
        m.job is None ==> start_allowed_spec(m),
        m.job matches Some(j) && j.state != RenderState::Running ==> start_allowed_spec(m),
        m.job matches Some(j) && j.state == RenderState::Running ==> !start_allowed_spec(m),
{
}

/// Once the completion line has been logged for a job, a new render may
/// start, whatever else the line says.
pub proof fn law_completed_job_allows_start(m: ManagerView, line: Seq<char>, now: Timestamp)
    requires
        m.job is Some,
        !text::is_blank(line),
        text::contains_seq(line, completion_marker()),
    ensures
        manager_after_log_line(m, line, now).job matches Some(j) && j.state == RenderState::Completed,
        start_allowed_spec(manager_after_log_line(m, line, now)),
{
}

/// A log line changes the job's state only when it reports progress or
/// completion: any other line, a fatal one included, leaves the state as it
/// was (and keeps or lacks the job as before).
pub proof fn law_only_progress_or_completion_changes_state(m: ManagerView, line: Seq<char>, now: Timestamp)
    requires
        progress::progress_of_line(line) is None,
        !text::contains_seq(line, completion_marker()),
    ensures
        manager_after_log_line(m, line, now).job is Some == m.job is Some,
        m.job matches Some(j) ==> manager_after_log_line(m, line, now).job->0.state == j.state,
        m.job matches Some(j) ==> manager_after_log_line(m, line, now).job->0.completed_at
            == j.completed_at,
        manager_after_log_line(m, line, now).process_running == m.process_running,
{
}

/// A fatal, non-blank log line becomes the job's error and leaves its state
/// and progress as they were, unless it also reports progress or completion.
pub proof fn law_fatal_line_sets_error_only(m: ManagerView, line: Seq<char>, now: Timestamp)
    requires
        m.job is Some,
        !text::is_blank(line),
        logs::is_fatal_spec(line),
        progress::progress_of_line(line) is None,
        !text::contains_seq(line, completion_marker()),
    ensures
        manager_after_log_line(m, line, now).job->0.error == Some(line),
        manager_after_log_line(m, line, now).job->0.state == m.job->0.state,
        manager_after_log_line(m, line, now).job->0.progress == m.job->0.progress,
{
}

} // verus!
