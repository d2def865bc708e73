//! The status report of the render that the front end polls.
use vstd::prelude::*;
use crate::clock::{self, Timestamp, elapsed_seconds, rfc3339_text};
use crate::job::{self, JobView, ManagerView, RenderManager, RenderState};
use crate::progress::{self, ProgressInfo, ProgressView, duplicate_progress};
use crate::text;

verus! {

/// What the front end is told about the render.
pub struct RenderStatus {
    pub state: RenderState,
    pub job_id: Option<String>,
    pub world_path: Option<String>,
    pub job_dir: Option<String>,
    pub output_dir: Option<String>,
    pub preview_url: Option<String>,
    pub port: Option<u16>,
    pub started_at: Option<String>,
    pub completed_at: Option<String>,
    pub elapsed_seconds: u64,
    pub progress: Option<ProgressInfo>,
    pub output_size_bytes: u64,
    pub output_file_count: u64,
    pub process_running: bool,
    pub logs: Vec<String>,
    pub error: Option<String>,
}

/// The plain-value model of `RenderStatus`.
pub struct StatusView {
    pub state: RenderState,
    pub job_id: Option<Seq<char>>,
    pub world_path: Option<Seq<char>>,
    pub job_dir: Option<Seq<char>>,
    pub output_dir: Option<Seq<char>>,
    pub preview_url: Option<Seq<char>>,
    pub port: Option<u16>,
    pub started_at: Option<Seq<char>>,
    pub completed_at: Option<Seq<char>>,
    pub elapsed_seconds: u64,
    pub progress: Option<ProgressView>,
    pub output_size_bytes: u64,
    pub output_file_count: u64,
    pub process_running: bool,
    pub logs: Seq<Seq<char>>,
    pub error: Option<Seq<char>>,
}

impl View for RenderStatus {
    type V = StatusView;

    open spec fn view(&self) -> StatusView {
        StatusView {
            state: self.state,
            job_id: self.job_id.deep_view(),
            world_path: self.world_path.deep_view(),
            job_dir: self.job_dir.deep_view(),
            output_dir: self.output_dir.deep_view(),
            preview_url: self.preview_url.deep_view(),
            port: self.port,
            started_at: self.started_at.deep_view(),
            completed_at: self.completed_at.deep_view(),
            elapsed_seconds: self.elapsed_seconds,
            progress: self.progress.deep_view(),
            output_size_bytes: self.output_size_bytes,
            output_file_count: self.output_file_count,
            process_running: self.process_running,
            logs: self.logs.deep_view(),
            error: self.error.deep_view(),
        }
    }
}

/// The status when no render has been started.
pub open spec fn idle_status() -> StatusView {
    StatusView {
        state: RenderState::Idle,
        job_id: None,
        world_path: None,
        job_dir: None,
        output_dir: None,
        preview_url: None,
        port: None,
        started_at: None,
        completed_at: None,
        elapsed_seconds: 0,
        progress: None,
        output_size_bytes: 0,
        output_file_count: 0,
        process_running: false,
        logs: Seq::empty(),
        error: None,
    }
}

/// The RFC 3339 text of an optional instant.
pub open spec fn optional_rfc3339(t: Option<Timestamp>) -> Option<Seq<char>> {
    match t {
        Some(t) => clock::utc_rfc3339(t.secs, t.nanos),
        None => None,
    }
}

/// The status of a job, given the size and file count of its output
/// directory and the current time.
pub open spec fn job_status(job: JobView, process_running: bool, output: (u64, u64), now: Timestamp) -> StatusView {
    StatusView {
        state: job.state,
        job_id: Some(job.id),
        world_path: Some(job.world_path),
        job_dir: Some(job.job_dir),
        output_dir: Some(job.output_dir),
        preview_url: Some(job.preview_url),
        port: Some(job.port),
        started_at: clock::utc_rfc3339(job.started_at.secs, job.started_at.nanos),
        completed_at: optional_rfc3339(job.completed_at),
        elapsed_seconds: clock::elapsed_seconds_spec(job.started_at, now),
        progress: job.progress,
        output_size_bytes: output.0,
        output_file_count: output.1,
        process_running,
        logs: job.logs,
        error: job.error,
    }
}

/// The status of the manager: the idle status without a job, otherwise the
/// job's status.
pub open spec fn status_spec(m: ManagerView, output: (u64, u64), now: Timestamp) -> StatusView {
    match m.job {
        None => idle_status(),
        Some(job) => job_status(job, m.process_running, output, now),
    }
}

fn copy_text(s: &Option<String>) -> (r: Option<String>)
    ensures
        r.deep_view() == s.deep_view(),
{
    match s {
        Some(t) => Some(t.clone()),
        None => None,
    }
}

fn optional_rfc3339_text(t: Option<Timestamp>) -> (r: Option<String>)
    ensures
        r.deep_view() == optional_rfc3339(t),
{
    match t {
        Some(t) => rfc3339_text(t.secs, t.nanos),
        None => None,
    }
}

/// The status report of the manager; `output` is the size in bytes and the
/// file count of the job's output directory.
pub fn status_from_manager(manager: &RenderManager, output: (u64, u64), now: Timestamp) -> (r: RenderStatus)
    ensures
        r@ == status_spec(manager@, output, now),
        manager@.job matches Some(job) && clock::within_calendar(job.started_at.secs, job.started_at.nanos)
            ==> r.started_at is Some,
{
    match &manager.job {
        None => {
            let r = RenderStatus {
                state: RenderState::Idle,
                job_id: None,
                world_path: None,
                job_dir: None,
                output_dir: None,
                preview_url: None,
                port: None,
                started_at: None,
                completed_at: None,
                elapsed_seconds: 0,
                progress: None,
                output_size_bytes: 0,
                output_file_count: 0,
                process_running: false,
                logs: Vec::new(),
                error: None,
            };
            assert(r.logs.deep_view() =~= Seq::<Seq<char>>::empty());
            r
        },
        Some(job) => {
            let n = job.logs.len();
            let mut logs: Vec<String> = Vec::new();
            let mut i: usize = 0;
            while i < n
                invariant
                    n == job.logs@.len(),
                    i <= n,
                    logs.deep_view() =~= job.logs.deep_view().take(i as int),
                decreases n - i,
            {
                let line = job.logs[i].clone();
                assert(line@ == job.logs.deep_view()[i as int]);
                let ghost before = logs.deep_view();
                logs.push(line);
                assert(logs.deep_view() =~= before.push(job.logs.deep_view()[i as int]));
                assert(job.logs.deep_view().take(i + 1) =~= job.logs.deep_view().take(i as int).push(
                    job.logs.deep_view()[i as int],
                ));
                i = i + 1;
            }
            assert(job.logs.deep_view().take(n as int) =~= job.logs.deep_view());
            RenderStatus {
                state: job.state,
                job_id: Some(job.id.clone()),
                world_path: Some(job.world_path.clone()),
                job_dir: Some(job.job_dir.clone()),
                output_dir: Some(job.output_dir.clone()),
                preview_url: Some(job.preview_url.clone()),
                port: Some(job.port),
                started_at: rfc3339_text(job.started_at.secs, job.started_at.nanos),
                completed_at: optional_rfc3339_text(job.completed_at),
                elapsed_seconds: elapsed_seconds(job.started_at, now),
                progress: duplicate_progress(&job.progress),
                output_size_bytes: output.0,
                output_file_count: output.1,
                process_running: manager.process_running,
                logs,
                error: copy_text(&job.error),
            }
        },
    }
}

/// The status of a manager with a job reports that job as it stands: its
/// state, identity, places, port, progress, log and error unchanged, the
/// output directory's counts as measured, and whether its process runs.
pub proof fn law_status_reports_the_job(m: ManagerView, output: (u64, u64), now: Timestamp)
    requires
        m.job is Some,
    ensures
        status_spec(m, output, now).progress == m.job->0.progress,
        status_spec(m, output, now).state == m.job->0.state,
        status_spec(m, output, now).job_id == Some(m.job->0.id),
        status_spec(m, output, now).world_path == Some(m.job->0.world_path),
        status_spec(m, output, now).job_dir == Some(m.job->0.job_dir),
        status_spec(m, output, now).output_dir == Some(m.job->0.output_dir),
        status_spec(m, output, now).preview_url == Some(m.job->0.preview_url),
        status_spec(m, output, now).port == Some(m.job->0.port),
        status_spec(m, output, now).logs == m.job->0.logs,
        status_spec(m, output, now).error == m.job->0.error,
        status_spec(m, output, now).output_size_bytes == output.0,
        status_spec(m, output, now).output_file_count == output.1,
        status_spec(m, output, now).process_running == m.process_running,
{
}

/// Without a job the status is idle: no job, no progress, no log, nothing
/// running.
pub proof fn law_status_without_job_is_idle(m: ManagerView, output: (u64, u64), now: Timestamp)
    requires
        m.job is None,
    ensures
        status_spec(m, output, now).state == RenderState::Idle,
        status_spec(m, output, now).job_id is None,
        status_spec(m, output, now).progress is None,
        status_spec(m, output, now).logs.len() == 0,
        status_spec(m, output, now).error is None,
        !status_spec(m, output, now).process_running,
{
}

/// After a non-blank progress line for a job, the status reports the
/// progress that line carries.
pub proof fn law_status_reports_logged_progress(
    m: ManagerView,
    line: Seq<char>,
    logged_at: Timestamp,
    output: (u64, u64),
    now: Timestamp,
)
    requires
        m.job is Some,
        !text::is_blank(line),
        progress::progress_of_line(line) is Some,
    ensures
        status_spec(job::manager_after_log_line(m, line, logged_at), output, now).progress
            == progress::progress_of_line(line),
{
}

} // verus!
