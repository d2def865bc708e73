//! The decisions behind the front end's commands: which port range to try,
//! what to open, what to export, and how the outcome is reported.
use vstd::prelude::*;
use crate::clock::{self, Timestamp, rfc3339_text};
use crate::environment::{self, check_tools, check_world, EnvironmentInfo, JavaInfo, JavaInfoView};
use crate::job::{self, check_not_running, ManagerView, RenderManager};
use crate::status::RenderStatus;
use crate::text::{self, decimal_text};
use crate::world::{self, InspectionView, WorldInspection};

verus! {

/// The last port of the default preview range, which starts at 8100; its
/// width is how many ports past the requested one are tried.
pub const DEFAULT_PORT_END: u16 = 8110;

/// The last port tried for a preview server asked for on `start`: ten ports
/// further, saturating.
pub open spec fn port_search_end_spec(start: u16) -> u16 {
    if start + 10 > u16::MAX {
        u16::MAX
    } else {
        (start + 10) as u16
    }
}

/// The last port tried (see `port_search_end_spec`).
pub fn port_search_end(start: u16) -> (end: u16)
    ensures
        end == port_search_end_spec(start),
        start <= end,
{
    start.saturating_add(DEFAULT_PORT_END.saturating_sub(8100))
}

/// The report that no port in `start..=end` could be bound.
pub open spec fn ports_unavailable_spec(start: u16, end: u16) -> Seq<char> {
    "端口 "@ + text::decimal(start as nat) + "-"@ + text::decimal(end as nat) + " 都不可用。"@
}

/// The report that no port in `start..=end` could be bound.
pub fn ports_unavailable_message(start: u16, end: u16) -> (r: String)
    ensures
        r@ == ports_unavailable_spec(start, end),
{
    String::from_str("端口 ").concat(decimal_text(start as u64).as_str()).concat("-").concat(
        decimal_text(end as u64).as_str(),
    ).concat(" 都不可用。")
}

/// Whether `port` was tried by `can_bind` and refused (a possible answer of
/// the probe on it was `false`).
pub open spec fn probe_refused<F: Fn(u16) -> bool>(can_bind: F, port: u16) -> bool {
    call_ensures(can_bind, (port,), false)
}

/// Picks the preview port: tries `start`, `start + 1`, ... up to
/// `port_search_end(start)` in that order with `can_bind`, and answers the
/// first port it accepts, every earlier one having been refused; when it
/// accepts none, the report that the whole range is unavailable.
pub fn find_available_port<F: Fn(u16) -> bool>(start: u16, can_bind: F) -> (r: Result<u16, String>)
    requires
        forall|p: u16| call_requires(can_bind, (p,)),
    ensures
        match r {
            Ok(p) => {
                &&& start <= p <= port_search_end_spec(start)
                &&& call_ensures(can_bind, (p,), true)
                &&& forall|q: u16| start <= q < p ==> #[trigger] probe_refused(can_bind, q)
            },
            Err(msg) => {
                &&& msg@ == ports_unavailable_spec(start, port_search_end_spec(start))
                &&& forall|q: u16| start <= q <= port_search_end_spec(start) ==> #[trigger] probe_refused(
                    can_bind,
                    q,
                )
            },
        },
{
    let end = port_search_end(start);
    let mut port: u16 = start;
    loop
        invariant
            start <= port <= end,
            end == port_search_end_spec(start),
            forall|p: u16| call_requires(can_bind, (p,)),
            forall|q: u16| start <= q < port ==> #[trigger] probe_refused(can_bind, q),
        decreases end - port,
    {
        let accepted = can_bind(port);
        if accepted {
            return Ok(port);
        }
        assert(probe_refused(can_bind, port));
        if port == end {
            return Err(ports_unavailable_message(start, end));
        }
        port = port + 1;
    }
}

/// The arguments `java` is started with to run the BlueMap program at `jar`:
/// run it, render, then keep the web server up.
pub open spec fn java_command_args_spec(jar: Seq<char>) -> Seq<Seq<char>> {
    seq!["-jar"@, jar, "-r"@, "-u"@, "-w"@]
}

/// The arguments `java` is started with (see `java_command_args_spec`).
pub fn java_command_args(jar: String) -> (r: Vec<String>)
    ensures
        r.len() == 5,
        r.deep_view() == java_command_args_spec(jar@),
{
    let mut args: Vec<String> = Vec::new();
    args.push(String::from_str("-jar"));
    args.push(jar);
    args.push(String::from_str("-r"));
    args.push(String::from_str("-u"));
    args.push(String::from_str("-w"));
    assert(args.deep_view() =~= java_command_args_spec(jar@));
    args
}

/// The checks before a render starts, in the order they are made: the
/// tools (a usable Java and the BlueMap program), then the world folder,
/// then that no render is running. The first that fails gives the refusal;
/// when all pass, the world's inspection is handed back.
pub open spec fn start_check_spec(
    java: JavaInfoView,
    jar_exists: bool,
    inspection: Result<InspectionView, Seq<char>>,
    m: ManagerView,
) -> Result<InspectionView, Seq<char>> {
    match environment::tools_check_spec(java, jar_exists) {
        Err(e) => Err(e),
        Ok(()) => match inspection {
            Err(e) => Err(e),
            Ok(i) => if !i.valid {
                Err(environment::invalid_world_message())
            } else if !job::start_allowed_spec(m) {
                Err(job::already_running_message())
            } else {
                Ok(i)
            },
        },
    }
}

/// Makes the checks before a render starts (see `start_check_spec`); the
/// manager is only read.
pub fn check_start(
    java: &JavaInfo,
    jar_exists: bool,
    inspection: Result<WorldInspection, String>,
    manager: &RenderManager,
) -> (r: Result<WorldInspection, String>)
    ensures
        world::inspection_result_view(r) == start_check_spec(
            java@,
            jar_exists,
            world::inspection_result_view(inspection),
            manager@,
        ),
{
    match check_tools(java, jar_exists) {
        Err(e) => return Err(e),
        Ok(()) => {},
    }
    let world = match check_world(inspection) {
        Err(e) => return Err(e),
        Ok(w) => w,
    };
    match check_not_running(manager) {
        Err(e) => Err(e),
        Ok(()) => Ok(world),
    }
}

/// The folder that holds render output unless the user chose one.
pub open spec fn default_output_folder() -> Seq<char> {
    "TongCraftRenderOutput"@
}

/// The job directory named `dir_name`, by its path components: under the
/// requested output folder (its components) if one was asked for; otherwise
/// under the default output folder next to the world folder, in the world
/// folder's parent (its components); or, for a world folder without a
/// parent, under the default output folder in the working directory.
pub open spec fn job_directory_spec(
    requested: Option<Seq<Seq<char>>>,
    world_parent: Option<Seq<Seq<char>>>,
    dir_name: Seq<char>,
) -> Seq<Seq<char>> {
    match requested {
        Some(root) => root.push(dir_name),
        None => match world_parent {
            Some(parent) => parent.push(default_output_folder()).push(dir_name),
            None => seq![default_output_folder(), dir_name],
        },
    }
}

/// The path components of the job directory (see `job_directory_spec`).
pub fn job_directory(requested: Option<Vec<String>>, world_parent: Option<Vec<String>>, dir_name: String) -> (r:
    Vec<String>)
    ensures
        r.deep_view() == job_directory_spec(requested.deep_view(), world_parent.deep_view(), dir_name@),
{
    match requested {
        Some(root) => {
            let mut path = root;
            let ghost before = path.deep_view();
            path.push(dir_name);
            assert(path.deep_view() =~= before.push(dir_name@));
            path
        },
        None => match world_parent {
            Some(parent) => {
                let mut path = parent;
                let ghost before = path.deep_view();
                path.push(String::from_str("TongCraftRenderOutput"));
                path.push(dir_name);
                assert(path.deep_view() =~= before.push(default_output_folder()).push(dir_name@));
                path
            },
            None => {
                let mut path: Vec<String> = Vec::new();
                path.push(String::from_str("TongCraftRenderOutput"));
                path.push(dir_name);
                assert(path.deep_view() =~= seq![default_output_folder(), dir_name@]);
                path
            },
        },
    }
}

/// By default render output stays out of the world: with no output folder
/// requested, the job directory lies inside the world folder (its path, by
/// components, begins with the world folder's) exactly when the world
/// folder itself carries the default output folder's name.
pub proof fn law_default_output_outside_world(world: Seq<Seq<char>>, dir_name: Seq<char>)
    requires
        world.len() > 0,
    ensures
        world.is_prefix_of(job_directory_spec(None, Some(world.drop_last()), dir_name))
            <==> world.last() == default_output_folder(),
{
    let parent = world.drop_last();
    let job = job_directory_spec(None, Some(parent), dir_name);
    let n = parent.len() as int;
    assert(job[n] == default_output_folder());
    assert(world[n] == world.last());
    if world.last() == default_output_folder() {
        assert(world =~= job.subrange(0, world.len() as int));
    }
    if world.is_prefix_of(job) {
        assert(world[n] == job.subrange(0, world.len() as int)[n]);
    }
}

/// A requested output folder puts render output inside the world folder
/// exactly when it lies inside the world folder itself, or when the world
/// folder is the job directory: otherwise the job directory lies outside.
pub proof fn law_requested_output_outside_world(
    world: Seq<Seq<char>>,
    requested: Seq<Seq<char>>,
    world_parent: Option<Seq<Seq<char>>>,
    dir_name: Seq<char>,
)
    ensures
        world.is_prefix_of(job_directory_spec(Some(requested), world_parent, dir_name)) <==> (
        world.is_prefix_of(requested) || world == requested.push(dir_name)),
{
    let job = requested.push(dir_name);
    assert(job_directory_spec(Some(requested), world_parent, dir_name) == job);
    if world.is_prefix_of(job) {
        if world.len() <= requested.len() {
            assert(world =~= requested.subrange(0, world.len() as int)) by {
                assert forall|i: int| 0 <= i < world.len() implies world[i] == requested.subrange(
                    0,
                    world.len() as int,
                )[i] by {
                    assert(world[i] == job.subrange(0, world.len() as int)[i]);
                }
            }
        } else {
            assert(world =~= job) by {
                assert(world =~= job.subrange(0, world.len() as int));
            }
        }
    }
    if world.is_prefix_of(requested) {
        assert(world =~= job.subrange(0, world.len() as int)) by {
            assert forall|i: int| 0 <= i < world.len() implies world[i] == job.subrange(
                0,
                world.len() as int,
            )[i] by {
                assert(world[i] == requested.subrange(0, world.len() as int)[i]);
            }
        }
    }
    if world == job {
        assert(world =~= job.subrange(0, world.len() as int));
    }
}

/// The answer when the internal state could not be locked.
pub open spec fn lock_error_spec() -> Seq<char> {
    "内部状态锁定失败。"@
}

/// The answer when the internal state could not be locked.
pub fn lock_error() -> (r: String)
    ensures
        r@ == lock_error_spec(),
{
    String::from_str("内部状态锁定失败。")
}

/// The plain-value model of a text result.
pub open spec fn text_result_view(r: Result<String, String>) -> Result<Seq<char>, Seq<char>> {
    match r {
        Ok(t) => Ok(t@),
        Err(e) => Err(e@),
    }
}

/// The preview address to open: the job's, or a refusal without a job.
pub open spec fn preview_target_spec(m: ManagerView) -> Result<Seq<char>, Seq<char>> {
    match m.job {
        Some(job) => Ok(job.preview_url),
        None => Err("还没有可打开的预览地址。"@),
    }
}

/// The preview address to open (see `preview_target_spec`).
pub fn preview_target(manager: &RenderManager) -> (r: Result<String, String>)
    ensures
        text_result_view(r) == preview_target_spec(manager@),
{
    match &manager.job {
        Some(job) => Ok(job.preview_url.clone()),
        None => Err(String::from_str("还没有可打开的预览地址。")),
    }
}

/// The output folder to open: the job's, or a refusal without a job.
pub open spec fn output_folder_target_spec(m: ManagerView) -> Result<Seq<char>, Seq<char>> {
    match m.job {
        Some(job) => Ok(job.output_dir),
        None => Err("还没有输出目录。"@),
    }
}

/// The output folder to open (see `output_folder_target_spec`).
pub fn output_folder_target(manager: &RenderManager) -> (r: Result<String, String>)
    ensures
        text_result_view(r) == output_folder_target_spec(manager@),
{
    match &manager.job {
        Some(job) => Ok(job.output_dir.clone()),
        None => Err(String::from_str("还没有输出目录。")),
    }
}

/// The job whose diagnostics are exported: its world folder and its job
/// directory, or a refusal without a job.
pub open spec fn diagnostic_target_spec(m: ManagerView) -> Result<(Seq<char>, Seq<char>), Seq<char>> {
    match m.job {
        Some(job) => Ok((job.world_path, job.job_dir)),
        None => Err("没有可导出的渲染任务。"@),
    }
}

/// The world folder and job directory for a diagnostic export (see
/// `diagnostic_target_spec`).
pub fn diagnostic_target(manager: &RenderManager) -> (r: Result<(String, String), String>)
    ensures
        match r {
            Ok((w, d)) => diagnostic_target_spec(manager@) == Ok::<(Seq<char>, Seq<char>), Seq<char>>((w@, d@)),
            Err(e) => diagnostic_target_spec(manager@) == Err::<(Seq<char>, Seq<char>), Seq<char>>(e@),
        },
{
    match &manager.job {
        Some(job) => Ok((job.world_path.clone(), job.job_dir.clone())),
        None => Err(String::from_str("没有可导出的渲染任务。")),
    }
}

/// The contents of a diagnostic export.
pub struct DiagnosticReport {
    pub generated_at: Option<String>,
    pub environment: EnvironmentInfo,
    pub status: RenderStatus,
    pub world_inspection: Option<WorldInspection>,
}

/// Assembles a diagnostic export generated at `now`.
pub fn diagnostic_report(
    now: Timestamp,
    environment: EnvironmentInfo,
    status: RenderStatus,
    world_inspection: Option<WorldInspection>,
) -> (r: DiagnosticReport)
    ensures
        r.generated_at.deep_view() == clock::utc_rfc3339(now.secs, now.nanos),
        clock::within_calendar(now.secs, now.nanos) ==> r.generated_at is Some,
        r.environment == environment,
        r.status == status,
        r.world_inspection == world_inspection,
{
    DiagnosticReport {
        generated_at: rfc3339_text(now.secs, now.nanos),
        environment,
        status,
        world_inspection,
    }
}

/// How handing a target to the system opener went.
pub enum OpenOutcome {
    /// The opener could not be started; the error as text.
    LaunchFailed { message: String },
    /// The opener ran; whether it succeeded, and its exit status as text.
    Finished { success: bool, status: String },
}

/// The plain-value model of `OpenOutcome`.
pub enum OpenOutcomeView {
    LaunchFailed { message: Seq<char> },
    Finished { success: bool, status: Seq<char> },
}

impl View for OpenOutcome {
    type V = OpenOutcomeView;

    open spec fn view(&self) -> OpenOutcomeView {
        match self {
            OpenOutcome::LaunchFailed { message } => OpenOutcomeView::LaunchFailed {
                message: message@,
            },
            OpenOutcome::Finished { success, status } => OpenOutcomeView::Finished {
                success: *success,
                status: status@,
            },
        }
    }
}

/// The answer to an open request: success when the opener ran and
/// succeeded, otherwise a report of why not.
pub open spec fn open_result_spec(o: OpenOutcomeView) -> Result<(), Seq<char>> {
    match o {
        OpenOutcomeView::LaunchFailed { message } => Err("打开失败："@ + message),
        OpenOutcomeView::Finished { success, status } => if success {
            Ok(())
        } else {
            Err("打开命令退出："@ + status)
        },
    }
}

/// The answer to an open request (see `open_result_spec`).
pub fn open_external_result(outcome: OpenOutcome) -> (r: Result<(), String>)
    ensures
        crate::environment::check_view(r) == open_result_spec(outcome@),
{
    match outcome {
        OpenOutcome::LaunchFailed { message } => Err(
            String::from_str("打开失败：").concat(message.as_str()),
        ),
        OpenOutcome::Finished { success, status } => {
            if success {
                Ok(())
            } else {
                Err(String::from_str("打开命令退出：").concat(status.as_str()))
            }
        },
    }
}

} // verus!
