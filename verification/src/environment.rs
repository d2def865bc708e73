//! The machine the renderer runs on: the Java runtime it found, the system's
//! processors and memory, and whether the BlueMap program is present.
use vstd::prelude::*;
use crate::version::{self, java_major, parse_java_version};
use crate::world::{self, WorldInspection};

verus! {

/// What probing `java -version` found.
pub struct JavaInfo {
    pub found: bool,
    pub version: Option<String>,
    pub major: Option<u32>,
    pub path: Option<String>,
    pub output: String,
}

/// The plain-value model of `JavaInfo`.
pub struct JavaInfoView {
    pub found: bool,
    pub version: Option<Seq<char>>,
    pub major: Option<u32>,
    pub path: Option<Seq<char>>,
    pub output: Seq<char>,
}

impl View for JavaInfo {
    type V = JavaInfoView;

    open spec fn view(&self) -> JavaInfoView {
        JavaInfoView {
            found: self.found,
            version: self.version.deep_view(),
            major: self.major,
            path: self.path.deep_view(),
            output: self.output@,
        }
    }
}

/// The major release of an optional version text.
pub open spec fn major_of(version: Option<Seq<char>>) -> Option<u32> {
    match version {
        Some(v) => version::java_major_spec(v),
        None => None,
    }
}

/// What `java -version` reveals once it ran: its output is what it wrote to
/// standard output followed by what it wrote to standard error; Java counts
/// as found when the command succeeded or a version could be read.
pub open spec fn java_probe_spec(stdout: Seq<char>, stderr: Seq<char>, success: bool) -> JavaInfoView {
    let text = stdout + stderr;
    let v = version::java_version_spec(text);
    JavaInfoView {
        found: success || v is Some,
        version: v,
        major: major_of(v),
        path: Some("java"@),
        output: text,
    }
}

/// Reads the result of running `java -version` (see `java_probe_spec`);
/// the two texts are its output streams decoded as UTF-8, invalid sequences
/// replaced.
pub fn probe_java_output(stdout: String, stderr: String, success: bool) -> (r: JavaInfo)
    ensures
        r@ == java_probe_spec(stdout@, stderr@, success),
{
    let text = stdout.concat(stderr.as_str());
    let v = parse_java_version(text.as_str());
    let major = match &v {
        Some(s) => java_major(s.as_str()),
        None => None,
    };
    JavaInfo {
        found: success || v.is_some(),
        version: v,
        major,
        path: Some(String::from_str("java")),
        output: text,
    }
}

/// The probe result when `java` could not be run: nothing found, and the
/// error text as output.
pub fn probe_java_failure(error: String) -> (r: JavaInfo)
    ensures
        r@ == (JavaInfoView { found: false, version: None, major: None, path: None, output: error@ }),
{
    JavaInfo { found: false, version: None, major: None, path: None, output: error }
}

/// What the front end is told about the system.
pub struct SystemInfo {
    pub os: String,
    pub arch: String,
    pub cpu_count: usize,
    pub recommended_threads: usize,
    pub total_memory_mb: Option<u64>,
}

/// Render threads to suggest for `cpu_count` processors: one fewer than the
/// processors, kept between 1 and 4.
pub open spec fn recommended_threads_spec(cpu_count: usize) -> usize {
    if cpu_count <= 1 {
        1
    } else if cpu_count - 1 > 4 {
        4
    } else {
        (cpu_count - 1) as usize
    }
}

/// Render threads to suggest (see `recommended_threads_spec`).
pub fn recommended_threads(cpu_count: usize) -> (r: usize)
    ensures
        r == recommended_threads_spec(cpu_count),
        1 <= r <= 4,
{
    let spare = cpu_count.saturating_sub(1);
    if spare < 1 {
        1
    } else if spare > 4 {
        4
    } else {
        spare
    }
}

/// What the front end is told about the environment.
pub struct EnvironmentInfo {
    pub java: JavaInfo,
    pub system: SystemInfo,
    pub bluemap_jar_found: bool,
    pub bluemap_jar_path: Option<String>,
}

/// Assembles the environment report: the Java probe, the system with its
/// suggested thread count and memory in whole MiB, and where the BlueMap
/// program is expected; it counts as found when a location is known and a
/// file exists there (`jar_exists`).
pub fn check_environment(
    java: JavaInfo,
    os: String,
    arch: String,
    cpu_count: usize,
    total_memory_bytes: u64,
    jar_path: Option<String>,
    jar_exists: bool,
) -> (r: EnvironmentInfo)
    ensures
        r.java@ == java@,
        r.system.os@ == os@,
        r.system.arch@ == arch@,
        r.system.cpu_count == cpu_count,
        r.system.recommended_threads == recommended_threads_spec(cpu_count),
        r.system.total_memory_mb == Some((total_memory_bytes / 1024 / 1024) as u64),
        r.bluemap_jar_found == (jar_path is Some && jar_exists),
        r.bluemap_jar_path.deep_view() == jar_path.deep_view(),
{
    let found = jar_path.is_some() && jar_exists;
    EnvironmentInfo {
        java,
        system: SystemInfo {
            os,
            arch,
            cpu_count,
            recommended_threads: recommended_threads(cpu_count),
            total_memory_mb: Some(total_memory_bytes / 1024 / 1024),
        },
        bluemap_jar_found: found,
        bluemap_jar_path: jar_path,
    }
}

/// The refusal when Java is missing or older than 21.
pub open spec fn java_too_old_message() -> Seq<char> {
    "需要 Java 21 或更新版本。请先安装对应系统架构的 JDK。"@
}

/// The refusal when the BlueMap program is missing.
pub open spec fn missing_jar_message() -> Seq<char> {
    "找不到 bin/BlueMap-cli.jar，无法启动 BlueMap。"@
}

/// The refusal when the chosen folder is not a world.
pub open spec fn invalid_world_message() -> Seq<char> {
    "选择的目录不是有效的 Minecraft Java 世界目录。"@
}

/// Java is usable for BlueMap: it was found and its major release, read as 0
/// when unknown, is at least 21.
pub open spec fn java_usable(java: JavaInfoView) -> bool {
    java.found && match java.major {
        Some(m) => m >= 21,
        None => false,
    }
}

/// The first refusal that applies before a render may start: Java missing or
/// too old, then the BlueMap program missing.
pub open spec fn tools_check_spec(java: JavaInfoView, jar_exists: bool) -> Result<(), Seq<char>> {
    if !java_usable(java) {
        Err(java_too_old_message())
    } else if !jar_exists {
        Err(missing_jar_message())
    } else {
        Ok(())
    }
}

/// The plain-value model of a check result.
pub open spec fn check_view(r: Result<(), String>) -> Result<(), Seq<char>> {
    match r {
        Ok(()) => Ok(()),
        Err(e) => Err(e@),
    }
}

/// Refuses to start a render without a usable Java or without the BlueMap
/// program (see `tools_check_spec`).
pub fn check_tools(java: &JavaInfo, jar_exists: bool) -> (r: Result<(), String>)
    ensures
        check_view(r) == tools_check_spec(java@, jar_exists),
{
    let major = match java.major {
        Some(m) => m,
        None => 0,
    };
    if !java.found || major < 21 {
        return Err(String::from_str("需要 Java 21 或更新版本。请先安装对应系统架构的 JDK。"));
    }
    if !jar_exists {
        return Err(String::from_str("找不到 bin/BlueMap-cli.jar，无法启动 BlueMap。"));
    }
    Ok(())
}

/// Refuses to render a folder whose inspection failed (with that error) or
/// that is not a valid world; otherwise hands the inspection back.
pub fn check_world(inspection: Result<WorldInspection, String>) -> (r: Result<WorldInspection, String>)
    ensures
        match world::inspection_result_view(inspection) {
            Err(e) => world::inspection_result_view(r) == Err::<world::InspectionView, Seq<char>>(e),
            Ok(i) => if i.valid {
                world::inspection_result_view(r) == Ok::<world::InspectionView, Seq<char>>(i)
            } else {
                world::inspection_result_view(r) == Err::<world::InspectionView, Seq<char>>(
                    invalid_world_message(),
                )
            },
        },
{
    match inspection {
        Err(e) => Err(e),
        Ok(i) => {
            if i.valid {
                Ok(i)
            } else {
                Err(String::from_str("选择的目录不是有效的 Minecraft Java 世界目录。"))
            }
        },
    }
}

/// The folders the BlueMap program is looked for under.
#[derive(PartialEq, Eq, Structural, Clone, Copy, Debug)]
pub enum JarBase {
    /// The application's packaged resources.
    ResourceDir,
    /// The application's own folder (the parent of its crate folder).
    AppRoot,
    /// The folder above the application's folder.
    RepoRoot,
}

/// Where under its base folder the program lies.
pub open spec fn jar_relative_path_spec(base: JarBase) -> Seq<char> {
    match base {
        JarBase::ResourceDir => "BlueMap-cli.jar"@,
        _ => "bin/BlueMap-cli.jar"@,
    }
}

/// Where under its base folder the program lies (see
/// `jar_relative_path_spec`).
pub fn jar_relative_path(base: JarBase) -> (r: String)
    ensures
        r@ == jar_relative_path_spec(base),
{
    match base {
        JarBase::ResourceDir => String::from_str("BlueMap-cli.jar"),
        _ => String::from_str("bin/BlueMap-cli.jar"),
    }
}

/// Which candidate is taken for the BlueMap program: the packaged one if it
/// exists; else, with no known application folder, none; else the one in the
/// application folder if it exists; else the one in the folder above it,
/// whether or not it exists, if that folder is known.
pub open spec fn bluemap_jar_spec(
    packaged_exists: bool,
    app_root_known: bool,
    app_local_exists: bool,
    repo_root_known: bool,
) -> Option<JarBase> {
    if packaged_exists {
        Some(JarBase::ResourceDir)
    } else if !app_root_known {
        None
    } else if app_local_exists {
        Some(JarBase::AppRoot)
    } else if repo_root_known {
        Some(JarBase::RepoRoot)
    } else {
        None
    }
}

/// Chooses the candidate for the BlueMap program from what was found on disk
/// (see `bluemap_jar_spec`).
pub fn locate_bluemap_jar(
    packaged_exists: bool,
    app_root_known: bool,
    app_local_exists: bool,
    repo_root_known: bool,
) -> (r: Option<JarBase>)
    ensures
        r == bluemap_jar_spec(packaged_exists, app_root_known, app_local_exists, repo_root_known),
{
    if packaged_exists {
        return Some(JarBase::ResourceDir);
    }
    if !app_root_known {
        return None;
    }
    if app_local_exists {
        Some(JarBase::AppRoot)
    } else if repo_root_known {
        Some(JarBase::RepoRoot)
    } else {
        None
    }
}

} // verus!
