//! The working directory of a render job: the folders to create, the BlueMap
//! configuration files with their exact contents, and the optional web
//! customizations to copy in.
use vstd::prelude::*;
use crate::text::{self, decimal_text, owned, replace_char_with};

verus! {

/// `str::replace('\\', "\\\\").replace('"', "\\\"")`: backslashes and double
/// quotes escaped for a quoted HOCON string.
pub open spec fn hocon_escape_spec(value: Seq<char>) -> Seq<char> {
    text::replace_char(text::replace_char(value, '\\', "\\\\"@), '"', "\\\""@)
}

/// Escapes a text for use inside a quoted HOCON string.
pub fn hocon_escape(value: &str) -> (r: String)
    ensures
        r@ == hocon_escape_spec(value@),
{
    let once = replace_char_with(value, '\\', "\\\\");
    replace_char_with(once.as_str(), '"', "\\\"")
}

/// Reads back a text escaped for a quoted HOCON string: a backslash stands
/// for the character after it.
pub open spec fn hocon_unescape(s: Seq<char>) -> Seq<char>
    decreases s.len(),
{
    if s.len() == 0 {
        Seq::empty()
    } else if s[0] == '\\' && s.len() >= 2 {
        seq![s[1]] + hocon_unescape(s.skip(2))
    } else {
        seq![s[0]] + hocon_unescape(s.skip(1))
    }
}

/// Law: escaping loses nothing; reading the escaped text back gives the
/// original text.
pub proof fn law_hocon_escape_round_trip(value: Seq<char>)
    ensures
        hocon_unescape(hocon_escape_spec(value)) == value,
    decreases value.len(),
{
    if value.len() == 0 {
        assert(text::replace_char(value, '\\', "\\\\"@) =~= Seq::<char>::empty());
        assert(hocon_escape_spec(value) =~= Seq::<char>::empty());
    } else {
        reveal_strlit("\\\\");
        reveal_strlit("\\\"");
        let c = value[0];
        let rest = value.drop_first();
        let once = text::replace_char(value, '\\', "\\\\"@);
        let once_rest = text::replace_char(rest, '\\', "\\\\"@);
        text::lemma_replace_char_front(value, '\\', "\\\\"@);
        let head = text::replacement_of(c, '\\', "\\\\"@);
        assert(once == head + once_rest);
        text::lemma_replace_char_concat(head, once_rest, '"', "\\\""@);
        let escaped_head = text::replace_char(head, '"', "\\\""@);
        let escaped_rest = hocon_escape_spec(rest);
        assert(hocon_escape_spec(value) == escaped_head + escaped_rest);
        if c == '\\' {
            assert(head =~= seq!['\\', '\\']);
            text::lemma_replace_char_absent(head, '"', "\\\""@);
            assert(escaped_head =~= seq!['\\', '\\']);
        } else if c == '"' {
            assert(head =~= seq!['"']);
            text::lemma_replace_char_single('"', '"', "\\\""@);
            assert(escaped_head =~= seq!['\\', '"']);
        } else {
            assert(head =~= seq![c]);
            text::lemma_replace_char_single(c, '"', "\\\""@);
            assert(escaped_head =~= seq![c]);
        }
        let whole = escaped_head + escaped_rest;
        if c == '\\' || c == '"' {
            assert(whole.skip(2) =~= escaped_rest);
        } else {
            assert(whole.skip(1) =~= escaped_rest);
        }
        law_hocon_escape_round_trip(rest);
        assert(value =~= seq![c] + rest);
    }
}

/// How one character is written inside a quoted HOCON string.
pub open spec fn escaped_char(c: char) -> Seq<char> {
    if c == '\\' {
        seq!['\\', '\\']
    } else if c == '"' {
        seq!['\\', '"']
    } else {
        seq![c]
    }
}

/// Escaping a text with one more character appends that character's
/// escaped form.
pub proof fn lemma_hocon_escape_push(value: Seq<char>, c: char)
    ensures
        hocon_escape_spec(value.push(c)) == hocon_escape_spec(value) + escaped_char(c),
{
    reveal_strlit("\\\\");
    reveal_strlit("\\\"");
    let once = text::replace_char(value, '\\', "\\\\"@);
    let head = text::replacement_of(c, '\\', "\\\\"@);
    assert(value.push(c).drop_last() =~= value);
    assert(text::replace_char(value.push(c), '\\', "\\\\"@) == once + head);
    text::lemma_replace_char_concat(once, head, '"', "\\\""@);
    if c == '\\' {
        assert(head =~= seq!['\\', '\\']);
        text::lemma_replace_char_absent(head, '"', "\\\""@);
    } else if c == '"' {
        assert(head =~= seq!['"']);
        text::lemma_replace_char_single('"', '"', "\\\""@);
        assert(text::replace_char(head, '"', "\\\""@) =~= escaped_char(c));
    } else {
        assert(head =~= seq![c]);
        text::lemma_replace_char_single(c, '"', "\\\""@);
    }
}

/// The number of backslashes directly before position `i` of `s`.
pub open spec fn backslashes_before(s: Seq<char>, i: int) -> nat
    decreases i,
{
    if 0 < i <= s.len() && s[i - 1] == '\\' {
        1 + backslashes_before(s, i - 1)
    } else {
        0
    }
}

proof fn lemma_backslashes_before_prefix(s: Seq<char>, t: Seq<char>, i: int)
    requires
        0 <= i <= s.len(),
    ensures
        backslashes_before(s + t, i) == backslashes_before(s, i),
    decreases i,
{
    if i > 0 {
        assert((s + t)[i - 1] == s[i - 1]);
        lemma_backslashes_before_prefix(s, t, i - 1);
    }
}

/// Law: inside the escaped text every double quote follows an odd run of
/// backslashes, so it is an escaped quote and cannot end a quoted HOCON
/// string; and the text ends in an even run of backslashes, so the closing
/// quote written after it does end the string.
pub proof fn law_hocon_escape_quotes_stay_escaped(value: Seq<char>)
    ensures
        forall|i: int|
            0 <= i < hocon_escape_spec(value).len() && #[trigger] hocon_escape_spec(value)[i] == '"'
                ==> backslashes_before(hocon_escape_spec(value), i) % 2 == 1,
        backslashes_before(hocon_escape_spec(value), hocon_escape_spec(value).len() as int) % 2 == 0,
    decreases value.len(),
{
    let r = hocon_escape_spec(value);
    if value.len() == 0 {
        assert(text::replace_char(value, '\\', "\\\\"@) =~= Seq::<char>::empty());
        assert(r =~= Seq::<char>::empty());
    } else {
        let v = value.drop_last();
        let c = value.last();
        assert(v.push(c) =~= value);
        law_hocon_escape_quotes_stay_escaped(v);
        lemma_hocon_escape_push(v, c);
        let e = hocon_escape_spec(v);
        let t = escaped_char(c);
        assert(r == e + t);
        let n = e.len() as int;
        assert forall|i: int| 0 <= i < r.len() && #[trigger] r[i] == '"' implies backslashes_before(r, i) % 2 == 1 by {
            if i < n {
                assert(r[i] == e[i]);
                lemma_backslashes_before_prefix(e, t, i);
            } else {
                lemma_backslashes_before_prefix(e, t, n);
                if c == '\\' {
                    assert(r[i] == '\\');
                } else if c == '"' {
                    assert(i == n + 1);
                    assert(r[n] == '\\');
                    assert(backslashes_before(r, n + 1) == 1 + backslashes_before(r, n));
                } else {
                    assert(i == n);
                    assert(r[n] == c);
                }
            }
        }
        lemma_backslashes_before_prefix(e, t, n);
        if c == '\\' {
            assert(r[n] == '\\' && r[n + 1] == '\\');
            assert(backslashes_before(r, n + 2) == 1 + backslashes_before(r, n + 1));
            assert(backslashes_before(r, n + 1) == 1 + backslashes_before(r, n));
        } else if c == '"' {
            assert(r[n + 1] == '"');
            assert(backslashes_before(r, n + 2) == 0);
        } else {
            assert(r[n] == c);
            assert(backslashes_before(r, n + 1) == 0);
        }
    }
}

/// A displayed path with every backslash turned into a forward slash.
pub open spec fn normalize_path_spec(path: Seq<char>) -> Seq<char> {
    text::replace_char(path, '\\', "/"@)
}

/// Writes a displayed path with forward slashes only, as BlueMap expects on
/// every platform.
pub fn normalize_path(path: &str) -> (r: String)
    ensures
        r@ == normalize_path_spec(path@),
{
    replace_char_with(path, '\\', "/")
}

/// Law: a normalized path has the same length as the original, holds no
/// backslash, and keeps every other character where it was.
pub proof fn law_normalized_path_has_no_backslash(path: Seq<char>)
    ensures
        normalize_path_spec(path).len() == path.len(),
        forall|i: int| 0 <= i < path.len() ==> #[trigger] normalize_path_spec(path)[i] == if path[i] == '\\' {
            '/'
        } else {
            path[i]
        },
    decreases path.len(),
{
    reveal_strlit("/");
    if path.len() > 0 {
        law_normalized_path_has_no_backslash(path.drop_last());
        let r = normalize_path_spec(path);
        let p = normalize_path_spec(path.drop_last());
        assert forall|i: int| 0 <= i < path.len() implies #[trigger] r[i] == if path[i] == '\\' {
            '/'
        } else {
            path[i]
        } by {
            if i < path.len() - 1 {
                assert(r[i] == p[i]);
                assert(path.drop_last()[i] == path[i]);
            }
        }
    }
}

/// The prefix of Windows extended-length paths, `\\?\`.
pub open spec fn verbatim_prefix() -> Seq<char> {
    seq!['\\', '\\', '?', '\\']
}

/// A displayed path without the Windows extended-length prefix, which Java
/// does not accept.
pub open spec fn java_compatible_path_spec(path: Seq<char>) -> Seq<char> {
    if path.len() >= 4 && path.take(4) == verbatim_prefix() {
        path.skip(4)
    } else {
        path
    }
}

/// The path Java is given for the BlueMap program: on Windows the displayed
/// path without the extended-length prefix `\\?\`, which Java does not
/// accept; on other platforms the path unchanged.
pub fn java_compatible_path(path: &str, windows: bool) -> (r: String)
    ensures
        r@ == if windows {
            java_compatible_path_spec(path@)
        } else {
            path@
        },
{
    if !windows {
        return owned(path);
    }
    let n = path.unicode_len();
    if n >= 4 && path.get_char(0) == '\\' && path.get_char(1) == '\\' && path.get_char(2) == '?'
        && path.get_char(3) == '\\' {
        assert(path@.take(4) =~= verbatim_prefix());
        let rest = path.substring_char(4, n);
        assert(rest@ =~= path@.skip(4));
        owned(rest)
    } else {
        proof {
            if path@.len() >= 4 && path@.take(4) == verbatim_prefix() {
                assert(path@[0] == path@.take(4)[0]);
                assert(path@[1] == path@.take(4)[1]);
                assert(path@[2] == path@.take(4)[2]);
                assert(path@[3] == path@.take(4)[3]);
            }
        }
        owned(path)
    }
}

/// Render threads written to the configuration: the request, kept between 1
/// and 64.
pub open spec fn clamped_threads(threads: usize) -> nat {
    if threads < 1 {
        1
    } else if threads > 64 {
        64
    } else {
        threads as nat
    }
}

/// `config/core.conf`.
pub open spec fn core_conf_spec(threads: usize) -> Seq<char> {
    "accept-download: true\ndata: \"data\"\nrender-thread-count: "@ + text::decimal(
        clamped_threads(threads),
    )
        + "\nscan-for-mod-resources: true\nmetrics: false\nlog: {\n  file: \"data/logs/bluemap-debug.log\"\n  append: false\n}\n"@
}

/// `config/webserver.conf`.
pub open spec fn webserver_conf_spec(port: u16) -> Seq<char> {
    "enabled: true\nwebroot: \"web\"\nport: "@ + text::decimal(port as nat)
        + "\nlog: {\n  file: \"data/logs/webserver.log\"\n  append: false\n  format: \"%1$s \\\"%3$s %4$s %5$s\\\" %6$s %7$s\"\n}\n"@
}

/// `config/webapp.conf`.
pub open spec fn webapp_conf_spec() -> Seq<char> {
    "enabled: true\nwebroot: \"web\"\nuse-cookies: true\n"@
}

/// `config/storages/file.conf`.
pub open spec fn storage_conf_spec() -> Seq<char> {
    "storage-type: file\nroot: \"web/maps\"\ncompression: gzip\n"@
}

/// The settings of the overworld map after its `world:` line.
pub open spec fn overworld_settings() -> Seq<char> {
    "\"\ndimension: \"minecraft:overworld\"\nname: \"TongCraft Overworld\"\nsorting: 0\nstart-pos: { x: 0, z: 0 }\nsky-color: \"#7dabff\"\nvoid-color: \"#030712\"\nambient-light: 0\nremove-caves-below-y: 55\nenable-perspective-view: false\nenable-flat-view: true\nenable-free-flight-view: false\nenable-hires: false\nstorage: \"file\"\n"@
}

/// The settings of the Nether map after its `world:` line.
pub open spec fn nether_settings() -> Seq<char> {
    "/DIM-1\"\ndimension: \"minecraft:the_nether\"\nname: \"TongCraft Nether\"\nsorting: 10\nstart-pos: { x: 0, z: 0 }\nsky-color: \"#1a0908\"\nvoid-color: \"#050203\"\nambient-light: 0.1\nremove-caves-below-y: 0\nenable-perspective-view: false\nenable-flat-view: true\nenable-free-flight-view: false\nenable-hires: false\nstorage: \"file\"\n"@
}

/// The settings of the End map after its `world:` line.
pub open spec fn end_settings() -> Seq<char> {
    "/DIM1\"\ndimension: \"minecraft:the_end\"\nname: \"TongCraft End\"\nsorting: 20\nstart-pos: { x: 0, z: 0 }\nsky-color: \"#1f1636\"\nvoid-color: \"#020109\"\nambient-light: 0.15\nremove-caves-below-y: 0\nenable-perspective-view: false\nenable-flat-view: true\nenable-free-flight-view: false\nenable-hires: false\nstorage: \"file\"\n"@
}

/// A map configuration: the quoted world folder (already escaped) and the
/// map's settings.
pub open spec fn map_conf_spec(escaped_world: Seq<char>, settings: Seq<char>) -> Seq<char> {
    "world: \""@ + escaped_world + settings
}

/// One file of the job's configuration: its path relative to the job
/// directory and its contents.
pub struct ConfigFile {
    pub path: String,
    pub content: String,
}

/// The plain-value model of `ConfigFile`.
pub struct ConfigFileView {
    pub path: Seq<char>,
    pub content: Seq<char>,
}

impl View for ConfigFile {
    type V = ConfigFileView;

    open spec fn view(&self) -> ConfigFileView {
        ConfigFileView { path: self.path@, content: self.content@ }
    }
}

impl DeepView for ConfigFile {
    type V = ConfigFileView;

    open spec fn deep_view(&self) -> ConfigFileView {
        self@
    }
}

/// What to create inside a job directory: folders, then files.
pub struct JobPlan {
    pub directories: Vec<String>,
    pub files: Vec<ConfigFile>,
}

/// The plain-value model of `JobPlan`.
pub struct JobPlanView {
    pub directories: Seq<Seq<char>>,
    pub files: Seq<ConfigFileView>,
}

impl View for JobPlan {
    type V = JobPlanView;

    open spec fn view(&self) -> JobPlanView {
        JobPlanView { directories: self.directories.deep_view(), files: self.files.deep_view() }
    }
}

/// The folders of a job directory.
pub open spec fn job_directories() -> Seq<Seq<char>> {
    seq!["config/maps"@, "config/storages"@, "data/logs"@, "web/css"@, "web/js"@]
}

/// A file of the plan.
pub open spec fn file_view(path: Seq<char>, content: Seq<char>) -> ConfigFileView {
    ConfigFileView { path, content }
}

/// The plan of a job directory for the world at `world_path` (as displayed):
/// the core, web server, web app, storage and overworld map configuration,
/// then the Nether map when it is requested and the world has `DIM-1`, then
/// the End map when it is requested and the world has `DIM1`. The maps name
/// the world by its path with forward slashes, escaped for HOCON.
pub open spec fn job_plan_spec(
    world_path: Seq<char>,
    port: u16,
    threads: usize,
    nether: bool,
    end: bool,
) -> JobPlanView {
    let world = hocon_escape_spec(normalize_path_spec(world_path));
    JobPlanView {
        directories: job_directories(),
        files: seq![
            file_view("config/core.conf"@, core_conf_spec(threads)),
            file_view("config/webserver.conf"@, webserver_conf_spec(port)),
            file_view("config/webapp.conf"@, webapp_conf_spec()),
            file_view("config/storages/file.conf"@, storage_conf_spec()),
            file_view("config/maps/world.conf"@, map_conf_spec(world, overworld_settings())),
        ] + (if nether {
            seq![file_view("config/maps/world_nether.conf"@, map_conf_spec(world, nether_settings()))]
        } else {
            Seq::empty()
        }) + (if end {
            seq![file_view("config/maps/world_the_end.conf"@, map_conf_spec(world, end_settings()))]
        } else {
            Seq::empty()
        }),
    }
}

fn config_file(path: &str, content: String) -> (f: ConfigFile)
    ensures
        f@ == file_view(path@, content@),
{
    ConfigFile { path: owned(path), content }
}

fn map_conf(escaped_world: &str, settings: &str) -> (r: String)
    ensures
        r@ == map_conf_spec(escaped_world@, settings@),
{
    let head = String::from_str("world: \"");
    head.concat(escaped_world).concat(settings)
}

/// Plans the working directory of a job (see `job_plan_spec`).
pub fn prepare_job_directory(
    world_path: &str,
    port: u16,
    threads: usize,
    render_nether: bool,
    has_nether: bool,
    render_end: bool,
    has_end: bool,
) -> (r: JobPlan)
    ensures
        r@ == job_plan_spec(world_path@, port, threads, render_nether && has_nether, render_end && has_end),
{
    let mut directories: Vec<String> = Vec::new();
    directories.push(String::from_str("config/maps"));
    directories.push(String::from_str("config/storages"));
    directories.push(String::from_str("data/logs"));
    directories.push(String::from_str("web/css"));
    directories.push(String::from_str("web/js"));
    assert(directories.deep_view() =~= job_directories());

    let t: usize = if threads < 1 {
        1
    } else if threads > 64 {
        64
    } else {
        threads
    };
    let core = String::from_str("accept-download: true\ndata: \"data\"\nrender-thread-count: ").concat(
        decimal_text(t as u64).as_str(),
    ).concat(
        "\nscan-for-mod-resources: true\nmetrics: false\nlog: {\n  file: \"data/logs/bluemap-debug.log\"\n  append: false\n}\n",
    );
    let webserver = String::from_str("enabled: true\nwebroot: \"web\"\nport: ").concat(
        decimal_text(port as u64).as_str(),
    ).concat(
        "\nlog: {\n  file: \"data/logs/webserver.log\"\n  append: false\n  format: \"%1$s \\\"%3$s %4$s %5$s\\\" %6$s %7$s\"\n}\n",
    );
    let normalized = normalize_path(world_path);
    let world = hocon_escape(normalized.as_str());

    let mut files: Vec<ConfigFile> = Vec::new();
    files.push(config_file("config/core.conf", core));
    files.push(config_file("config/webserver.conf", webserver));
    files.push(
        config_file(
            "config/webapp.conf",
            String::from_str("enabled: true\nwebroot: \"web\"\nuse-cookies: true\n"),
        ),
    );
    files.push(
        config_file(
            "config/storages/file.conf",
            String::from_str("storage-type: file\nroot: \"web/maps\"\ncompression: gzip\n"),
        ),
    );
    files.push(
        config_file(
            "config/maps/world.conf",
            map_conf(
                world.as_str(),
                "\"\ndimension: \"minecraft:overworld\"\nname: \"TongCraft Overworld\"\nsorting: 0\nstart-pos: { x: 0, z: 0 }\nsky-color: \"#7dabff\"\nvoid-color: \"#030712\"\nambient-light: 0\nremove-caves-below-y: 55\nenable-perspective-view: false\nenable-flat-view: true\nenable-free-flight-view: false\nenable-hires: false\nstorage: \"file\"\n",
            ),
        ),
    );
    let ghost base = files.deep_view();
    if render_nether && has_nether {
        files.push(
            config_file(
                "config/maps/world_nether.conf",
                map_conf(
                    world.as_str(),
                    "/DIM-1\"\ndimension: \"minecraft:the_nether\"\nname: \"TongCraft Nether\"\nsorting: 10\nstart-pos: { x: 0, z: 0 }\nsky-color: \"#1a0908\"\nvoid-color: \"#050203\"\nambient-light: 0.1\nremove-caves-below-y: 0\nenable-perspective-view: false\nenable-flat-view: true\nenable-free-flight-view: false\nenable-hires: false\nstorage: \"file\"\n",
                ),
            ),
        );
    }
    let ghost with_nether = files.deep_view();
    if render_end && has_end {
        files.push(
            config_file(
                "config/maps/world_the_end.conf",
                map_conf(
                    world.as_str(),
                    "/DIM1\"\ndimension: \"minecraft:the_end\"\nname: \"TongCraft End\"\nsorting: 20\nstart-pos: { x: 0, z: 0 }\nsky-color: \"#1f1636\"\nvoid-color: \"#020109\"\nambient-light: 0.15\nremove-caves-below-y: 0\nenable-perspective-view: false\nenable-flat-view: true\nenable-free-flight-view: false\nenable-hires: false\nstorage: \"file\"\n",
                ),
            ),
        );
    }
    let plan = JobPlan { directories, files };
    assert(plan@.files =~= job_plan_spec(world_path@, port, threads, render_nether && has_nether, render_end && has_end).files);
    plan
}

/// Law: a job writes only inside its own directory, under names that do not
/// depend on the world: two worlds with the same settings get the same
/// folders and the same file names, every one a path under `config/`,
/// `data/` or `web/` of the job directory; the world only shows in the
/// contents of the map files.
pub proof fn law_plan_stays_in_job_directory(
    world_a: Seq<char>,
    world_b: Seq<char>,
    port: u16,
    threads: usize,
    nether: bool,
    end: bool,
)
    ensures
        ({
            let a = job_plan_spec(world_a, port, threads, nether, end);
            let b = job_plan_spec(world_b, port, threads, nether, end);
            &&& a.directories == b.directories
            &&& a.files.len() == b.files.len()
            &&& forall|i: int| 0 <= i < a.files.len() ==> #[trigger] a.files[i].path == b.files[i].path
            &&& forall|i: int| 0 <= i < a.files.len() ==> (#[trigger] a.files[i].path).take(7) == "config/"@
            &&& forall|i: int| 0 <= i < a.directories.len() ==> {
                let d = #[trigger] a.directories[i];
                d.take(7) == "config/"@ || d.take(5) == "data/"@ || d.take(4) == "web/"@
            }
        }),
{
    reveal_strlit("config/");
    reveal_strlit("data/");
    reveal_strlit("web/");
    reveal_strlit("config/maps");
    reveal_strlit("config/storages");
    reveal_strlit("data/logs");
    reveal_strlit("web/css");
    reveal_strlit("web/js");
    reveal_strlit("config/core.conf");
    reveal_strlit("config/webserver.conf");
    reveal_strlit("config/webapp.conf");
    reveal_strlit("config/storages/file.conf");
    reveal_strlit("config/maps/world.conf");
    reveal_strlit("config/maps/world_nether.conf");
    reveal_strlit("config/maps/world_the_end.conf");
    let a = job_plan_spec(world_a, port, threads, nether, end);
    assert forall|i: int| 0 <= i < a.files.len() implies (#[trigger] a.files[i].path).take(7) == "config/"@ by {
        assert(a.files[i].path.take(7) =~= "config/"@);
    }
    assert forall|i: int| 0 <= i < a.directories.len() implies {
        let d = #[trigger] a.directories[i];
        d.take(7) == "config/"@ || d.take(5) == "data/"@ || d.take(4) == "web/"@
    } by {
        if i < 2 {
            assert(a.directories[i].take(7) =~= "config/"@);
        } else if i == 2 {
            assert(a.directories[i].take(5) =~= "data/"@);
        } else {
            assert(a.directories[i].take(4) =~= "web/"@);
        }
    }
}

/// The web customization folders (under `web/` of the repository) to copy
/// into the job's `web/` folder: `css` and `js` when the repository root is
/// known, none otherwise.
pub open spec fn customization_folders(repo_root_known: bool) -> Seq<Seq<char>> {
    if repo_root_known {
        seq!["css"@, "js"@]
    } else {
        Seq::empty()
    }
}

/// The web customization folders to copy (see `customization_folders`).
pub fn copy_optional_customizations(repo_root_known: bool) -> (r: Vec<String>)
    ensures
        r.deep_view() == customization_folders(repo_root_known),
{
    let mut r: Vec<String> = Vec::new();
    if repo_root_known {
        r.push(String::from_str("css"));
        r.push(String::from_str("js"));
    }
    assert(r.deep_view() =~= customization_folders(repo_root_known));
    r
}

} // verus!
