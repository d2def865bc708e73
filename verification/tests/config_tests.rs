use bluemap_renderer::config::{
    copy_optional_customizations, hocon_escape, java_compatible_path, normalize_path,
    prepare_job_directory,
};

#[test]
fn hocon_escape_escapes_backslashes_and_quotes() {
    assert_eq!(hocon_escape(r#"C:\Worlds\"Best""#), r#"C:\\Worlds\\\"Best\""#);
    assert_eq!(hocon_escape("plain"), "plain");
}

#[test]
fn normalize_path_uses_forward_slashes() {
    assert_eq!(normalize_path(r"C:\Users\me\saves\World"), "C:/Users/me/saves/World");
    assert_eq!(normalize_path("/home/me/World"), "/home/me/World");
}

#[test]
fn java_compatible_path_strips_the_verbatim_prefix_on_windows() {
    assert_eq!(java_compatible_path(r"\\?\C:\app\bin\BlueMap-cli.jar", true), r"C:\app\bin\BlueMap-cli.jar");
    assert_eq!(java_compatible_path(r"C:\app\BlueMap-cli.jar", true), r"C:\app\BlueMap-cli.jar");
    assert_eq!(java_compatible_path(r"\\?", true), r"\\?");
}

#[test]
fn java_compatible_path_keeps_paths_elsewhere() {
    assert_eq!(java_compatible_path(r"\\?\C:\app\BlueMap-cli.jar", false), r"\\?\C:\app\BlueMap-cli.jar");
    assert_eq!(java_compatible_path("/opt/app/BlueMap-cli.jar", false), "/opt/app/BlueMap-cli.jar");
}

#[test]
fn job_plan_holds_all_configuration() {
    let plan = prepare_job_directory(r"C:\saves\My World", 8101, 0, true, true, true, false);
    assert_eq!(plan.directories, vec!["config/maps", "config/storages", "data/logs", "web/css", "web/js"]);
    let paths: Vec<&str> = plan.files.iter().map(|f| f.path.as_str()).collect();
    assert_eq!(
        paths,
        vec![
            "config/core.conf",
            "config/webserver.conf",
            "config/webapp.conf",
            "config/storages/file.conf",
            "config/maps/world.conf",
            "config/maps/world_nether.conf",
        ]
    );
    assert!(plan.files[0].content.contains("render-thread-count: 1\n"));
    assert_eq!(
        plan.files[1].content,
        "enabled: true\nwebroot: \"web\"\nport: 8101\nlog: {\n  file: \"data/logs/webserver.log\"\n  append: false\n  format: \"%1$s \\\"%3$s %4$s %5$s\\\" %6$s %7$s\"\n}\n"
    );
    assert!(plan.files[4].content.starts_with("world: \"C:/saves/My World\"\ndimension: \"minecraft:overworld\"\n"));
    assert!(plan.files[5].content.starts_with("world: \"C:/saves/My World/DIM-1\"\n"));
}

#[test]
fn core_conf_clamps_threads() {
    let plan = prepare_job_directory("/w", 8100, 100, false, true, false, true);
    assert_eq!(plan.files.len(), 5);
    assert_eq!(
        plan.files[0].content,
        "accept-download: true\ndata: \"data\"\nrender-thread-count: 64\nscan-for-mod-resources: true\nmetrics: false\nlog: {\n  file: \"data/logs/bluemap-debug.log\"\n  append: false\n}\n"
    );
    let end_only = prepare_job_directory("/w", 8100, 3, false, true, true, true);
    assert_eq!(end_only.files[5].path, "config/maps/world_the_end.conf");
    assert!(end_only.files[5].content.starts_with("world: \"/w/DIM1\"\ndimension: \"minecraft:the_end\"\n"));
    assert!(end_only.files[0].content.contains("render-thread-count: 3\n"));
}

#[test]
fn customizations_need_a_repository_root() {
    assert_eq!(copy_optional_customizations(true), vec!["css".to_string(), "js".to_string()]);
    assert!(copy_optional_customizations(false).is_empty());
}

#[test]
fn plan_names_do_not_depend_on_the_world() {
    let a = prepare_job_directory("/saves/A", 8100, 2, true, true, true, true);
    let b = prepare_job_directory(r"D:\other\B", 8100, 2, true, true, true, true);
    assert_eq!(a.directories, b.directories);
    let pa: Vec<&str> = a.files.iter().map(|f| f.path.as_str()).collect();
    let pb: Vec<&str> = b.files.iter().map(|f| f.path.as_str()).collect();
    assert_eq!(pa, pb);
    assert!(pa.iter().all(|p| p.starts_with("config/")));
    assert_ne!(a.files[4].content, b.files[4].content);
}

#[test]
fn escaped_text_reads_back() {
    let original = r#"a\"b\\c"#;
    let escaped = hocon_escape(original);
    let mut decoded = String::new();
    let mut chars = escaped.chars();
    while let Some(c) = chars.next() {
        if c == '\\' {
            decoded.push(chars.next().unwrap());
        } else {
            decoded.push(c);
        }
    }
    assert_eq!(decoded, original);
}

#[test]
fn escaped_quotes_follow_odd_backslash_runs() {
    let escaped: Vec<char> = hocon_escape(r#"\"a\\"b\"#).chars().collect();
    let run_before = |i: usize| escaped[..i].iter().rev().take_while(|c| **c == '\\').count();
    for (i, c) in escaped.iter().enumerate() {
        if *c == '"' {
            assert_eq!(run_before(i) % 2, 1);
        }
    }
    assert_eq!(run_before(escaped.len()) % 2, 0);
}
