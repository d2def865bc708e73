use bluemap_renderer::version::{java_major, parse_java_version};

#[test]
fn java_major_reads_modern_versions() {
    assert_eq!(java_major("21.0.2"), Some(21));
    assert_eq!(java_major("17"), Some(17));
    assert_eq!(java_major("22-ea"), None);
}

#[test]
fn java_major_reads_legacy_versions() {
    assert_eq!(java_major("1.8.0_292"), Some(8));
    assert_eq!(java_major("1.8"), Some(8));
    assert_eq!(java_major("1"), None);
    assert_eq!(java_major("1."), None);
    assert_eq!(java_major("1.x"), None);
}

#[test]
fn java_major_rejects_garbage() {
    assert_eq!(java_major(""), None);
    assert_eq!(java_major("abc"), None);
    assert_eq!(java_major(".8"), None);
}

#[test]
fn parse_java_version_reads_openjdk_output() {
    let text = "openjdk version \"21.0.2\" 2024-01-16\nOpenJDK Runtime Environment (build 21.0.2+13-58)\n";
    assert_eq!(parse_java_version(text).as_deref(), Some("21.0.2"));
    let legacy = "java version \"1.8.0_292\"\nJava(TM) SE Runtime Environment";
    assert_eq!(parse_java_version(legacy).as_deref(), Some("1.8.0_292"));
}

#[test]
fn parse_java_version_needs_a_quoted_digit() {
    assert_eq!(parse_java_version("no java here"), None);
    assert_eq!(parse_java_version("\"abc\" \"17\""), Some("17".to_string()));
    assert_eq!(parse_java_version("\"17"), None);
}
