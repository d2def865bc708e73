use bluemap_renderer::world::{inspect_world_path, DirTally, EntryKind};

#[test]
fn complete_world_has_no_warnings() {
    let r = inspect_world_path(
        "/saves/World".to_string(),
        Some("World".to_string()),
        true,
        true,
        true,
        Ok((1000, 4)),
    )
    .unwrap();
    assert!(r.valid);
    assert_eq!(r.world_name, "World");
    assert_eq!(r.size_bytes, 1000);
    assert_eq!(r.file_count, 4);
    assert_eq!(r.estimated_required_bytes, 1000 + 5 * 1024 * 1024 * 1024);
    assert!(r.warnings.is_empty());
}

#[test]
fn missing_parts_give_warnings_in_order() {
    let r = inspect_world_path("/".to_string(), None, false, false, false, Ok((u64::MAX - 1, 0))).unwrap();
    assert!(!r.valid);
    assert_eq!(r.world_name, "world");
    assert_eq!(r.estimated_required_bytes, u64::MAX);
    assert_eq!(
        r.warnings,
        vec![
            "这个目录缺少 level.dat，BlueMap 可能无法识别为 Java 世界。".to_string(),
            "未发现 DIM-1，下界渲染会自动关闭。".to_string(),
            "未发现 DIM1，末地渲染会自动关闭。".to_string(),
        ]
    );
}

#[test]
fn counting_errors_are_passed_on() {
    let r = inspect_world_path("/x".to_string(), None, true, true, true, Err("denied".to_string()));
    assert_eq!(r.err(), Some("denied".to_string()));
}

#[test]
fn dir_tally_counts_files_only() {
    let mut t = DirTally::new();
    assert!(t.record_entry(&EntryKind::Directory));
    assert!(!t.record_entry(&EntryKind::File { len: 10 }));
    assert!(!t.record_entry(&EntryKind::Other));
    assert!(!t.record_entry(&EntryKind::File { len: u64::MAX }));
    assert_eq!(t.file_count, 2);
    assert_eq!(t.size_bytes, u64::MAX);
}
