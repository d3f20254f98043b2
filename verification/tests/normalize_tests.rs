use watchlog::normalize::{classify, file_name_of, normalize, RawKind};
use watchlog::record::ChangeType;

#[test]
fn metadata_only_yields_nothing() {
    let paths = vec!["/watch/a.txt".to_string(), "/watch/b.txt".to_string()];
    let records = normalize(RawKind::MetadataModify, &paths);
    assert!(records.is_empty());
}

#[test]
fn unclassified_kind_yields_nothing() {
    let paths = vec!["/watch/a.txt".to_string()];
    let records = normalize(RawKind::Other, &paths);
    assert!(records.is_empty());
}

#[test]
fn one_record_per_valid_path() {
    let paths = vec![
        "/watch/a.txt".to_string(),
        "/watch/sub/b.txt".to_string(),
        "c.txt".to_string(),
    ];
    let records = normalize(RawKind::Create, &paths);
    assert_eq!(records.len(), 3);
    for (k, rec) in records.iter().enumerate() {
        assert_eq!(rec.change_type, ChangeType::Create);
        assert_eq!(rec.path, paths[k]);
        assert_eq!(rec.id.chars().count(), 36);
    }
    assert_eq!(records[0].file_name, "a.txt");
    assert_eq!(records[1].file_name, "b.txt");
    assert_eq!(records[2].file_name, "c.txt");
    assert_ne!(records[0].id, records[1].id);
    assert_ne!(records[0].id, records[2].id);
    assert_ne!(records[1].id, records[2].id);
    let ts = records[0].timestamp;
    assert_eq!(records[1].timestamp, ts);
    assert_eq!(records[2].timestamp, ts);
}

#[test]
fn invalid_paths_are_skipped_silently() {
    let paths = vec![
        "".to_string(),
        "/watch/ok.txt".to_string(),
        "/watch/..".to_string(),
    ];
    let records = normalize(RawKind::Remove, &paths);
    assert_eq!(records.len(), 1);
    assert_eq!(records[0].change_type, ChangeType::Remove);
    assert_eq!(records[0].file_name, "ok.txt");
}

#[test]
fn rename_halves_and_atomic_rename() {
    let from = vec!["/watch/b.txt".to_string()];
    let to = vec!["/watch/c.txt".to_string()];
    let from_records = normalize(RawKind::RenameFrom, &from);
    let to_records = normalize(RawKind::RenameTo, &to);
    assert_eq!(from_records.len(), 1);
    assert_eq!(to_records.len(), 1);
    assert_eq!(from_records[0].change_type, ChangeType::RenameFrom);
    assert_eq!(to_records[0].change_type, ChangeType::RenameTo);
    assert_ne!(from_records[0].change_type, ChangeType::Renamed);
    assert_ne!(to_records[0].change_type, ChangeType::Renamed);

    let both = vec!["/watch/b.txt".to_string(), "/watch/c.txt".to_string()];
    let atomic = normalize(RawKind::RenameAny, &both);
    assert_eq!(atomic.len(), 2);
    assert_eq!(atomic[0].change_type, ChangeType::Renamed);
    assert_eq!(atomic[1].change_type, ChangeType::Renamed);
}

#[test]
fn classify_covers_every_kind() {
    assert_eq!(classify(RawKind::Create), Some(ChangeType::Create));
    assert_eq!(classify(RawKind::Remove), Some(ChangeType::Remove));
    assert_eq!(classify(RawKind::MetadataModify), None);
    assert_eq!(classify(RawKind::RenameFrom), Some(ChangeType::RenameFrom));
    assert_eq!(classify(RawKind::RenameTo), Some(ChangeType::RenameTo));
    assert_eq!(classify(RawKind::RenameAny), Some(ChangeType::Renamed));
    assert_eq!(classify(RawKind::OtherModify), Some(ChangeType::Modify));
    assert_eq!(classify(RawKind::Other), None);
}

#[test]
fn file_name_edge_cases() {
    assert_eq!(file_name_of(""), None);
    assert_eq!(file_name_of("/"), None);
    assert_eq!(file_name_of("."), None);
    assert_eq!(file_name_of(".."), None);
    assert_eq!(file_name_of("/watch/.."), None);
    assert_eq!(file_name_of("a.txt"), Some("a.txt".to_string()));
    assert_eq!(file_name_of("/x/y/z.log"), Some("z.log".to_string()));
    assert_eq!(file_name_of("rel/path/name"), Some("name".to_string()));
    // Trailing separators and trailing `.` segments are ignored, as the
    // platform's own path decomposition ignores them.
    assert_eq!(file_name_of("dir/"), Some("dir".to_string()));
    assert_eq!(file_name_of("a/."), Some("a".to_string()));
    assert_eq!(file_name_of("a/./"), Some("a".to_string()));
    assert_eq!(file_name_of("a//b"), Some("b".to_string()));
    assert_eq!(file_name_of("..."), Some("...".to_string()));
}

#[test]
fn change_type_labels() {
    assert_eq!(ChangeType::Create.label(), "create");
    assert_eq!(ChangeType::Modify.label(), "modify");
    assert_eq!(ChangeType::Remove.label(), "remove");
    assert_eq!(ChangeType::RenameFrom.label(), "rename_from");
    assert_eq!(ChangeType::RenameTo.label(), "rename_to");
    assert_eq!(ChangeType::Renamed.label(), "renamed");
}

#[test]
fn modify_content_yields_modify() {
    let paths = vec!["/watch/a.txt".to_string()];
    let records = normalize(RawKind::OtherModify, &paths);
    assert_eq!(records.len(), 1);
    assert_eq!(records[0].change_type, ChangeType::Modify);
}
