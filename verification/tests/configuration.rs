use tezedge_snapshots::configuration::{ContextType, SnapshotKind, SnapshotType, TypeNotFound};

#[test]
fn snapshot_type_reads_its_three_names() {
    assert_eq!(SnapshotType::from_str("archive"), Ok(SnapshotType::Archive));
    assert_eq!(SnapshotType::from_str("full"), Ok(SnapshotType::Full));
    assert_eq!(SnapshotType::from_str("all"), Ok(SnapshotType::All));
}

#[test]
fn snapshot_type_rejects_other_texts() {
    assert_eq!(SnapshotType::from_str(""), Err(TypeNotFound {}));
    assert_eq!(SnapshotType::from_str("Archive"), Err(TypeNotFound {}));
    assert_eq!(SnapshotType::from_str("archive "), Err(TypeNotFound {}));
    assert_eq!(SnapshotType::from_str("rolling"), Err(TypeNotFound {}));
}

#[test]
fn context_type_reads_its_two_names() {
    assert_eq!(ContextType::from_str("irmin"), Ok(ContextType::Irmin));
    assert_eq!(ContextType::from_str("tezedge"), Ok(ContextType::Tezedge));
}

#[test]
fn context_type_rejects_other_texts() {
    assert_eq!(ContextType::from_str(""), Err(TypeNotFound {}));
    assert_eq!(ContextType::from_str("IRMIN"), Err(TypeNotFound {}));
    assert_eq!(ContextType::from_str("archive"), Err(TypeNotFound {}));
}

#[test]
fn context_type_prints_its_name() {
    assert_eq!(ContextType::Irmin.to_string(), "irmin");
    assert_eq!(ContextType::Tezedge.to_string(), "tezedge");
}

#[test]
fn snapshot_kind_prints_its_name() {
    assert_eq!(SnapshotKind::Archive.to_string(), "archive");
    assert_eq!(SnapshotKind::Full.to_string(), "full");
}

#[test]
fn context_type_name_reads_back() {
    for kind in [ContextType::Irmin, ContextType::Tezedge] {
        assert_eq!(ContextType::from_str(&kind.to_string()), Ok(kind));
    }
}

#[test]
fn snapshot_type_says_what_it_includes() {
    assert!(SnapshotType::Archive.includes_archive());
    assert!(!SnapshotType::Archive.includes_full());
    assert!(!SnapshotType::Full.includes_archive());
    assert!(SnapshotType::Full.includes_full());
    assert!(SnapshotType::All.includes_archive());
    assert!(SnapshotType::All.includes_full());
}
