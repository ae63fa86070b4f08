use hirai::watcher::{classify_watch_root, event_for_change, ChangeKind, RenameMode, WatchRoot};

fn op_of(kind: ChangeKind, exists_after: bool) -> Option<String> {
    event_for_change(&vec!["/w/f".to_string(), "/w/g".to_string()], kind, exists_after).map(|e| {
        assert_eq!(e.path, "/w/f");
        e.op
    })
}

#[test]
fn change_kinds_map_to_operations() {
    for exists in [false, true] {
        assert_eq!(op_of(ChangeKind::Create, exists).as_deref(), Some("CREATE"));
        assert_eq!(op_of(ChangeKind::ModifyData, exists).as_deref(), Some("WRITE"));
        assert_eq!(op_of(ChangeKind::ModifyAny, exists).as_deref(), Some("WRITE"));
        assert_eq!(op_of(ChangeKind::ModifyMetadata, exists).as_deref(), Some("WRITE"));
        assert_eq!(op_of(ChangeKind::ModifyOther, exists).as_deref(), Some("WRITE"));
        assert_eq!(op_of(ChangeKind::Remove, exists).as_deref(), Some("REMOVE"));
        assert_eq!(op_of(ChangeKind::Any, exists), None);
        assert_eq!(op_of(ChangeKind::Access, exists), None);
        assert_eq!(op_of(ChangeKind::Other, exists), None);
    }
}

#[test]
fn renames_become_create_remove_or_rename() {
    for exists in [false, true] {
        assert_eq!(op_of(ChangeKind::ModifyName(RenameMode::To), exists).as_deref(), Some("CREATE"));
        assert_eq!(op_of(ChangeKind::ModifyName(RenameMode::From), exists).as_deref(), Some("REMOVE"));
        assert_eq!(op_of(ChangeKind::ModifyName(RenameMode::Both), exists).as_deref(), Some("RENAME"));
    }
    assert_eq!(op_of(ChangeKind::ModifyName(RenameMode::Any), true).as_deref(), Some("CREATE"));
    assert_eq!(op_of(ChangeKind::ModifyName(RenameMode::Any), false).as_deref(), Some("REMOVE"));
    assert_eq!(op_of(ChangeKind::ModifyName(RenameMode::Other), true).as_deref(), Some("CREATE"));
    assert_eq!(op_of(ChangeKind::ModifyName(RenameMode::Other), false).as_deref(), Some("REMOVE"));
}

#[test]
fn change_without_paths_gives_no_event() {
    assert!(event_for_change(&vec![], ChangeKind::Create, true).is_none());
}

#[test]
fn every_event_has_a_known_operation() {
    let modes = [RenameMode::Any, RenameMode::To, RenameMode::From, RenameMode::Both, RenameMode::Other];
    let mut kinds = vec![
        ChangeKind::Any,
        ChangeKind::Access,
        ChangeKind::Create,
        ChangeKind::ModifyAny,
        ChangeKind::ModifyData,
        ChangeKind::ModifyMetadata,
        ChangeKind::ModifyOther,
        ChangeKind::Remove,
        ChangeKind::Other,
    ];
    kinds.extend(modes.iter().map(|m| ChangeKind::ModifyName(*m)));
    for k in kinds {
        for exists in [false, true] {
            if let Some(op) = op_of(k, exists) {
                assert!(["CREATE", "WRITE", "REMOVE", "RENAME"].contains(&op.as_str()));
            }
        }
    }
}

#[test]
fn watch_roots() {
    assert_eq!(classify_watch_root(false, false), WatchRoot::SkipMissing);
    assert_eq!(classify_watch_root(true, false), WatchRoot::SkipNotDirectory);
    assert_eq!(classify_watch_root(true, true), WatchRoot::WatchRecursive);
}
