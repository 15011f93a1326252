use drawlots_storage::candidates::{
    collect_candidate_data_dirs, find_project_root, is_project_root, register_candidate,
    AncestorProbe, EnvironmentProbe,
};
use drawlots_storage::error::StorageError;
use drawlots_storage::locator::{LocateAction, PrepareOutcome, StorageLocator};
use drawlots_storage::path::FsPath;

fn path(segments: &[&str]) -> FsPath {
    FsPath::from_segments(segments.iter().map(|s| s.to_string()).collect())
}

fn probe(segments: &[&str], file: bool, dir: bool) -> AncestorProbe {
    AncestorProbe { path: path(segments), has_marker_file: file, has_marker_dir: dir }
}

#[test]
fn project_root_needs_both_markers() {
    assert!(is_project_root(&probe(&["proj"], true, true)));
    assert!(!is_project_root(&probe(&["proj"], true, false)));
    assert!(!is_project_root(&probe(&["proj"], false, true)));
    assert!(!is_project_root(&probe(&["proj"], false, false)));
}

#[test]
fn first_marked_ancestor_wins_preferring_cwd_walk() {
    let cwd_walk = vec![
        probe(&["proj", "scripts"], false, false),
        probe(&["proj"], true, true),
        probe(&[], false, false),
    ];
    let exe_walk = vec![probe(&["other"], true, true)];
    let root = find_project_root(&cwd_walk, &exe_walk).expect("a root");
    assert_eq!(root.display_string(), "/proj");

    let no_root = find_project_root(&vec![probe(&["a"], false, true)], &vec![]);
    assert!(no_root.is_none());
}

#[test]
fn register_candidate_rejects_duplicates_and_build_subtree() {
    let mut seen: Vec<FsPath> = Vec::new();
    let root = path(&["proj"]);

    let admitted = register_candidate(path(&["proj", "data"]), &mut seen, Some(&root));
    assert!(admitted.is_some());

    let duplicate = register_candidate(path(&["proj", "data"]), &mut seen, Some(&root));
    assert!(duplicate.is_none());

    let in_build_tree =
        register_candidate(path(&["proj", "src-tauri", "data"]), &mut seen, Some(&root));
    assert!(in_build_tree.is_none());
    assert_eq!(seen.len(), 1);
}

#[test]
fn overlapping_sources_yield_one_candidate() {
    // The detected project root and the working directory are the same
    // directory, and the executable sits in the build subtree: one candidate.
    let env = EnvironmentProbe {
        cwd: Some(path(&["proj"])),
        exe_dir: Some(path(&["proj", "src-tauri", "target"])),
        cwd_ancestors: vec![probe(&["proj"], true, true)],
        exe_ancestors: vec![],
    };
    let candidates = collect_candidate_data_dirs(&env);
    assert_eq!(candidates.len(), 1);
    assert_eq!(candidates[0].display_string(), "/proj/data");
}

#[test]
fn candidates_follow_precedence_order() {
    let env = EnvironmentProbe {
        cwd: Some(path(&["work"])),
        exe_dir: Some(path(&["opt", "app"])),
        cwd_ancestors: vec![probe(&["work"], false, false)],
        exe_ancestors: vec![probe(&["opt", "app"], false, false)],
    };
    let candidates = collect_candidate_data_dirs(&env);
    assert_eq!(candidates.len(), 2);
    assert_eq!(candidates[0].display_string(), "/opt/app/data");
    assert_eq!(candidates[1].display_string(), "/work/data");
}

#[test]
fn first_preparable_candidate_wins() {
    let mut locator = StorageLocator::new();
    let candidates = vec![path(&["a", "data"]), path(&["b", "data"])];

    let action = locator.resolve_begin(candidates);
    match action {
        LocateAction::Prepare { directory } => assert_eq!(directory.display_string(), "/a/data"),
        _ => panic!("expected a prepare request"),
    }

    let action = locator.resolve_outcome(PrepareOutcome::Failed {
        reason: "permission denied".to_string(),
    });
    match action {
        LocateAction::Prepare { directory } => assert_eq!(directory.display_string(), "/b/data"),
        _ => panic!("expected the next candidate"),
    }

    let action = locator.resolve_outcome(PrepareOutcome::Ready);
    match action {
        LocateAction::Done { resolved } => {
            assert_eq!(resolved.active_directory.display_string(), "/b/data");
            assert!(!resolved.is_fallback);
            assert!(resolved.original_candidate.is_none());
            assert!(resolved.advisory_message.is_none());
        },
        _ => panic!("expected a completed resolution"),
    }
}

#[test]
fn fallback_used_after_all_candidates_fail() {
    let mut locator = StorageLocator::new();
    let candidates = vec![path(&["a", "data"]), path(&["b", "data"])];

    locator.resolve_begin(candidates);
    locator.resolve_outcome(PrepareOutcome::Failed { reason: "read-only".to_string() });
    let action = locator.resolve_outcome(PrepareOutcome::Failed { reason: "read-only".to_string() });
    assert!(matches!(action, LocateAction::NeedFallbackBase));

    let action = locator.resolve_fallback_base(Some(path(&["home", "user", ".appdata"])));
    match action {
        LocateAction::Prepare { directory } => {
            assert_eq!(directory.display_string(), "/home/user/.appdata/data");
        },
        _ => panic!("expected the fallback directory to be prepared"),
    }

    let action = locator.resolve_outcome(PrepareOutcome::Ready);
    match action {
        LocateAction::Done { resolved } => {
            assert_eq!(resolved.active_directory.display_string(), "/home/user/.appdata/data");
            assert!(resolved.is_fallback);
            let original = resolved.original_candidate.expect("the first failed candidate");
            assert_eq!(original.display_string(), "/a/data");
            let advisory = resolved.advisory_message.expect("an advisory message");
            assert_eq!(
                advisory,
                "preferred directory /a/data was not writable: read-only; \
                 using system data directory /home/user/.appdata/data"
            );
        },
        _ => panic!("expected a completed fallback resolution"),
    }
}

#[test]
fn missing_fallback_base_is_fatal() {
    let mut locator = StorageLocator::new();
    locator.resolve_begin(vec![path(&["a", "data"])]);
    let action = locator.resolve_outcome(PrepareOutcome::Failed { reason: "full".to_string() });
    assert!(matches!(action, LocateAction::NeedFallbackBase));
    let action = locator.resolve_fallback_base(None);
    match action {
        LocateAction::Fail { error } => {
            assert!(matches!(error, StorageError::LocationUnavailable));
            assert_eq!(error.message(), "cannot determine an application data directory");
        },
        _ => panic!("expected a fatal failure"),
    }
}

#[test]
fn resolution_is_idempotent_within_a_process() {
    let mut locator = StorageLocator::new();
    locator.resolve_begin(vec![path(&["a", "data"])]);
    let first = locator.resolve_outcome(PrepareOutcome::Ready);
    let first_dir = match first {
        LocateAction::Done { resolved } => resolved.active_directory.display_string(),
        _ => panic!("expected a completed resolution"),
    };

    // Even with different (and otherwise preferable) candidates offered, a
    // later resolution answers from the cache.
    let again = locator.resolve_begin(vec![path(&["z", "data"])]);
    match again {
        LocateAction::Done { resolved } => {
            assert_eq!(resolved.active_directory.display_string(), first_dir);
            assert!(!resolved.is_fallback);
        },
        _ => panic!("expected the cached resolution"),
    }
}

#[test]
fn empty_candidate_list_escalates_immediately() {
    let mut locator = StorageLocator::new();
    let action = locator.resolve_begin(Vec::new());
    assert!(matches!(action, LocateAction::NeedFallbackBase));
    let action = locator.resolve_fallback_base(Some(path(&["sys"])));
    match action {
        LocateAction::Prepare { directory } => assert_eq!(directory.display_string(), "/sys/data"),
        _ => panic!("expected the fallback directory to be prepared"),
    }
    let action = locator.resolve_outcome(PrepareOutcome::Ready);
    match action {
        LocateAction::Done { resolved } => {
            assert!(resolved.is_fallback);
            // No candidate was ever attempted, so there is no diagnostic.
            assert!(resolved.original_candidate.is_none());
            assert!(resolved.advisory_message.is_none());
        },
        _ => panic!("expected a completed fallback resolution"),
    }
}
