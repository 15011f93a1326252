use std::collections::HashMap;

use drawlots_storage::doc::{empty_history_document, interpret_history};
use drawlots_storage::error::StorageError;
use drawlots_storage::init::{
    starter_document_bytes, DirectoryInitializer, InitAction, InitEvent,
};
use drawlots_storage::locator::ResolvedLocation;
use drawlots_storage::path::FsPath;
use drawlots_storage::store::{
    conclude_read, plan_document_write, DocumentWrite, WriteAction, WriteEvent, WritePlan,
};

fn path(segments: &[&str]) -> FsPath {
    FsPath::from_segments(segments.iter().map(|s| s.to_string()).collect())
}

fn sample_history() -> serde_json::Value {
    serde_json::Value::Array(vec![
        serde_json::Value::String("alice".to_string()),
        serde_json::Value::Number(serde_json::Number::from(7)),
        serde_json::Value::Bool(true),
    ])
}

#[test]
fn missing_content_reads_as_empty_array() {
    let value = interpret_history(&None);
    assert_eq!(value, serde_json::Value::Array(vec![]));
}

#[test]
fn malformed_content_reads_as_empty_array() {
    let truncated = Some("[\"alice\", ".to_string());
    assert_eq!(interpret_history(&truncated), serde_json::Value::Array(vec![]));
    let nonsense = Some("not json at all".to_string());
    assert_eq!(interpret_history(&nonsense), serde_json::Value::Array(vec![]));
}

#[test]
fn valid_content_reads_unchanged() {
    let value = interpret_history(&Some("[1, 2, 3]".to_string()));
    let expected = serde_json::Value::Array(vec![
        serde_json::Value::Number(serde_json::Number::from(1)),
        serde_json::Value::Number(serde_json::Number::from(2)),
        serde_json::Value::Number(serde_json::Number::from(3)),
    ]);
    assert_eq!(value, expected);
}

#[test]
fn empty_document_is_the_empty_array() {
    assert_eq!(empty_history_document(), serde_json::Value::Array(vec![]));
}

#[test]
fn starter_bytes_are_the_empty_array_text() {
    assert_eq!(starter_document_bytes(), b"[]".to_vec());
}

#[test]
fn write_then_read_returns_the_same_array() {
    let dir = path(&["proj", "data"]);
    let document = sample_history();
    let plan = plan_document_write(&dir, &document).expect("an array is accepted");
    let text = String::from_utf8(plan.document_bytes.clone()).expect("utf-8 output");
    let read_back = interpret_history(&Some(text));
    assert_eq!(read_back, document);
}

#[test]
fn non_array_documents_are_rejected() {
    let dir = path(&["proj", "data"]);
    let mut object = serde_json::Map::new();
    object.insert("name".to_string(), serde_json::Value::String("alice".to_string()));
    let error = plan_document_write(&dir, &serde_json::Value::Object(object))
        .expect_err("an object is rejected");
    assert!(matches!(error, StorageError::InvalidDocumentShape));
    assert_eq!(error.message(), "the document must be a JSON array");

    let error = plan_document_write(&dir, &serde_json::Value::String("alice".to_string()))
        .expect_err("a string is rejected");
    assert!(matches!(error, StorageError::InvalidDocumentShape));
}

#[test]
fn plan_targets_the_three_well_known_files() {
    let dir = path(&["proj", "data"]);
    let plan = plan_document_write(&dir, &sample_history()).expect("an array is accepted");
    assert_eq!(plan.history_path.display_string(), "/proj/data/draw_history.json");
    assert_eq!(plan.backup_path.display_string(), "/proj/data/draw_history.bak");
    assert_eq!(plan.temp_path.display_string(), "/proj/data/draw_history.json.tmp");
    assert_eq!(plan.directory.display_string(), "/proj/data");
}

#[test]
fn initializer_creates_missing_starter_file() {
    let (mut init, action) = DirectoryInitializer::begin(path(&["proj", "data"]));
    match action {
        InitAction::EnsureDirectory { directory } => {
            assert_eq!(directory.display_string(), "/proj/data");
        },
        _ => panic!("expected the directory to be ensured first"),
    }
    let action = init.step(InitEvent::DirectoryReady);
    match action {
        InitAction::CheckDocumentFile { file } => {
            assert_eq!(file.display_string(), "/proj/data/draw_history.json");
        },
        _ => panic!("expected the file check"),
    }
    let action = init.step(InitEvent::FileExists { exists: false });
    match action {
        InitAction::WriteStarterDocument { file, content } => {
            assert_eq!(file.display_string(), "/proj/data/draw_history.json");
            assert_eq!(content, b"[]".to_vec());
        },
        _ => panic!("expected the starter write"),
    }
    assert!(matches!(init.step(InitEvent::StarterWritten), InitAction::Ready));
}

#[test]
fn initializer_keeps_an_existing_file() {
    let (mut init, _) = DirectoryInitializer::begin(path(&["proj", "data"]));
    init.step(InitEvent::DirectoryReady);
    assert!(matches!(init.step(InitEvent::FileExists { exists: true }), InitAction::Ready));
}

#[test]
fn initializer_never_writes_after_directory_failure() {
    let (mut init, _) = DirectoryInitializer::begin(path(&["proj", "data"]));
    let action = init.step(InitEvent::DirectoryFailed { reason: "permission denied".to_string() });
    assert!(matches!(action, InitAction::Failed { .. }));
}

/// A tiny in-memory filesystem for exercising the write protocol.
struct ModelDisk {
    files: HashMap<String, Vec<u8>>,
}

impl ModelDisk {
    fn new() -> ModelDisk {
        ModelDisk { files: HashMap::new() }
    }

    /// Performs one requested action, returning the event to report back;
    /// `None` means the flow finished (`Done` or `Fail`).
    fn perform(&mut self, flow: &DocumentWrite, action: &WriteAction) -> Option<WriteEvent> {
        match action {
            WriteAction::WriteTempFile { file } => {
                self.files.insert(file.display_string(), flow.document_bytes().clone());
                Some(WriteEvent::TempWritten)
            },
            WriteAction::CheckHistoryExists { file } => Some(WriteEvent::HistoryExists {
                exists: self.files.contains_key(&file.display_string()),
            }),
            WriteAction::CopyHistoryToBackup { from, to } => {
                let copied = self.files.get(&from.display_string()).cloned();
                match copied {
                    Some(bytes) => {
                        self.files.insert(to.display_string(), bytes);
                        Some(WriteEvent::BackupCopied { ok: true })
                    },
                    None => Some(WriteEvent::BackupCopied { ok: false }),
                }
            },
            WriteAction::RemoveHistory { file } => {
                let removed = self.files.remove(&file.display_string()).is_some();
                Some(WriteEvent::HistoryRemoved { ok: removed })
            },
            WriteAction::RenameTempIntoPlace { from, to } => {
                match self.files.remove(&from.display_string()) {
                    Some(bytes) => {
                        self.files.insert(to.display_string(), bytes);
                        Some(WriteEvent::Renamed)
                    },
                    None => Some(WriteEvent::RenameFailed { reason: "missing".to_string() }),
                }
            },
            WriteAction::Done { .. } | WriteAction::Fail { .. } => None,
        }
    }
}

fn plan_for(dir: &FsPath, document: &serde_json::Value) -> WritePlan {
    plan_document_write(dir, document).expect("an array is accepted")
}

#[test]
fn second_write_backs_up_the_previous_document() {
    let dir = path(&["proj", "data"]);
    let mut disk = ModelDisk::new();

    // First write: no previous document, so no backup.
    let first = serde_json::Value::Array(vec![serde_json::Value::Bool(false)]);
    let (mut flow, mut action) = DocumentWrite::begin(plan_for(&dir, &first), false);
    while let Some(event) = disk.perform(&flow, &action) {
        action = flow.step(event);
    }
    let receipt = match action {
        WriteAction::Done { receipt } => receipt,
        _ => panic!("expected the first write to succeed"),
    };
    assert!(receipt.backup_path.is_none());
    let first_bytes = disk.files.get("/proj/data/draw_history.json").cloned().unwrap();

    // Second write: the previous bytes must land in the backup file.
    let second = sample_history();
    let (mut flow, mut action) = DocumentWrite::begin(plan_for(&dir, &second), false);
    while let Some(event) = disk.perform(&flow, &action) {
        action = flow.step(event);
    }
    let receipt = match action {
        WriteAction::Done { receipt } => receipt,
        _ => panic!("expected the second write to succeed"),
    };
    assert_eq!(
        receipt.backup_path.expect("a backup was written").display_string(),
        "/proj/data/draw_history.bak"
    );
    assert_eq!(disk.files.get("/proj/data/draw_history.bak"), Some(&first_bytes));
    assert!(!disk.files.contains_key("/proj/data/draw_history.json.tmp"));

    // And the visible document is the new content.
    let text = String::from_utf8(
        disk.files.get("/proj/data/draw_history.json").cloned().unwrap(),
    )
    .unwrap();
    assert_eq!(interpret_history(&Some(text)), second);
}

#[test]
fn interruption_before_rename_leaves_the_document_intact() {
    let dir = path(&["proj", "data"]);
    let mut disk = ModelDisk::new();
    let old_bytes = b"[\"previous\"]".to_vec();
    disk.files.insert("/proj/data/draw_history.json".to_string(), old_bytes.clone());

    let (flow, action) = DocumentWrite::begin(plan_for(&dir, &sample_history()), false);
    // Perform only the temporary-file write, then "crash": no further events.
    match &action {
        WriteAction::WriteTempFile { file } => {
            disk.files.insert(file.display_string(), flow.document_bytes().clone());
        },
        _ => panic!("the first action must target the temporary file"),
    }
    assert_eq!(disk.files.get("/proj/data/draw_history.json"), Some(&old_bytes));
    let text = String::from_utf8(old_bytes).unwrap();
    assert_eq!(
        interpret_history(&Some(text)),
        serde_json::Value::Array(vec![serde_json::Value::String("previous".to_string())])
    );
}

#[test]
fn failed_temp_write_fails_the_operation_without_touching_the_document() {
    let dir = path(&["proj", "data"]);
    let mut disk = ModelDisk::new();
    let old_bytes = b"[1]".to_vec();
    disk.files.insert("/proj/data/draw_history.json".to_string(), old_bytes.clone());

    let (mut flow, _) = DocumentWrite::begin(plan_for(&dir, &sample_history()), true);
    let action = flow.step(WriteEvent::TempWriteFailed { reason: "disk full".to_string() });
    match action {
        WriteAction::Fail { error } => {
            assert!(matches!(error, StorageError::IoFailure(_)));
            assert_eq!(error.message(), "I/O failure: disk full");
        },
        _ => panic!("expected the write to fail"),
    }
    assert_eq!(disk.files.get("/proj/data/draw_history.json"), Some(&old_bytes));
}

#[test]
fn read_receipt_carries_location_metadata() {
    let resolved = ResolvedLocation {
        active_directory: path(&["sys", "data"]),
        is_fallback: true,
        original_candidate: Some(path(&["proj", "data"])),
        advisory_message: None,
    };
    let receipt = conclude_read(&resolved, Some("[null]".to_string()));
    assert_eq!(receipt.data_dir.display_string(), "/sys/data");
    assert!(receipt.using_fallback);
    assert_eq!(
        receipt.fallback_dir.expect("the original candidate").display_string(),
        "/proj/data"
    );
    assert_eq!(receipt.history, serde_json::Value::Array(vec![serde_json::Value::Null]));

    let lenient = conclude_read(&resolved, None);
    assert_eq!(lenient.history, serde_json::Value::Array(vec![]));
}
