//! Reads and crash-safe writes of the history document.
//!
//! A write is planned first: the document must be a JSON array (anything
//! else is rejected before any disk access) and is encoded to pretty-printed
//! bytes. The write itself is a step machine enforcing the crash-safe
//! replace protocol: write the bytes to a temporary sibling and make them
//! durable, then back up the current file (best-effort), remove it, and
//! rename the temporary file into place. The real file is never asked to be
//! touched before the temporary copy is durable, so an interruption leaves
//! the previous document intact under its real name.

use vstd::prelude::*;

use crate::candidates::opt_stored_view;
use crate::doc::{interpret_history, is_json_array, json_parsed, json_pretty};
use crate::error::StorageError;
use crate::locator::{ErrorModel, ResolvedLocation};
use crate::path::FsPath;

verus! {

/// A validated, encoded write, with every path it will touch.
#[derive(Debug)]
pub struct WritePlan {
    pub directory: FsPath,
    pub document_bytes: Vec<u8>,
    pub history_path: FsPath,
    pub backup_path: FsPath,
    pub temp_path: FsPath,
}

impl WritePlan {
    /// The plan's paths are the three well-known file names inside `dir`.
    pub open spec fn wf_for(&self, dir: Seq<Seq<char>>) -> bool {
        &&& self.directory@ == dir
        &&& self.history_path@ == dir.push("draw_history.json"@)
        &&& self.backup_path@ == dir.push("draw_history.bak"@)
        &&& self.temp_path@ == dir.push("draw_history.json.tmp"@)
    }
}

/// Validates and encodes a document for writing. A document that is not a
/// JSON array — or that `serde_json` cannot encode — is rejected before any
/// disk access, with `InvalidDocumentShape`.
pub fn plan_document_write(dir: &FsPath, document: &serde_json::Value) -> (r: Result<
    WritePlan,
    StorageError,
>)
    ensures
        r is Ok <==> (is_json_array(*document) && json_pretty(*document) is Some),
        r matches Ok(plan) ==> plan.wf_for(dir@) && Some(plan.document_bytes@) == json_pretty(
            *document,
        ),
        r matches Err(e) ==> e is InvalidDocumentShape,
{
    if !document.is_array() {
        return Err(StorageError::InvalidDocumentShape);
    }
    match crate::doc::encode_json_pretty(document) {
        None => Err(StorageError::InvalidDocumentShape),
        Some(bytes) => Ok(
            WritePlan {
                directory: dir.duplicate(),
                document_bytes: bytes,
                history_path: dir.join("draw_history.json"),
                backup_path: dir.join("draw_history.bak"),
                temp_path: dir.join("draw_history.json.tmp"),
            },
        ),
    }
}

#[derive(Clone, Copy)]
pub enum WritePhase {
    AwaitTempWrite,
    AwaitExistsCheck,
    AwaitBackupCopy,
    AwaitRemove,
    AwaitRename,
    Complete,
    Failed,
}

/// What a completed write reports back.
pub struct WriteReceipt {
    pub data_dir: FsPath,
    pub backup_path: Option<FsPath>,
    pub using_fallback: bool,
}

/// What the write flow asks the caller to do next.
pub enum WriteAction {
    /// Write the planned bytes to the temporary file, flush and sync it.
    WriteTempFile { file: FsPath },
    /// Report whether the current document file exists.
    CheckHistoryExists { file: FsPath },
    /// Copy the current document to the backup file (best-effort).
    CopyHistoryToBackup { from: FsPath, to: FsPath },
    /// Remove the current document file (best-effort).
    RemoveHistory { file: FsPath },
    /// Atomically rename the temporary file to the document's real name.
    RenameTempIntoPlace { from: FsPath, to: FsPath },
    /// The write is complete.
    Done { receipt: WriteReceipt },
    /// The write failed; the previous document, if any, is still in place
    /// unless a removal was already requested.
    Fail { error: StorageError },
}

pub enum WriteEvent {
    TempWritten,
    TempWriteFailed { reason: String },
    HistoryExists { exists: bool },
    BackupCopied { ok: bool },
    HistoryRemoved { ok: bool },
    Renamed,
    RenameFailed { reason: String },
}

pub struct ReceiptModel {
    pub data_dir: Seq<Seq<char>>,
    pub backup_path: Option<Seq<Seq<char>>>,
    pub using_fallback: bool,
}

pub enum WriteActionModel {
    WriteTempFile { file: Seq<Seq<char>> },
    CheckHistoryExists { file: Seq<Seq<char>> },
    CopyHistoryToBackup { from: Seq<Seq<char>>, to: Seq<Seq<char>> },
    RemoveHistory { file: Seq<Seq<char>> },
    RenameTempIntoPlace { from: Seq<Seq<char>>, to: Seq<Seq<char>> },
    Done { receipt: ReceiptModel },
    Fail { error: ErrorModel },
}

pub enum WriteEventModel {
    TempWritten,
    TempWriteFailed,
    HistoryExists { exists: bool },
    BackupCopied { ok: bool },
    HistoryRemoved { ok: bool },
    Renamed,
    RenameFailed,
}

pub struct WriteModel {
    pub directory: Seq<Seq<char>>,
    pub history: Seq<Seq<char>>,
    pub backup: Seq<Seq<char>>,
    pub temp: Seq<Seq<char>>,
    pub using_fallback: bool,
    pub backup_written: bool,
    pub phase: WritePhase,
}

impl WriteReceipt {
    pub open spec fn model(&self) -> ReceiptModel {
        ReceiptModel {
            data_dir: self.data_dir@,
            backup_path: opt_stored_view(self.backup_path),
            using_fallback: self.using_fallback,
        }
    }
}

impl WriteAction {
    pub open spec fn model(&self) -> WriteActionModel {
        match self {
            WriteAction::WriteTempFile { file } => WriteActionModel::WriteTempFile { file: file@ },
            WriteAction::CheckHistoryExists { file } => WriteActionModel::CheckHistoryExists {
                file: file@,
            },
            WriteAction::CopyHistoryToBackup { from, to } => WriteActionModel::CopyHistoryToBackup {
                from: from@,
                to: to@,
            },
            WriteAction::RemoveHistory { file } => WriteActionModel::RemoveHistory { file: file@ },
            WriteAction::RenameTempIntoPlace { from, to } => {
                WriteActionModel::RenameTempIntoPlace { from: from@, to: to@ }
            },
            WriteAction::Done { receipt } => WriteActionModel::Done { receipt: receipt.model() },
            WriteAction::Fail { error } => WriteActionModel::Fail {
                error: crate::locator::error_model(*error),
            },
        }
    }
}

impl WriteEvent {
    pub open spec fn model(&self) -> WriteEventModel {
        match self {
            WriteEvent::TempWritten => WriteEventModel::TempWritten,
            WriteEvent::TempWriteFailed { .. } => WriteEventModel::TempWriteFailed,
            WriteEvent::HistoryExists { exists } => WriteEventModel::HistoryExists {
                exists: *exists,
            },
            WriteEvent::BackupCopied { ok } => WriteEventModel::BackupCopied { ok: *ok },
            WriteEvent::HistoryRemoved { ok } => WriteEventModel::HistoryRemoved { ok: *ok },
            WriteEvent::Renamed => WriteEventModel::Renamed,
            WriteEvent::RenameFailed { .. } => WriteEventModel::RenameFailed,
        }
    }
}

/// The write flow's one-step meaning. An event that does not answer the
/// pending action fails the write.
pub open spec fn spec_write_step(m: WriteModel, event: WriteEventModel) -> (WriteModel,
    WriteActionModel) {
    match (m.phase, event) {
        (WritePhase::AwaitTempWrite, WriteEventModel::TempWritten) => (
            WriteModel { phase: WritePhase::AwaitExistsCheck, ..m },
            WriteActionModel::CheckHistoryExists { file: m.history },
        ),
        (WritePhase::AwaitTempWrite, WriteEventModel::TempWriteFailed) => (
            WriteModel { phase: WritePhase::Failed, ..m },
            WriteActionModel::Fail { error: ErrorModel::Io },
        ),
        (WritePhase::AwaitExistsCheck, WriteEventModel::HistoryExists { exists }) => {
            if exists {
                (
                    WriteModel { phase: WritePhase::AwaitBackupCopy, ..m },
                    WriteActionModel::CopyHistoryToBackup { from: m.history, to: m.backup },
                )
            } else {
                (
                    WriteModel { phase: WritePhase::AwaitRename, ..m },
                    WriteActionModel::RenameTempIntoPlace { from: m.temp, to: m.history },
                )
            }
        },
        (WritePhase::AwaitBackupCopy, WriteEventModel::BackupCopied { ok }) => (
            WriteModel { phase: WritePhase::AwaitRemove, backup_written: ok, ..m },
            WriteActionModel::RemoveHistory { file: m.history },
        ),
        (WritePhase::AwaitRemove, WriteEventModel::HistoryRemoved { .. }) => (
            WriteModel { phase: WritePhase::AwaitRename, ..m },
            WriteActionModel::RenameTempIntoPlace { from: m.temp, to: m.history },
        ),
        (WritePhase::AwaitRename, WriteEventModel::Renamed) => (
            WriteModel { phase: WritePhase::Complete, ..m },
            WriteActionModel::Done {
                receipt: ReceiptModel {
                    data_dir: m.directory,
                    backup_path: if m.backup_written {
                        Some(m.backup)
                    } else {
                        None
                    },
                    using_fallback: m.using_fallback,
                },
            },
        ),
        (WritePhase::AwaitRename, WriteEventModel::RenameFailed) => (
            WriteModel { phase: WritePhase::Failed, ..m },
            WriteActionModel::Fail { error: ErrorModel::Io },
        ),
        (_, _) => (
            WriteModel { phase: WritePhase::Failed, ..m },
            WriteActionModel::Fail { error: ErrorModel::Io },
        ),
    }
}

/// One in-flight document write.
pub struct DocumentWrite {
    pub plan: WritePlan,
    pub using_fallback: bool,
    pub backup_written: bool,
    pub phase: WritePhase,
}

impl DocumentWrite {
    pub open spec fn model(&self) -> WriteModel {
        WriteModel {
            directory: self.plan.directory@,
            history: self.plan.history_path@,
            backup: self.plan.backup_path@,
            temp: self.plan.temp_path@,
            using_fallback: self.using_fallback,
            backup_written: self.backup_written,
            phase: self.phase,
        }
    }

    /// Starts the write; the first action is writing the temporary file.
    pub fn begin(plan: WritePlan, using_fallback: bool) -> (r: (DocumentWrite, WriteAction))
        ensures
            r.0.model() == (WriteModel {
                directory: plan.directory@,
                history: plan.history_path@,
                backup: plan.backup_path@,
                temp: plan.temp_path@,
                using_fallback,
                backup_written: false,
                phase: WritePhase::AwaitTempWrite,
            }),
            r.1.model() == (WriteActionModel::WriteTempFile { file: plan.temp_path@ }),
            r.0.plan.document_bytes@ == plan.document_bytes@,
    {
        let temp = plan.temp_path.duplicate();
        (
            DocumentWrite {
                plan,
                using_fallback,
                backup_written: false,
                phase: WritePhase::AwaitTempWrite,
            },
            WriteAction::WriteTempFile { file: temp },
        )
    }

    /// The bytes the temporary file must receive.
    pub fn document_bytes(&self) -> (r: &Vec<u8>)
        ensures
            r@ == self.plan.document_bytes@,
    {
        &self.plan.document_bytes
    }

    /// Feeds back the outcome of the most recently requested action.
    pub fn step(&mut self, event: WriteEvent) -> (r: WriteAction)
        ensures
            final(self).model() == spec_write_step(old(self).model(), event.model()).0,
            r.model() == spec_write_step(old(self).model(), event.model()).1,
            final(self).plan.document_bytes@ == old(self).plan.document_bytes@,
    {
        match (self.phase, event) {
            (WritePhase::AwaitTempWrite, WriteEvent::TempWritten) => {
                self.phase = WritePhase::AwaitExistsCheck;
                WriteAction::CheckHistoryExists { file: self.plan.history_path.duplicate() }
            },
            (WritePhase::AwaitTempWrite, WriteEvent::TempWriteFailed { reason }) => {
                self.phase = WritePhase::Failed;
                WriteAction::Fail { error: StorageError::IoFailure(reason) }
            },
            (WritePhase::AwaitExistsCheck, WriteEvent::HistoryExists { exists }) => {
                if exists {
                    self.phase = WritePhase::AwaitBackupCopy;
                    WriteAction::CopyHistoryToBackup {
                        from: self.plan.history_path.duplicate(),
                        to: self.plan.backup_path.duplicate(),
                    }
                } else {
                    self.phase = WritePhase::AwaitRename;
                    WriteAction::RenameTempIntoPlace {
                        from: self.plan.temp_path.duplicate(),
                        to: self.plan.history_path.duplicate(),
                    }
                }
            },
            (WritePhase::AwaitBackupCopy, WriteEvent::BackupCopied { ok }) => {
                self.phase = WritePhase::AwaitRemove;
                self.backup_written = ok;
                WriteAction::RemoveHistory { file: self.plan.history_path.duplicate() }
            },
            (WritePhase::AwaitRemove, WriteEvent::HistoryRemoved { .. }) => {
                self.phase = WritePhase::AwaitRename;
                WriteAction::RenameTempIntoPlace {
                    from: self.plan.temp_path.duplicate(),
                    to: self.plan.history_path.duplicate(),
                }
            },
            (WritePhase::AwaitRename, WriteEvent::Renamed) => {
                self.phase = WritePhase::Complete;
                let backup_path = if self.backup_written {
                    Some(self.plan.backup_path.duplicate())
                } else {
                    None
                };
                WriteAction::Done {
                    receipt: WriteReceipt {
                        data_dir: self.plan.directory.duplicate(),
                        backup_path,
                        using_fallback: self.using_fallback,
                    },
                }
            },
            (WritePhase::AwaitRename, WriteEvent::RenameFailed { reason }) => {
                self.phase = WritePhase::Failed;
                WriteAction::Fail { error: StorageError::IoFailure(reason) }
            },
            (_, _) => {
                self.phase = WritePhase::Failed;
                WriteAction::Fail {
                    error: StorageError::IoFailure("unexpected write event".to_owned()),
                }
            },
        }
    }
}

/// The actions a whole event sequence drives the write flow through.
pub open spec fn write_run_actions(m: WriteModel, events: Seq<WriteEventModel>) -> Seq<
    WriteActionModel,
>
    decreases events.len(),
{
    if events.len() == 0 {
        Seq::empty()
    } else {
        let step = spec_write_step(m, events[0]);
        seq![step.1] + write_run_actions(step.0, events.drop_first())
    }
}

/// Whether an action touches the document's real file name.
pub open spec fn touches_history(a: WriteActionModel) -> bool {
    ||| a is CopyHistoryToBackup
    ||| a is RemoveHistory
    ||| a is RenameTempIntoPlace
}

/// Until the temporary file is reported written and durable, the write flow
/// never asks for the current document file to be backed up, removed or
/// replaced: a run interrupted anywhere before that point leaves the
/// previous document intact and readable under its real name.
pub proof fn lemma_history_untouched_before_temp_durable(
    m: WriteModel,
    events: Seq<WriteEventModel>,
)
    requires
        m.phase is AwaitTempWrite || m.phase is Failed,
        forall|j: int| 0 <= j < events.len() ==> !((#[trigger] events[j]) is TempWritten),
    ensures
        forall|j: int|
            0 <= j < write_run_actions(m, events).len() ==> !touches_history(
                #[trigger] write_run_actions(m, events)[j],
            ),
    decreases events.len(),
{
    if events.len() > 0 {
        let step = spec_write_step(m, events[0]);
        let rest = events.drop_first();
        assert(forall|j: int| 0 <= j < rest.len() ==> !((#[trigger] rest[j]) is TempWritten));
        lemma_history_untouched_before_temp_durable(step.0, rest);
        let actions = write_run_actions(m, events);
        assert forall|j: int| 0 <= j < actions.len() implies !touches_history(
            #[trigger] actions[j],
        ) by {
            if j > 0 {
                assert(actions[j] == write_run_actions(step.0, rest)[j - 1]);
            }
        }
    }
}

/// On the successful replacement of an existing document, the flow asks for
/// the backup copy before it asks for the removal and the rename, and the
/// receipt reports the backup path exactly when the copy succeeded.
pub proof fn lemma_backup_precedes_replacement(m: WriteModel, copied: bool, removed: bool)
    requires
        m.phase is AwaitTempWrite,
    ensures
        ({
            let events = seq![
                WriteEventModel::TempWritten,
                WriteEventModel::HistoryExists { exists: true },
                WriteEventModel::BackupCopied { ok: copied },
                WriteEventModel::HistoryRemoved { ok: removed },
                WriteEventModel::Renamed,
            ];
            let actions = write_run_actions(m, events);
            &&& actions.len() == 5
            &&& actions[0] == (WriteActionModel::CheckHistoryExists { file: m.history })
            &&& actions[1] == (WriteActionModel::CopyHistoryToBackup {
                from: m.history,
                to: m.backup,
            })
            &&& actions[2] == (WriteActionModel::RemoveHistory { file: m.history })
            &&& actions[3] == (WriteActionModel::RenameTempIntoPlace {
                from: m.temp,
                to: m.history,
            })
            &&& actions[4] == (WriteActionModel::Done {
                receipt: ReceiptModel {
                    data_dir: m.directory,
                    backup_path: if copied {
                        Some(m.backup)
                    } else {
                        None
                    },
                    using_fallback: m.using_fallback,
                },
            })
        }),
{
    let events = seq![
        WriteEventModel::TempWritten,
        WriteEventModel::HistoryExists { exists: true },
        WriteEventModel::BackupCopied { ok: copied },
        WriteEventModel::HistoryRemoved { ok: removed },
        WriteEventModel::Renamed,
    ];
    let s1 = spec_write_step(m, events[0]);
    let e1 = events.drop_first();
    let s2 = spec_write_step(s1.0, e1[0]);
    let e2 = e1.drop_first();
    let s3 = spec_write_step(s2.0, e2[0]);
    let e3 = e2.drop_first();
    let s4 = spec_write_step(s3.0, e3[0]);
    let e4 = e3.drop_first();
    let s5 = spec_write_step(s4.0, e4[0]);
    let e5 = e4.drop_first();
    assert(e5.len() == 0);
    assert(write_run_actions(s5.0, e5) =~= Seq::<WriteActionModel>::empty());
    assert(write_run_actions(s4.0, e4) =~= seq![s5.1]);
    assert(write_run_actions(s3.0, e3) =~= seq![s4.1, s5.1]);
    assert(write_run_actions(s2.0, e2) =~= seq![s3.1, s4.1, s5.1]);
    assert(write_run_actions(s1.0, e1) =~= seq![s2.1, s3.1, s4.1, s5.1]);
    assert(write_run_actions(m, events) =~= seq![s1.1, s2.1, s3.1, s4.1, s5.1]);
}

/// What a document read returns to the caller.
pub struct ReadReceipt {
    pub history: serde_json::Value,
    pub data_dir: FsPath,
    pub using_fallback: bool,
    pub fallback_dir: Option<FsPath>,
}

/// Combines the resolved location with the file content the caller read (or
/// failed to read): the effective history plus the location metadata.
/// Reading never fails: missing or malformed content becomes the empty array.
pub fn conclude_read(resolved: &ResolvedLocation, content: Option<String>) -> (r: ReadReceipt)
    ensures
        r.data_dir@ == resolved.active_directory@,
        r.using_fallback == resolved.is_fallback,
        (r.fallback_dir is Some <==> resolved.original_candidate is Some),
        r.fallback_dir matches Some(d) ==> resolved.original_candidate matches Some(c) && d@ == c@,
        match content {
            Some(text) => {
                if json_parsed(text@) is Some {
                    Some(r.history) == json_parsed(text@)
                } else {
                    Some(r.history) == json_parsed("[]"@) && is_json_array(r.history)
                }
            },
            None => Some(r.history) == json_parsed("[]"@) && is_json_array(r.history),
        },
{
    let history = interpret_history(&content);
    let fallback_dir = match &resolved.original_candidate {
        Some(c) => Some(c.duplicate()),
        None => None,
    };
    ReadReceipt {
        history,
        data_dir: resolved.active_directory.duplicate(),
        using_fallback: resolved.is_fallback,
        fallback_dir,
    }
}

} // verus!
