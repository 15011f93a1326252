//! Initialization of one candidate data directory.
//!
//! Given a directory, the initializer ensures it exists and contains the
//! history document, creating the file with an empty-array starter when it
//! is missing. It is a step machine: the caller performs each filesystem
//! action and reports the outcome. If the directory step fails, no file
//! write is ever requested — the machine moves straight to `Failed`.

use vstd::prelude::*;

use crate::path::FsPath;

verus! {

/// The starter content of a fresh history document: the UTF-8 text of the
/// empty JSON array.
pub open spec fn starter_bytes_spec() -> Seq<u8> {
    seq!['[' as u8, ']' as u8]
}

/// The starter bytes as a vector.
pub fn starter_document_bytes() -> (r: Vec<u8>)
    ensures
        r@ == starter_bytes_spec(),
{
    let mut v: Vec<u8> = Vec::new();
    v.push('[' as u8);
    v.push(']' as u8);
    proof {
        assert(v@ =~= starter_bytes_spec());
    }
    v
}

#[derive(Clone, Copy)]
pub enum InitPhase {
    AwaitDirectory,
    AwaitFileCheck,
    AwaitStarter,
    Complete,
    Failed,
}

/// What the initializer asks the caller to do next.
pub enum InitAction {
    /// Create the directory and any missing parents (a no-op when present).
    EnsureDirectory { directory: FsPath },
    /// Report whether the history document file exists.
    CheckDocumentFile { file: FsPath },
    /// Create the file with the starter content.
    WriteStarterDocument { file: FsPath, content: Vec<u8> },
    /// The directory is ready: it exists and holds the document file.
    Ready,
    /// The directory cannot be used.
    Failed { reason: String },
}

pub enum InitEvent {
    DirectoryReady,
    DirectoryFailed { reason: String },
    FileExists { exists: bool },
    StarterWritten,
    StarterFailed { reason: String },
}

pub enum InitActionModel {
    EnsureDirectory { directory: Seq<Seq<char>> },
    CheckDocumentFile { file: Seq<Seq<char>> },
    WriteStarterDocument { file: Seq<Seq<char>>, content: Seq<u8> },
    Ready,
    Failed,
}

pub enum InitEventModel {
    DirectoryReady,
    DirectoryFailed,
    FileExists { exists: bool },
    StarterWritten,
    StarterFailed,
}

impl InitAction {
    pub open spec fn model(&self) -> InitActionModel {
        match self {
            InitAction::EnsureDirectory { directory } => InitActionModel::EnsureDirectory {
                directory: directory@,
            },
            InitAction::CheckDocumentFile { file } => InitActionModel::CheckDocumentFile {
                file: file@,
            },
            InitAction::WriteStarterDocument { file, content } => {
                InitActionModel::WriteStarterDocument { file: file@, content: content@ }
            },
            InitAction::Ready => InitActionModel::Ready,
            InitAction::Failed { .. } => InitActionModel::Failed,
        }
    }
}

impl InitEvent {
    pub open spec fn model(&self) -> InitEventModel {
        match self {
            InitEvent::DirectoryReady => InitEventModel::DirectoryReady,
            InitEvent::DirectoryFailed { .. } => InitEventModel::DirectoryFailed,
            InitEvent::FileExists { exists } => InitEventModel::FileExists { exists: *exists },
            InitEvent::StarterWritten => InitEventModel::StarterWritten,
            InitEvent::StarterFailed { .. } => InitEventModel::StarterFailed,
        }
    }
}

/// The machine's one-step meaning: the next phase and the action it emits.
/// An event that does not answer the pending action fails the attempt.
pub open spec fn spec_init_step(
    directory: Seq<Seq<char>>,
    phase: InitPhase,
    event: InitEventModel,
) -> (InitPhase, InitActionModel) {
    match (phase, event) {
        (InitPhase::AwaitDirectory, InitEventModel::DirectoryReady) => (
            InitPhase::AwaitFileCheck,
            InitActionModel::CheckDocumentFile { file: directory.push("draw_history.json"@) },
        ),
        (InitPhase::AwaitDirectory, InitEventModel::DirectoryFailed) => (
            InitPhase::Failed,
            InitActionModel::Failed,
        ),
        (InitPhase::AwaitFileCheck, InitEventModel::FileExists { exists }) => {
            if exists {
                (InitPhase::Complete, InitActionModel::Ready)
            } else {
                (
                    InitPhase::AwaitStarter,
                    InitActionModel::WriteStarterDocument {
                        file: directory.push("draw_history.json"@),
                        content: starter_bytes_spec(),
                    },
                )
            }
        },
        (InitPhase::AwaitStarter, InitEventModel::StarterWritten) => (
            InitPhase::Complete,
            InitActionModel::Ready,
        ),
        (InitPhase::AwaitStarter, InitEventModel::StarterFailed) => (
            InitPhase::Failed,
            InitActionModel::Failed,
        ),
        _ => (InitPhase::Failed, InitActionModel::Failed),
    }
}

/// The initializer never partially succeeds silently: a failed directory
/// step finishes the attempt, and from a finished attempt no further event
/// can ever make it ask for the document file to be written.
pub proof fn lemma_no_starter_after_directory_failure(directory: Seq<Seq<char>>)
    ensures
        spec_init_step(directory, InitPhase::AwaitDirectory, InitEventModel::DirectoryFailed).0
            is Failed,
        spec_init_step(directory, InitPhase::AwaitDirectory, InitEventModel::DirectoryFailed).1
            is Failed,
        forall|e: InitEventModel|
            {
                let step = #[trigger] spec_init_step(directory, InitPhase::Failed, e);
                step.0 is Failed && step.1 is Failed
            },
{
}

/// The initializer for one directory.
pub struct DirectoryInitializer {
    pub directory: FsPath,
    pub phase: InitPhase,
}

impl DirectoryInitializer {
    /// Starts initializing the given directory; the first action is to
    /// ensure the directory itself exists.
    pub fn begin(directory: FsPath) -> (r: (DirectoryInitializer, InitAction))
        ensures
            r.0.phase is AwaitDirectory,
            r.0.directory@ == directory@,
            r.1.model() == (InitActionModel::EnsureDirectory { directory: directory@ }),
    {
        let dup = directory.duplicate();
        (
            DirectoryInitializer { directory, phase: InitPhase::AwaitDirectory },
            InitAction::EnsureDirectory { directory: dup },
        )
    }

    /// Feeds back the outcome of the most recently requested action.
    pub fn step(&mut self, event: InitEvent) -> (r: InitAction)
        ensures
            final(self).directory@ == old(self).directory@,
            (final(self).phase, r.model()) == spec_init_step(
                old(self).directory@,
                old(self).phase,
                event.model(),
            ),
    {
        match (self.phase, event) {
            (InitPhase::AwaitDirectory, InitEvent::DirectoryReady) => {
                self.phase = InitPhase::AwaitFileCheck;
                InitAction::CheckDocumentFile { file: self.directory.join("draw_history.json") }
            },
            (InitPhase::AwaitDirectory, InitEvent::DirectoryFailed { reason }) => {
                self.phase = InitPhase::Failed;
                InitAction::Failed { reason }
            },
            (InitPhase::AwaitFileCheck, InitEvent::FileExists { exists }) => {
                if exists {
                    self.phase = InitPhase::Complete;
                    InitAction::Ready
                } else {
                    self.phase = InitPhase::AwaitStarter;
                    InitAction::WriteStarterDocument {
                        file: self.directory.join("draw_history.json"),
                        content: starter_document_bytes(),
                    }
                }
            },
            (InitPhase::AwaitStarter, InitEvent::StarterWritten) => {
                self.phase = InitPhase::Complete;
                InitAction::Ready
            },
            (InitPhase::AwaitStarter, InitEvent::StarterFailed { reason }) => {
                self.phase = InitPhase::Failed;
                InitAction::Failed { reason }
            },
            (_, _) => {
                self.phase = InitPhase::Failed;
                InitAction::Failed { reason: "unexpected initializer event".to_owned() }
            },
        }
    }
}

} // verus!
