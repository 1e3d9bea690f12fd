//! The payload writer: stores one document in one uniquely named file.
//!
//! Writing touches the file system twice and may have to ask for the data
//! directory first. None of that happens here. The writer is a sequence of
//! steps: each step tells the driver what to do next, and the driver answers
//! with what came of it. Every failure ends the write; none is retried, and
//! none leaves the writer in any form but a `WriteOutcome`.

use vstd::prelude::*;
use vstd::string::*;
use crate::clock::now_millis;
use crate::config::{is_enabled, DebugLoggingConfig};
use crate::filename::{build_filename_at, filename_at};
use crate::json::{error_message, pretty_json, to_pretty_bytes};
use crate::location::{fallback_dir, resolve_output_dir, resolved_dir, OutputDir, OutputDirView};

verus! {

/// What to write: a document, the category that labels its file, and the
/// correlation id if there is one.
pub struct WriteJob {
    pub trace_id: Option<String>,
    pub prefix: String,
    pub payload: serde_json::Value,
}

/// The mathematical content of a `WriteJob`.
pub struct WriteJobView {
    pub trace_id: Option<Seq<char>>,
    pub prefix: Seq<char>,
    pub payload: serde_json::Value,
}

impl View for WriteJob {
    type V = WriteJobView;

    open spec fn view(&self) -> WriteJobView {
        WriteJobView {
            trace_id: self.trace_id.deep_view(),
            prefix: self.prefix@,
            payload: self.payload,
        }
    }
}

/// How a write ended. The strings are the messages of the failures.
pub enum WriteOutcome {
    /// Captures are switched off: nothing was done.
    Disabled,
    /// No directory is configured and the data directory is not available.
    NoOutputDir,
    /// The output directory could not be created.
    CreateDirFailed(String),
    /// The clock reading has no text form, so the file has no name.
    NoTimestamp,
    /// The document could not be serialized.
    SerializeFailed(String),
    /// The file could not be written.
    WriteFailed(String),
    /// The file is on disk.
    Written,
}

/// The mathematical content of a `WriteOutcome`.
pub enum WriteOutcomeView {
    Disabled,
    NoOutputDir,
    CreateDirFailed(Seq<char>),
    NoTimestamp,
    SerializeFailed(Seq<char>),
    WriteFailed(Seq<char>),
    Written,
}

impl View for WriteOutcome {
    type V = WriteOutcomeView;

    open spec fn view(&self) -> WriteOutcomeView {
        match self {
            WriteOutcome::Disabled => WriteOutcomeView::Disabled,
            WriteOutcome::NoOutputDir => WriteOutcomeView::NoOutputDir,
            WriteOutcome::CreateDirFailed(message) => WriteOutcomeView::CreateDirFailed(message@),
            WriteOutcome::NoTimestamp => WriteOutcomeView::NoTimestamp,
            WriteOutcome::SerializeFailed(message) => WriteOutcomeView::SerializeFailed(message@),
            WriteOutcome::WriteFailed(message) => WriteOutcomeView::WriteFailed(message@),
            WriteOutcome::Written => WriteOutcomeView::Written,
        }
    }
}

/// What the diagnostic sink is told of an outcome: a line for each failure,
/// nothing where captures are off or the file was written.
pub open spec fn warning_text(outcome: WriteOutcomeView) -> Option<Seq<char>> {
    match outcome {
        WriteOutcomeView::Disabled => None,
        WriteOutcomeView::NoOutputDir => Some(
            "[Debug-Log] Enabled but output_dir is not available."@,
        ),
        WriteOutcomeView::CreateDirFailed(message) => Some(
            "[Debug-Log] Failed to create output dir: "@ + message,
        ),
        WriteOutcomeView::NoTimestamp => Some(
            "[Debug-Log] Failed to name the file: clock reading out of range."@,
        ),
        WriteOutcomeView::SerializeFailed(message) => Some(
            "[Debug-Log] Failed to serialize payload: "@ + message,
        ),
        WriteOutcomeView::WriteFailed(message) => Some(
            "[Debug-Log] Failed to write file: "@ + message,
        ),
        WriteOutcomeView::Written => None,
    }
}

impl WriteOutcome {
    /// The line to hand to the diagnostic sink, if the outcome calls for one.
    pub fn warning(&self) -> (line: Option<String>)
        ensures
            line.deep_view() == warning_text(self@),
    {
        match self {
            WriteOutcome::Disabled => None,
            WriteOutcome::NoOutputDir => Some(
                String::from_str("[Debug-Log] Enabled but output_dir is not available."),
            ),
            WriteOutcome::CreateDirFailed(message) => Some(
                String::from_str("[Debug-Log] Failed to create output dir: ").concat(
                    message.as_str(),
                ),
            ),
            WriteOutcome::NoTimestamp => Some(
                String::from_str("[Debug-Log] Failed to name the file: clock reading out of range."),
            ),
            WriteOutcome::SerializeFailed(message) => Some(
                String::from_str("[Debug-Log] Failed to serialize payload: ").concat(
                    message.as_str(),
                ),
            ),
            WriteOutcome::WriteFailed(message) => Some(
                String::from_str("[Debug-Log] Failed to write file: ").concat(message.as_str()),
            ),
            WriteOutcome::Written => None,
        }
    }
}

/// What the driver has to do next.
pub enum WriteStep {
    /// Look the data directory up and answer with `WriteReply::DataDir`.
    ResolveDataDir { job: WriteJob },
    /// Create `dir` and every missing directory above it, taking an existing
    /// one as success, and answer with `WriteReply::Io`.
    CreateDir { dir: OutputDir, job: WriteJob },
    /// Write `contents` to the file `file_name` in `dir` in one operation,
    /// replacing a file of that name, and answer with `WriteReply::Io`.
    WriteFile { dir: OutputDir, file_name: String, contents: Vec<u8> },
    /// Nothing: the write has ended.
    Finished(WriteOutcome),
}

/// The mathematical content of a `WriteStep`.
pub enum WriteStepView {
    ResolveDataDir { job: WriteJobView },
    CreateDir { dir: OutputDirView, job: WriteJobView },
    WriteFile { dir: OutputDirView, file_name: Seq<char>, contents: Seq<u8> },
    Finished(WriteOutcomeView),
}

impl View for WriteStep {
    type V = WriteStepView;

    open spec fn view(&self) -> WriteStepView {
        match self {
            WriteStep::ResolveDataDir { job } => WriteStepView::ResolveDataDir { job: job@ },
            WriteStep::CreateDir { dir, job } => WriteStepView::CreateDir { dir: dir@, job: job@ },
            WriteStep::WriteFile { dir, file_name, contents } => WriteStepView::WriteFile {
                dir: dir@,
                file_name: file_name@,
                contents: contents@,
            },
            WriteStep::Finished(outcome) => WriteStepView::Finished(outcome@),
        }
    }
}

/// The driver's answer to a step.
pub enum WriteReply {
    /// The data directory, or `None` where the lookup failed.
    DataDir(Option<std::path::PathBuf>),
    /// The result of a file-system operation, with the error's message.
    Io(Result<(), String>),
}

/// The mathematical content of a `WriteReply`.
pub enum WriteReplyView {
    DataDir(Option<std::path::PathBuf>),
    Io(Result<(), Seq<char>>),
}

impl View for WriteReply {
    type V = WriteReplyView;

    open spec fn view(&self) -> WriteReplyView {
        match self {
            WriteReply::DataDir(answer) => WriteReplyView::DataDir(*answer),
            WriteReply::Io(Ok(())) => WriteReplyView::Io(Ok(())),
            WriteReply::Io(Err(message)) => WriteReplyView::Io(Err(message@)),
        }
    }
}

/// The first step of a write under the given settings.
pub open spec fn begun(
    enabled: bool,
    configured: Option<Seq<char>>,
    job: WriteJobView,
) -> WriteStepView {
    if !enabled {
        WriteStepView::Finished(WriteOutcomeView::Disabled)
    } else {
        match resolved_dir(configured, None) {
            Some(dir) => WriteStepView::CreateDir { dir, job },
            None => WriteStepView::ResolveDataDir { job },
        }
    }
}

/// The step that follows once the output directory exists, at clock reading
/// `millis`: the file gets its name, the document is serialized, and the two
/// go out to be written.
pub open spec fn prepared(dir: OutputDirView, job: WriteJobView, millis: int) -> WriteStepView {
    match filename_at(millis, job.prefix, job.trace_id) {
        None => WriteStepView::Finished(WriteOutcomeView::NoTimestamp),
        Some(file_name) => match pretty_json(job.payload) {
            Ok(contents) => WriteStepView::WriteFile { dir, file_name, contents },
            Err(message) => WriteStepView::Finished(WriteOutcomeView::SerializeFailed(message)),
        },
    }
}

/// Whether the answer `reply` to `step` makes the writer read the clock.
pub open spec fn reads_clock(step: WriteStepView, reply: WriteReplyView) -> bool {
    step is CreateDir && reply == WriteReplyView::Io(Ok(()))
}

/// The step that follows `step` on the answer `reply`, where a clock that is
/// read shows `millis`. An answer that does not fit the step changes nothing.
pub open spec fn advanced(step: WriteStepView, reply: WriteReplyView, millis: int) -> WriteStepView {
    match (step, reply) {
        (WriteStepView::ResolveDataDir { job }, WriteReplyView::DataDir(answer)) => {
            match resolved_dir(None, answer) {
                Some(dir) => WriteStepView::CreateDir { dir, job },
                None => WriteStepView::Finished(WriteOutcomeView::NoOutputDir),
            }
        },
        (WriteStepView::CreateDir { dir, job }, WriteReplyView::Io(Ok(_))) => prepared(
            dir,
            job,
            millis,
        ),
        (WriteStepView::CreateDir { .. }, WriteReplyView::Io(Err(message))) => {
            WriteStepView::Finished(WriteOutcomeView::CreateDirFailed(message))
        },
        (WriteStepView::WriteFile { .. }, WriteReplyView::Io(Ok(_))) => WriteStepView::Finished(
            WriteOutcomeView::Written,
        ),
        (WriteStepView::WriteFile { .. }, WriteReplyView::Io(Err(message))) => {
            WriteStepView::Finished(WriteOutcomeView::WriteFailed(message))
        },
        _ => step,
    }
}

/// Starts a write. With captures switched off the write is over at once, with
/// nothing done and nothing to report.
pub fn begin_write(cfg: &DebugLoggingConfig, job: WriteJob) -> (step: WriteStep)
    ensures
        step@ == begun(cfg.enabled, cfg.output_dir.deep_view(), job@),
{
    if !is_enabled(cfg) {
        return WriteStep::Finished(WriteOutcome::Disabled);
    }
    match resolve_output_dir(cfg, None) {
        Some(dir) => WriteStep::CreateDir { dir, job },
        None => WriteStep::ResolveDataDir { job },
    }
}

/// Names the file and serializes the document, once the output directory
/// exists and the clock has been read.
pub fn prepare_file(dir: OutputDir, job: WriteJob, millis: i64) -> (step: WriteStep)
    ensures
        step@ == prepared(dir@, job@, millis as int),
{
    let trace_id: Option<&str> = match &job.trace_id {
        Some(id) => Some(id.as_str()),
        None => None,
    };
    let file_name = match build_filename_at(millis, job.prefix.as_str(), trace_id) {
        Some(name) => name,
        None => {
            return WriteStep::Finished(WriteOutcome::NoTimestamp);
        },
    };
    match to_pretty_bytes(&job.payload) {
        Ok(contents) => WriteStep::WriteFile { dir, file_name, contents },
        Err(error) => WriteStep::Finished(WriteOutcome::SerializeFailed(error_message(&error))),
    }
}

/// Takes the driver's answer to a step and gives the next step, with the clock
/// reading `millis` for the one answer on which the writer needs the time.
pub fn advance_at(step: WriteStep, reply: WriteReply, millis: i64) -> (next: WriteStep)
    ensures
        next@ == advanced(step@, reply@, millis as int),
{
    match (step, reply) {
        (WriteStep::ResolveDataDir { job }, WriteReply::DataDir(answer)) => {
            match answer {
                Some(base) => WriteStep::CreateDir { dir: fallback_dir(base), job },
                None => WriteStep::Finished(WriteOutcome::NoOutputDir),
            }
        },
        (WriteStep::CreateDir { dir, job }, WriteReply::Io(Ok(_))) => prepare_file(
            dir,
            job,
            millis,
        ),
        (WriteStep::CreateDir { dir: _, job: _ }, WriteReply::Io(Err(message))) => {
            WriteStep::Finished(WriteOutcome::CreateDirFailed(message))
        },
        (WriteStep::WriteFile { dir: _, file_name: _, contents: _ }, WriteReply::Io(Ok(_))) => {
            WriteStep::Finished(WriteOutcome::Written)
        },
        (
            WriteStep::WriteFile { dir: _, file_name: _, contents: _ },
            WriteReply::Io(Err(message)),
        ) => { WriteStep::Finished(WriteOutcome::WriteFailed(message)) },
        (step, _) => step,
    }
}

/// Whether the answer `reply` to `step` makes the writer read the clock.
fn needs_clock(step: &WriteStep, reply: &WriteReply) -> (needed: bool)
    ensures
        needed == reads_clock(step@, reply@),
{
    match (step, reply) {
        (WriteStep::CreateDir { dir: _, job: _ }, WriteReply::Io(Ok(_))) => true,
        _ => false,
    }
}

/// Takes the driver's answer to a step and gives the next step. The clock is
/// read where the file gets its name, and nowhere else.
pub fn advance(step: WriteStep, reply: WriteReply) -> (next: WriteStep)
    ensures
        exists|millis: i64| next@ == #[trigger] advanced(step@, reply@, millis as int),
        !reads_clock(step@, reply@) ==> next@ == advanced(step@, reply@, 0),
{
    let millis = if needs_clock(&step, &reply) {
        now_millis()
    } else {
        0
    };
    advance_at(step, reply, millis)
}

/// With captures switched off a write is over before it starts: the first
/// step is already the end, it asks nothing of the file system, there is
/// nothing to report, and no answer moves the writer on from there.
pub proof fn lemma_disabled_writer_does_nothing(
    configured: Option<Seq<char>>,
    job: WriteJobView,
    reply: WriteReplyView,
    millis: int,
)
    ensures
        begun(false, configured, job) == WriteStepView::Finished(WriteOutcomeView::Disabled),
        warning_text(WriteOutcomeView::Disabled) is None,
        advanced(begun(false, configured, job), reply, millis) == begun(false, configured, job),
{
}

/// A write that has ended stays ended, with the outcome it had: no failure
/// is retried.
pub proof fn lemma_finished_is_final(outcome: WriteOutcomeView, reply: WriteReplyView, millis: int)
    ensures
        advanced(WriteStepView::Finished(outcome), reply, millis) == WriteStepView::Finished(
            outcome,
        ),
{
}

} // verus!
