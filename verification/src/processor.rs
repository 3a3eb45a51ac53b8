//! The per-file pipeline as a state machine. The driver performs each action
//! (checking the input, running the engine, reading the original, resolving
//! the output path, writing atomically) and answers with the matching event;
//! the machine decides what happens next and builds the file's result.
use vstd::prelude::*;
use crate::errors::{spec_user_friendly_message, AppError};
use crate::formats::{
    engine_output_format, spec_engine_for, spec_engine_output_format, Engine, FixedQualityStrategy,
    ProcessedOutput,
};
use crate::models::{
    CompressionResult, CompressionSettings, CompressionStatus, ImageFormat, ImageInfo, OutputMode,
};
use crate::validation::{calculate_savings, spec_savings, PERCENT_MICROS_SCALE};

verus! {

/// Runs files through the fixed-quality strategy.
pub struct ImageProcessor {
    pub strategy: FixedQualityStrategy,
}

impl Default for ImageProcessor {
    fn default() -> (r: Self) {
        ImageProcessor::new()
    }
}

/// The format written for a file whose engine failed before producing
/// anything: the input's format, or JPEG when converting.
pub open spec fn planned_format(mode: OutputMode, input: ImageFormat) -> ImageFormat {
    match mode {
        OutputMode::SameFormat => input,
        OutputMode::ConvertToJpg => ImageFormat::Jpg,
    }
}

/// The facts of one file that its result repeats.
pub struct FileJob {
    pub id: String,
    pub input_bytes: u64,
    pub input_width: u32,
    pub input_height: u32,
    pub input_format: ImageFormat,
    pub output_mode: OutputMode,
    pub engine: Engine,
}

/// An encoded candidate and what keeping it would mean.
#[derive(Clone, Copy, Debug, PartialEq, Eq, Structural)]
pub struct Candidate {
    /// Whether the candidate is written (else the original is).
    pub kept: bool,
    pub output_bytes: u64,
    pub saved_bytes: u64,
    pub saved_percent_micros: u64,
    pub width: u32,
    pub height: u32,
    pub format: ImageFormat,
    pub color_profile_preserved: bool,
}

/// Where a file is in the pipeline.
pub enum Stage {
    /// Waiting to learn whether the input file exists.
    AwaitingInputCheck,
    /// Waiting for the engine's output.
    AwaitingCompression,
    /// The candidate saves nothing; waiting for the original's bytes.
    AwaitingOriginal(Candidate),
    /// Waiting for an output path for these bytes.
    AwaitingOutputPath(Candidate, Vec<u8>),
    /// Waiting for the write to this path to finish.
    AwaitingWrite(Candidate, String),
    /// The result was produced.
    Finished,
}

/// An answer of the driver.
pub enum ProcessEvent {
    /// Whether the input file exists.
    InputChecked(bool),
    /// The engine's output, or its error.
    Compressed(Result<ProcessedOutput, AppError>),
    /// The original file's bytes, or the text of the read error.
    OriginalRead(Result<Vec<u8>, String>),
    /// The resolved output path, or the error of resolving it.
    OutputResolved(Result<String, AppError>),
    /// Whether the atomic write succeeded.
    Written(Result<(), AppError>),
}

/// What the driver has to do next.
pub enum ProcessAction {
    /// Run this engine on the input file.
    Compress(Engine),
    /// Read the input file.
    ReadOriginal,
    /// Resolve a collision-free output path for a file of this format.
    ResolveOutput(ImageFormat),
    /// Write these bytes atomically to this path.
    Write { path: String, data: Vec<u8> },
    /// The file is done.
    Finish(CompressionResult),
}

/// One file on its way through the pipeline.
pub struct FileRun {
    pub job: FileJob,
    pub stage: Stage,
}

/// The event that answers the action that led to `stage`.
pub open spec fn expects(stage: Stage, event: ProcessEvent) -> bool {
    match stage {
        Stage::AwaitingInputCheck => event is InputChecked,
        Stage::AwaitingCompression => event is Compressed,
        Stage::AwaitingOriginal(_) => event is OriginalRead,
        Stage::AwaitingOutputPath(_, _) => event is OutputResolved,
        Stage::AwaitingWrite(_, _) => event is Written,
        Stage::Finished => false,
    }
}

/// An engine output handed to the run is of the format its engine writes.
pub open spec fn engine_output_fits(job: FileJob, event: ProcessEvent) -> bool {
    event matches ProcessEvent::Compressed(Ok(p)) ==> p.format == spec_engine_output_format(job.engine)
}

/// The job runs the engine that its output mode and input format call for.
pub open spec fn job_wf(job: FileJob) -> bool {
    job.engine == spec_engine_for(job.output_mode, job.input_format)
}

/// `r` reports `job` with these values in its varying fields.
pub open spec fn reports(
    r: CompressionResult,
    job: FileJob,
    status: CompressionStatus,
    output_bytes: u64,
    saved_bytes: u64,
    saved_percent_micros: u64,
    output_width: u32,
    output_height: u32,
    output_format: ImageFormat,
    output_path: Option<Seq<char>>,
    duration_ms: u64,
    error: Option<Seq<char>>,
    color_profile_preserved: bool,
) -> bool {
    &&& r.id@ == job.id@
    &&& r.input_bytes == job.input_bytes
    &&& r.input_width == job.input_width
    &&& r.input_height == job.input_height
    &&& r.input_format == job.input_format
    &&& r.status == status
    &&& r.output_bytes == output_bytes
    &&& r.saved_bytes == saved_bytes
    &&& r.saved_percent_micros == saved_percent_micros
    &&& r.output_width == output_width
    &&& r.output_height == output_height
    &&& r.output_format == output_format
    &&& match (r.output_path, output_path) {
        (Some(p), Some(q)) => p@ == q,
        (None, None) => true,
        _ => false,
    }
    &&& r.duration_ms == duration_ms
    &&& match (r.error, error) {
        (Some(e), Some(f)) => e@ == f,
        (None, None) => true,
        _ => false,
    }
    &&& r.color_profile_preserved == color_profile_preserved
}

/// A failure before any candidate existed.
pub open spec fn reports_early_failure(r: CompressionResult, job: FileJob, error: Seq<char>, duration_ms: u64) -> bool {
    reports(
        r,
        job,
        CompressionStatus::Failed,
        0,
        0,
        0,
        0,
        0,
        planned_format(job.output_mode, job.input_format),
        None,
        duration_ms,
        Some(error),
        false,
    )
}

/// A failure after the candidate `c` was encoded: a kept candidate still
/// reports its sizes and dimensions; a discarded one reports nothing of them.
pub open spec fn reports_late_failure(
    r: CompressionResult,
    job: FileJob,
    c: Candidate,
    error: Seq<char>,
    duration_ms: u64,
) -> bool {
    if c.kept {
        reports(
            r,
            job,
            CompressionStatus::Failed,
            c.output_bytes,
            c.saved_bytes,
            c.saved_percent_micros,
            c.width,
            c.height,
            c.format,
            None,
            duration_ms,
            Some(error),
            c.color_profile_preserved,
        )
    } else {
        reports(
            r,
            job,
            CompressionStatus::Failed,
            0,
            0,
            0,
            0,
            0,
            c.format,
            None,
            duration_ms,
            Some(error),
            false,
        )
    }
}

/// The success of the candidate `c` written to `path`: a kept candidate
/// completes; otherwise the original was written and nothing was saved.
pub open spec fn reports_success(
    r: CompressionResult,
    job: FileJob,
    c: Candidate,
    path: Seq<char>,
    duration_ms: u64,
) -> bool {
    if c.kept {
        reports(
            r,
            job,
            CompressionStatus::Completed,
            c.output_bytes,
            c.saved_bytes,
            c.saved_percent_micros,
            c.width,
            c.height,
            c.format,
            Some(path),
            duration_ms,
            None,
            c.color_profile_preserved,
        )
    } else {
        reports(
            r,
            job,
            CompressionStatus::NoSavings,
            job.input_bytes,
            0,
            0,
            c.width,
            c.height,
            c.format,
            Some(path),
            duration_ms,
            None,
            c.color_profile_preserved,
        )
    }
}

/// The candidate made of the engine's output `p` for `job`.
pub open spec fn candidate_of(job: FileJob, p: ProcessedOutput) -> Candidate {
    let (saved, micros, keep) = spec_savings(job.input_bytes, p.data@.len() as u64, job.output_mode);
    Candidate {
        kept: keep,
        output_bytes: p.data@.len() as u64,
        saved_bytes: saved as u64,
        saved_percent_micros: micros as u64,
        width: p.width,
        height: p.height,
        format: p.format,
        color_profile_preserved: p.color_profile_preserved,
    }
}

/// One step of the pipeline: from the stage `before`, the driver's `event`
/// leads to the stage `after` and the action `action`.
pub open spec fn step_spec(
    job: FileJob,
    before: Stage,
    event: ProcessEvent,
    elapsed_ms: u64,
    after: Stage,
    action: ProcessAction,
) -> bool {
    match (before, event) {
        (Stage::AwaitingInputCheck, ProcessEvent::InputChecked(exists)) => if exists {
            &&& after is AwaitingCompression
            &&& action == ProcessAction::Compress(job.engine)
        } else {
            &&& after is Finished
            &&& action matches ProcessAction::Finish(r)
            &&& reports_early_failure(r, job, "Input file does not exist or has been moved."@, 0)
        },
        (Stage::AwaitingCompression, ProcessEvent::Compressed(outcome)) => match outcome {
            Err(e) => {
                &&& after is Finished
                &&& action matches ProcessAction::Finish(r)
                &&& reports_early_failure(r, job, spec_user_friendly_message(e), elapsed_ms)
            },
            Ok(p) => {
                let c = candidate_of(job, p);
                if c.kept {
                    &&& after matches Stage::AwaitingOutputPath(c2, data)
                    &&& c2 == c
                    &&& data@ == p.data@
                    &&& action == ProcessAction::ResolveOutput(p.format)
                } else {
                    &&& after == Stage::AwaitingOriginal(c)
                    &&& action is ReadOriginal
                }
            },
        },
        (Stage::AwaitingOriginal(c), ProcessEvent::OriginalRead(outcome)) => match outcome {
            Err(msg) => {
                &&& after is Finished
                &&& action matches ProcessAction::Finish(r)
                &&& reports_late_failure(r, job, c, "Could not read original file: "@ + msg@, elapsed_ms)
            },
            Ok(original) => {
                &&& after matches Stage::AwaitingOutputPath(c2, data)
                &&& c2 == c
                &&& data@ == original@
                &&& action == ProcessAction::ResolveOutput(c.format)
            },
        },
        (Stage::AwaitingOutputPath(c, data), ProcessEvent::OutputResolved(outcome)) => match outcome {
            Err(e) => {
                &&& after is Finished
                &&& action matches ProcessAction::Finish(r)
                &&& reports_late_failure(r, job, c, spec_user_friendly_message(e), elapsed_ms)
            },
            Ok(path) => {
                &&& after matches Stage::AwaitingWrite(c2, p2)
                &&& c2 == c
                &&& p2@ == path@
                &&& action matches ProcessAction::Write { path: wp, data: wd }
                &&& wp@ == path@
                &&& wd@ == data@
            },
        },
        (Stage::AwaitingWrite(c, path), ProcessEvent::Written(outcome)) => match outcome {
            Err(e) => {
                &&& after is Finished
                &&& action matches ProcessAction::Finish(r)
                &&& reports_late_failure(r, job, c, spec_user_friendly_message(e), elapsed_ms)
            },
            Ok(_) => {
                &&& after is Finished
                &&& action matches ProcessAction::Finish(r)
                &&& reports_success(r, job, c, path@, elapsed_ms)
            },
        },
        _ => false,
    }
}

/// What every candidate carried by a run satisfies: it is of the format the
/// job's engine writes; a kept candidate is smaller than the input and saves
/// the difference, or is the product of a conversion and saves nothing; a
/// discarded candidate is not smaller than the input of a same-format run.
pub open spec fn candidate_wf(job: FileJob, c: Candidate) -> bool {
    &&& c.format == spec_engine_output_format(job.engine)
    &&& if c.kept {
        ||| (c.output_bytes < job.input_bytes && c.saved_bytes == job.input_bytes - c.output_bytes)
        ||| (job.output_mode == OutputMode::ConvertToJpg && c.output_bytes >= job.input_bytes
            && c.saved_bytes == 0 && c.saved_percent_micros == 0)
    } else {
        &&& job.output_mode == OutputMode::SameFormat
        &&& c.output_bytes >= job.input_bytes
    }
}

/// The candidate held by a stage, if any, is well formed.
pub open spec fn stage_wf(job: FileJob, stage: Stage) -> bool {
    match stage {
        Stage::AwaitingOriginal(c) => candidate_wf(job, c),
        Stage::AwaitingOutputPath(c, _) => candidate_wf(job, c),
        Stage::AwaitingWrite(c, _) => candidate_wf(job, c),
        _ => true,
    }
}

/// The guarantees every finished result gives: a failure has an error and no
/// output path; a completed or no-savings result has an output path and no
/// error; "no savings" reports the input's size as the output's and nothing
/// saved; "completed" reports a size that shrank by exactly the saved bytes,
/// or a conversion that saved nothing; a same-format file only completes when
/// it shrank.
pub open spec fn result_wf(job: FileJob, r: CompressionResult) -> bool {
    &&& r.status == CompressionStatus::Failed || r.status == CompressionStatus::Completed
        || r.status == CompressionStatus::NoSavings
    &&& r.status == CompressionStatus::Failed ==> r.output_path is None && r.error is Some
    &&& r.status == CompressionStatus::NoSavings ==> {
        &&& r.output_path is Some
        &&& r.error is None
        &&& r.output_bytes == r.input_bytes
        &&& r.saved_bytes == 0
        &&& r.saved_percent_micros == 0
    }
    &&& r.status == CompressionStatus::Completed ==> {
        &&& r.output_path is Some
        &&& r.error is None
        &&& (r.output_bytes < r.input_bytes && r.saved_bytes == r.input_bytes - r.output_bytes) || (
        job.output_mode == OutputMode::ConvertToJpg && r.saved_bytes == 0)
        &&& job.output_mode == OutputMode::SameFormat ==> r.output_bytes < r.input_bytes
    }
}

/// How many answers a stage is at most away from the result.
pub open spec fn stage_rank(stage: Stage) -> nat {
    match stage {
        Stage::AwaitingInputCheck => 5,
        Stage::AwaitingCompression => 4,
        Stage::AwaitingOriginal(_) => 3,
        Stage::AwaitingOutputPath(_, _) => 2,
        Stage::AwaitingWrite(_, _) => 1,
        Stage::Finished => 0,
    }
}

proof fn lemma_candidate_of_wf(job: FileJob, p: ProcessedOutput)
    requires
        p.format == spec_engine_output_format(job.engine),
    ensures
        candidate_wf(job, candidate_of(job, p)),
{
    let out = p.data@.len() as u64;
    let (saved, micros, keep) = spec_savings(job.input_bytes, out, job.output_mode);
    if out < job.input_bytes {
        assert(saved == job.input_bytes - out);
        assert(saved <= job.input_bytes);
    }
}

/// Every step keeps the run well formed, moves it closer to its result (so
/// every file is finished after at most five answers), and every result it
/// produces gives the guarantees of `result_wf` and reports the format the
/// job's engine writes: JPEG when converting, else the input's format.
pub proof fn lemma_step_preserves(
    job: FileJob,
    before: Stage,
    event: ProcessEvent,
    elapsed_ms: u64,
    after: Stage,
    action: ProcessAction,
)
    requires
        job_wf(job),
        stage_wf(job, before),
        engine_output_fits(job, event),
        step_spec(job, before, event, elapsed_ms, after, action),
    ensures
        stage_wf(job, after),
        stage_rank(after) < stage_rank(before),
        action matches ProcessAction::Finish(r) ==> result_wf(job, r),
        action matches ProcessAction::Finish(r) ==> r.output_format == spec_engine_output_format(
            job.engine,
        ),
        action matches ProcessAction::Finish(r) ==> r.output_format == planned_format(
            job.output_mode,
            job.input_format,
        ),
        action is Finish <==> after is Finished,
{
    if let (Stage::AwaitingCompression, ProcessEvent::Compressed(Ok(p))) = (before, event) {
        lemma_candidate_of_wf(job, p);
    }
}

/// A candidate that is kept is what gets written: after the engine's output
/// `p` is kept, an output path resolved and the write reported done, the
/// bytes written are exactly the engine's and the result is "completed" at
/// that path, with the engine's format and dimensions.
pub proof fn lemma_kept_candidate_writes_engine_output(
    job: FileJob,
    p: ProcessedOutput,
    path: String,
    t1: u64,
    t2: u64,
    t3: u64,
    s1: Stage,
    a1: ProcessAction,
    s2: Stage,
    a2: ProcessAction,
    s3: Stage,
    a3: ProcessAction,
)
    requires
        step_spec(job, Stage::AwaitingCompression, ProcessEvent::Compressed(Ok(p)), t1, s1, a1),
        step_spec(job, s1, ProcessEvent::OutputResolved(Ok(path)), t2, s2, a2),
        step_spec(job, s2, ProcessEvent::Written(Ok(())), t3, s3, a3),
        candidate_of(job, p).kept,
    ensures
        a1 == ProcessAction::ResolveOutput(p.format),
        a2 matches ProcessAction::Write { path: wp, data } && wp@ == path@ && data@ == p.data@,
        a3 matches ProcessAction::Finish(r) && r.status == CompressionStatus::Completed
            && r.output_format == p.format && r.output_width == p.width && r.output_height
            == p.height && r.output_bytes == p.data@.len() as u64 && (r.output_path matches Some(q) && q@
            == path@) && r.error is None,
{
}

/// A completed file reports the savings of the output written: when the
/// engine's output is smaller than the input, the saved bytes are the
/// difference and the saved share is that difference over the input size,
/// in millionths of a percent rounded down; when a conversion did not shrink
/// the file, the file still completes and reports nothing saved.
pub proof fn lemma_completed_reports_savings(
    job: FileJob,
    p: ProcessedOutput,
    path: String,
    t1: u64,
    t2: u64,
    t3: u64,
    s1: Stage,
    a1: ProcessAction,
    s2: Stage,
    a2: ProcessAction,
    s3: Stage,
    a3: ProcessAction,
)
    requires
        step_spec(job, Stage::AwaitingCompression, ProcessEvent::Compressed(Ok(p)), t1, s1, a1),
        step_spec(job, s1, ProcessEvent::OutputResolved(Ok(path)), t2, s2, a2),
        step_spec(job, s2, ProcessEvent::Written(Ok(())), t3, s3, a3),
        p.data@.len() < job.input_bytes || job.output_mode == OutputMode::ConvertToJpg,
    ensures
        a3 matches ProcessAction::Finish(r) && r.status == CompressionStatus::Completed
            && r.input_bytes == job.input_bytes && r.output_bytes == p.data@.len() as u64,
        p.data@.len() < job.input_bytes ==> (a3 matches ProcessAction::Finish(r) && r.saved_bytes
            == job.input_bytes - p.data@.len() && r.saved_percent_micros == (job.input_bytes
            - p.data@.len()) * 100_000_000 / (job.input_bytes as int)),
        p.data@.len() >= job.input_bytes ==> (a3 matches ProcessAction::Finish(r) && r.saved_bytes
            == 0 && r.saved_percent_micros == 0),
{
    assert(p.data@.len() == p.data.len());
    let out = p.data@.len() as u64;
    if p.data@.len() < job.input_bytes {
        assert(out == p.data@.len());
        let saved = (job.input_bytes - out) as nat;
        assert(saved * 100_000_000 / (job.input_bytes as nat) <= 100_000_000) by (nonlinear_arith)
            requires
                saved <= job.input_bytes,
                job.input_bytes > 0,
        {
            assert(saved * 100_000_000 <= job.input_bytes * 100_000_000);
        }
    }
}

/// When a same-format candidate saves nothing, the file written is the
/// original: after the original's bytes are read, an output path resolved and
/// the write reported done, the bytes written are exactly the ones read and
/// the result is "no savings" at that path, with the input's size.
pub proof fn lemma_no_savings_writes_original(
    job: FileJob,
    c: Candidate,
    original: Vec<u8>,
    path: String,
    t1: u64,
    t2: u64,
    t3: u64,
    s1: Stage,
    a1: ProcessAction,
    s2: Stage,
    a2: ProcessAction,
    s3: Stage,
    a3: ProcessAction,
)
    requires
        step_spec(
            job,
            Stage::AwaitingOriginal(c),
            ProcessEvent::OriginalRead(Ok(original)),
            t1,
            s1,
            a1,
        ),
        step_spec(job, s1, ProcessEvent::OutputResolved(Ok(path)), t2, s2, a2),
        step_spec(job, s2, ProcessEvent::Written(Ok(())), t3, s3, a3),
        !c.kept,
    ensures
        a2 matches ProcessAction::Write { path: wp, data } && wp@ == path@ && data@ == original@,
        a3 matches ProcessAction::Finish(r) && r.status == CompressionStatus::NoSavings && r.output_bytes
            == job.input_bytes && r.saved_bytes == 0 && (r.output_path matches Some(p) && p@ == path@),
{
}

fn make_result(
    job: &FileJob,
    status: CompressionStatus,
    output_bytes: u64,
    saved_bytes: u64,
    saved_percent_micros: u64,
    output_width: u32,
    output_height: u32,
    output_format: ImageFormat,
    output_path: Option<String>,
    duration_ms: u64,
    error: Option<String>,
    color_profile_preserved: bool,
) -> (r: CompressionResult)
    ensures
        reports(
            r,
            *job,
            status,
            output_bytes,
            saved_bytes,
            saved_percent_micros,
            output_width,
            output_height,
            output_format,
            match output_path {
                Some(p) => Some(p@),
                None => None,
            },
            duration_ms,
            match error {
                Some(e) => Some(e@),
                None => None,
            },
            color_profile_preserved,
        ),
{
    CompressionResult {
        id: job.id.clone(),
        input_bytes: job.input_bytes,
        output_bytes,
        saved_bytes,
        saved_percent_micros,
        input_width: job.input_width,
        input_height: job.input_height,
        output_width,
        output_height,
        input_format: job.input_format,
        output_format,
        output_path,
        duration_ms,
        status,
        error,
        color_profile_preserved,
    }
}

fn early_failure(job: &FileJob, error: String, duration_ms: u64) -> (r: CompressionResult)
    ensures
        reports_early_failure(r, *job, error@, duration_ms),
{
    let format = match job.output_mode {
        OutputMode::SameFormat => job.input_format,
        OutputMode::ConvertToJpg => ImageFormat::Jpg,
    };
    make_result(
        job,
        CompressionStatus::Failed,
        0,
        0,
        0,
        0,
        0,
        format,
        None,
        duration_ms,
        Some(error),
        false,
    )
}

fn late_failure(job: &FileJob, c: Candidate, error: String, duration_ms: u64) -> (r: CompressionResult)
    ensures
        reports_late_failure(r, *job, c, error@, duration_ms),
{
    if c.kept {
        make_result(
            job,
            CompressionStatus::Failed,
            c.output_bytes,
            c.saved_bytes,
            c.saved_percent_micros,
            c.width,
            c.height,
            c.format,
            None,
            duration_ms,
            Some(error),
            c.color_profile_preserved,
        )
    } else {
        make_result(
            job,
            CompressionStatus::Failed,
            0,
            0,
            0,
            0,
            0,
            c.format,
            None,
            duration_ms,
            Some(error),
            false,
        )
    }
}

fn success(job: &FileJob, c: Candidate, path: String, duration_ms: u64) -> (r: CompressionResult)
    ensures
        reports_success(r, *job, c, path@, duration_ms),
{
    if c.kept {
        make_result(
            job,
            CompressionStatus::Completed,
            c.output_bytes,
            c.saved_bytes,
            c.saved_percent_micros,
            c.width,
            c.height,
            c.format,
            Some(path),
            duration_ms,
            None,
            c.color_profile_preserved,
        )
    } else {
        make_result(
            job,
            CompressionStatus::NoSavings,
            job.input_bytes,
            0,
            0,
            c.width,
            c.height,
            c.format,
            Some(path),
            duration_ms,
            None,
            c.color_profile_preserved,
        )
    }
}

impl ImageProcessor {
    pub fn new() -> (r: Self) {
        ImageProcessor { strategy: FixedQualityStrategy }
    }

    /// Starts the pipeline for the file `info` under `settings`; the driver
    /// first reports whether the input file exists.
    pub fn begin(&self, info: &ImageInfo, settings: &CompressionSettings) -> (r: FileRun)
        ensures
            r.job.id@ == info.id@,
            r.job.input_bytes == info.bytes,
            r.job.input_width == info.width,
            r.job.input_height == info.height,
            r.job.input_format == info.format,
            r.job.output_mode == settings.output_mode,
            r.job.engine == spec_engine_for(settings.output_mode, info.format),
            r.stage is AwaitingInputCheck,
    {
        let engine = self.strategy.engine_for(settings, info.format);
        FileRun {
            job: FileJob {
                id: info.id.clone(),
                input_bytes: info.bytes,
                input_width: info.width,
                input_height: info.height,
                input_format: info.format,
                output_mode: settings.output_mode,
                engine,
            },
            stage: Stage::AwaitingInputCheck,
        }
    }
}

impl FileRun {
    /// Whether `event` answers the action the run is waiting on (and, for an
    /// engine output, is of the format the job's engine writes).
    pub fn expects(&self, event: &ProcessEvent) -> (r: bool)
        ensures
            r == (expects(self.stage, *event) && engine_output_fits(self.job, *event)),
    {
        match (&self.stage, event) {
            (Stage::AwaitingInputCheck, ProcessEvent::InputChecked(_)) => true,
            (Stage::AwaitingCompression, ProcessEvent::Compressed(outcome)) => match outcome {
                Ok(p) => p.format == engine_output_format(self.job.engine),
                Err(_) => true,
            },
            (Stage::AwaitingOriginal(_), ProcessEvent::OriginalRead(_)) => true,
            (Stage::AwaitingOutputPath(_, _), ProcessEvent::OutputResolved(_)) => true,
            (Stage::AwaitingWrite(_, _), ProcessEvent::Written(_)) => true,
            _ => false,
        }
    }

    /// Takes the driver's answer `event`, `elapsed_ms` after the file was
    /// started, and returns the next action.
    pub fn step(&mut self, event: ProcessEvent, elapsed_ms: u64) -> (action: ProcessAction)
        requires
            expects(old(self).stage, event),
            engine_output_fits(old(self).job, event),
        ensures
            final(self).job == old(self).job,
            step_spec(old(self).job, old(self).stage, event, elapsed_ms, final(self).stage, action),
    {
        let mut stage = Stage::Finished;
        std::mem::swap(&mut stage, &mut self.stage);
        match (stage, event) {
            (Stage::AwaitingInputCheck, ProcessEvent::InputChecked(exists)) => {
                if exists {
                    self.stage = Stage::AwaitingCompression;
                    ProcessAction::Compress(self.job.engine)
                } else {
                    ProcessAction::Finish(
                        early_failure(
                            &self.job,
                            String::from_str("Input file does not exist or has been moved."),
                            0,
                        ),
                    )
                }
            },
            (Stage::AwaitingCompression, ProcessEvent::Compressed(outcome)) => match outcome {
                Err(e) => ProcessAction::Finish(
                    early_failure(&self.job, e.user_friendly_message(), elapsed_ms),
                ),
                Ok(p) => {
                    let output_bytes = p.data.len() as u64;
                    let (saved_bytes, micros, keep) = calculate_savings(
                        self.job.input_bytes,
                        output_bytes,
                        self.job.output_mode,
                    );
                    let c = Candidate {
                        kept: keep,
                        output_bytes,
                        saved_bytes,
                        saved_percent_micros: micros,
                        width: p.width,
                        height: p.height,
                        format: p.format,
                        color_profile_preserved: p.color_profile_preserved,
                    };
                    if keep {
                        let format = p.format;
                        self.stage = Stage::AwaitingOutputPath(c, p.data);
                        ProcessAction::ResolveOutput(format)
                    } else {
                        self.stage = Stage::AwaitingOriginal(c);
                        ProcessAction::ReadOriginal
                    }
                },
            },
            (Stage::AwaitingOriginal(c), ProcessEvent::OriginalRead(outcome)) => match outcome {
                Err(msg) => {
                    let mut error = String::from_str("Could not read original file: ");
                    error.append(msg.as_str());
                    ProcessAction::Finish(late_failure(&self.job, c, error, elapsed_ms))
                },
                Ok(original) => {
                    self.stage = Stage::AwaitingOutputPath(c, original);
                    ProcessAction::ResolveOutput(c.format)
                },
            },
            (Stage::AwaitingOutputPath(c, data), ProcessEvent::OutputResolved(outcome)) => match outcome {
                Err(e) => ProcessAction::Finish(
                    late_failure(&self.job, c, e.user_friendly_message(), elapsed_ms),
                ),
                Ok(path) => {
                    self.stage = Stage::AwaitingWrite(c, path.clone());
                    ProcessAction::Write { path, data }
                },
            },
            (Stage::AwaitingWrite(c, path), ProcessEvent::Written(outcome)) => match outcome {
                Err(e) => ProcessAction::Finish(
                    late_failure(&self.job, c, e.user_friendly_message(), elapsed_ms),
                ),
                Ok(_) => ProcessAction::Finish(success(&self.job, c, path, elapsed_ms)),
            },
            (stage, _) => {
                self.stage = stage;
                proof {
                    assert(false);
                }
                ProcessAction::ReadOriginal
            },
        }
    }
}

} // verus!
