//! The pipeline of one job: download, then extraction, then parsing, each
//! stage only after the one before it succeeded.
//!
//! A stage that fails ends the job in `Error`, with a message that names the
//! stage; it touches no other job. Nothing is tried again within a run.

use crate::error::{ingest_error_text, IngestError};
use crate::job::{Job, JobState, JobStateView, JobView};
use crate::text::concat_str;
use vstd::prelude::*;

verus! {

/// The stages of a job, in order.
#[derive(Debug, Clone, Copy, PartialEq, Eq, Structural)]
pub enum Stage {
    Download,
    Archive,
    Parse,
}

impl Stage {
    /// The stage after this one, if any.
    pub open spec fn spec_next(self) -> Option<Stage> {
        match self {
            Stage::Download => Some(Stage::Archive),
            Stage::Archive => Some(Stage::Parse),
            Stage::Parse => None,
        }
    }

    /// The word for this stage in an error message.
    pub open spec fn spec_label(self) -> Seq<char> {
        match self {
            Stage::Download => "download"@,
            Stage::Archive => "decompression"@,
            Stage::Parse => "parsing"@,
        }
    }

    /// The first stage of every job.
    pub fn first() -> (s: Stage)
        ensures
            s == Stage::Download,
    {
        Stage::Download
    }

    /// The stage after this one, if any.
    pub fn next(&self) -> (r: Option<Stage>)
        ensures
            r == self.spec_next(),
    {
        match self {
            Stage::Download => Some(Stage::Archive),
            Stage::Archive => Some(Stage::Parse),
            Stage::Parse => None,
        }
    }

    /// The word for this stage in an error message.
    pub fn label(&self) -> (s: String)
        ensures
            s@ == self.spec_label(),
    {
        match self {
            Stage::Download => "download".to_owned(),
            Stage::Archive => "decompression".to_owned(),
            Stage::Parse => "parsing".to_owned(),
        }
    }
}

/// The message of a job that failed in `stage`: the stage's word, ` error: `
/// and the error's own words; for a download from a known address, the
/// address follows in brackets.
pub open spec fn failure_message(stage: Stage, detail: Seq<char>, source: Option<Seq<char>>) -> Seq<
    char,
> {
    let base = stage.spec_label() + " error: "@ + detail;
    match source {
        Some(url) => if stage == Stage::Download {
            base + " ("@ + url + ")"@
        } else {
            base
        },
        None => base,
    }
}

/// The job and the stage to run next, after `stage` ended with `outcome`. A
/// job that has ended stays as it is. Success leads on to the next stage,
/// and after the last stage to `Done`. Failure leads to `Error`.
pub open spec fn process_next(job: JobView, stage: Stage, outcome: Result<(), IngestError>) -> (
    JobView,
    Option<Stage>,
) {
    if job.state.is_terminal() {
        (job, None)
    } else {
        match outcome {
            Ok(_) => match stage.spec_next() {
                Some(next) => (job, Some(next)),
                None => (JobView { state: JobStateView::Done, ..job }, None),
            },
            Err(e) => (
                JobView {
                    state: JobStateView::Error {
                        message: failure_message(stage, ingest_error_text(e), job.source_ref),
                    },
                    ..job
                },
                None,
            ),
        }
    }
}

/// The message of a job that failed in `stage` with `error`.
pub fn failure_text(stage: Stage, error: &IngestError, source_ref: &Option<String>) -> (r: String)
    ensures
        r@ == failure_message(
            stage,
            ingest_error_text(*error),
            match *source_ref {
                Some(s) => Some(s@),
                None => None,
            },
        ),
{
    let label = stage.label();
    let detail = error.message();
    let mut r = concat_str(label.as_str(), " error: ");
    r.append(detail.as_str());
    match source_ref {
        Some(url) => {
            match stage {
                Stage::Download => {
                    r.append(" (");
                    r.append(url.as_str());
                    r.append(")");
                },
                _ => {},
            }
        },
        None => {},
    }
    r
}

/// Records how a stage of a job ended and says which stage to run next.
/// Nothing is run for a job that has ended.
pub fn process(job: &mut Job, stage: Stage, outcome: Result<(), IngestError>) -> (r: Option<Stage>)
    ensures
        (final(job)@, r) == process_next(old(job)@, stage, outcome),
{
    let current = job.state();
    if current.is_terminal() {
        return None;
    }
    match outcome {
        Ok(_) => match stage.next() {
            Some(next) => Some(next),
            None => {
                job.set_state(JobState::Done);
                None
            },
        },
        Err(e) => {
            let source = job.source_ref();
            let message = failure_text(stage, &e, &source);
            job.set_state(JobState::Error { message });
            None
        },
    }
}

/// Stage order. A stage is only started after the one before it succeeded:
/// the pipeline goes on exactly when the job has not ended, the stage
/// succeeded and a stage is left. A failure never goes on, and leaves the
/// job in `Error`; a job that has ended is never changed.
pub proof fn lemma_stage_order(job: JobView, stage: Stage, outcome: Result<(), IngestError>)
    ensures
        process_next(job, stage, outcome).1 is Some <==> (!job.state.is_terminal() && outcome is Ok
            && stage != Stage::Parse),
        process_next(job, stage, outcome).1 matches Some(next) ==> stage.spec_next() == Some(next),
        !job.state.is_terminal() && outcome is Err ==> process_next(job, stage, outcome).0.state
            is Error,
        !job.state.is_terminal() && outcome is Ok && stage == Stage::Parse ==> process_next(
            job,
            stage,
            outcome,
        ).0.state is Done,
        job.state.is_terminal() ==> process_next(job, stage, outcome).0 == job,
{
}

} // verus!
