//! The download stage: what to ask of the remote side and when to stop.
//!
//! The stage makes sure that a job's archive lies on disk complete. It asks
//! the remote side for the archive's length; an archive that is already here
//! with exactly that length is not fetched again. The caller talks to the
//! network and the disk and reports what happened; this module decides.

use crate::decimal::{parse_u64, parse_u64_spec};
use crate::error::IngestError;
use crate::job::JobState;
use vstd::prelude::*;

verus! {

/// Where a download stands.
#[derive(Debug, Clone, Copy, PartialEq, Eq, Structural)]
pub enum DownloadState {
    /// Nothing was done yet.
    Start,
    /// The remote length was asked for.
    AwaitingLength,
    /// The body of `total` bytes was asked for.
    AwaitingStatus { total: u64 },
    /// `done` of `total` bytes were received.
    Receiving { done: u64, total: u64 },
    /// The archive is here.
    Done,
    /// The download failed.
    Failed,
}

/// What happened since the last step.
#[derive(Debug, Clone, PartialEq, Eq)]
pub enum DownloadEvent {
    /// The stage begins, for a job with or without a remote source.
    Begin { has_source: bool },
    /// The remote side reports `remote` bytes; `local` is the length of the
    /// file already on disk, if there is one.
    Length { remote: u64, local: Option<u64> },
    /// The remote side answered the request for the body with this status.
    Status { code: u16 },
    /// `len` more bytes were received and written.
    Chunk { len: u64 },
    /// The body ended.
    BodyEnd,
    /// The transport or the disk failed.
    Failure(IngestError),
}

/// What the caller does next.
#[derive(Debug, Clone, PartialEq, Eq)]
pub enum DownloadAction {
    /// Ask the remote side for the archive's length, and the disk for the
    /// length of the file that is there.
    QueryLength,
    /// Ask for the body and write it to a new file.
    Fetch,
    /// Go on receiving; `done` of `total` bytes are here.
    Progress { done: u64, total: u64 },
    /// The stage is complete.
    Finish,
    /// The stage failed.
    Fail(IngestError),
    /// The event does not belong here; nothing changes.
    Ignore,
}

/// Whether a status lets the body through: 200 and 206 do.
pub open spec fn status_accepted(code: u16) -> bool {
    code == 200 || code == 206
}

/// `a + b`, or the greatest 64-bit number where the sum is beyond it.
pub open spec fn saturating_sum(a: u64, b: u64) -> u64 {
    if a + b > u64::MAX {
        u64::MAX
    } else {
        (a + b) as u64
    }
}

/// The state after an event, and what the caller does next.
pub open spec fn download_next(state: DownloadState, event: DownloadEvent) -> (
    DownloadState,
    DownloadAction,
) {
    match (state, event) {
        (DownloadState::Done, _) => (state, DownloadAction::Ignore),
        (DownloadState::Failed, _) => (state, DownloadAction::Ignore),
        (_, DownloadEvent::Failure(e)) => (DownloadState::Failed, DownloadAction::Fail(e)),
        (DownloadState::Start, DownloadEvent::Begin { has_source }) => if has_source {
            (DownloadState::AwaitingLength, DownloadAction::QueryLength)
        } else {
            (DownloadState::Done, DownloadAction::Finish)
        },
        (DownloadState::AwaitingLength, DownloadEvent::Length { remote, local }) => if local
            == Some(remote) {
            (DownloadState::Done, DownloadAction::Finish)
        } else {
            (DownloadState::AwaitingStatus { total: remote }, DownloadAction::Fetch)
        },
        (DownloadState::AwaitingStatus { total }, DownloadEvent::Status { code }) => if
            status_accepted(code) {
            (
                DownloadState::Receiving { done: 0, total },
                DownloadAction::Progress { done: 0, total },
            )
        } else {
            (DownloadState::Failed, DownloadAction::Fail(IngestError::UnexpectedStatus(code)))
        },
        (DownloadState::Receiving { done, total }, DownloadEvent::Chunk { len }) => (
            DownloadState::Receiving { done: saturating_sum(done, len), total },
            DownloadAction::Progress { done: saturating_sum(done, len), total },
        ),
        (DownloadState::Receiving { done, total }, DownloadEvent::BodyEnd) => (
            DownloadState::Done,
            DownloadAction::Finish,
        ),
        _ => (state, DownloadAction::Ignore),
    }
}

/// How many times a run asks for the body, where the remote side reports
/// `remote` bytes and the disk holds a file of `local` bytes, or none.
pub open spec fn fetches_in_run(remote: u64, local: Option<u64>) -> nat {
    if download_next(DownloadState::AwaitingLength, DownloadEvent::Length { remote, local }).1
        == DownloadAction::Fetch {
        1
    } else {
        0
    }
}

/// The length of the file on disk after a run that was not interrupted,
/// where the body has the length that the remote side reports: a fetched
/// body replaces the file, and a file that was not fetched stays as it was.
pub open spec fn local_after_run(remote: u64, local: Option<u64>) -> Option<u64> {
    if fetches_in_run(remote, local) == 1 {
        Some(remote)
    } else {
        local
    }
}

/// What the length header of the remote answer says. An answer without the
/// header, and a header that is no number, are errors of their own.
pub open spec fn content_length_spec(header: Option<Seq<char>>) -> Result<u64, IngestError> {
    match header {
        None => Err(IngestError::MissingContentLength),
        Some(text) => match parse_u64_spec(text) {
            Some(n) => Ok(n),
            None => Err(IngestError::InvalidContentLength),
        },
    }
}

/// Reads the length header of the remote answer.
pub fn content_length(header: Option<&str>) -> (r: Result<u64, IngestError>)
    ensures
        r == content_length_spec(
            match header {
                Some(h) => Some(h@),
                None => None,
            },
        ),
{
    match header {
        None => Err(IngestError::MissingContentLength),
        Some(text) => match parse_u64(text) {
            Some(n) => Ok(n),
            None => Err(IngestError::InvalidContentLength),
        },
    }
}

/// Whether a status lets the body through; any other status fails the job.
pub fn check_status(code: u16) -> (r: Result<(), IngestError>)
    ensures
        status_accepted(code) ==> r == Ok::<(), IngestError>(()),
        !status_accepted(code) ==> r == Err::<(), IngestError>(
            IngestError::UnexpectedStatus(code),
        ),
{
    if code == 200 || code == 206 {
        Ok(())
    } else {
        Err(IngestError::UnexpectedStatus(code))
    }
}

/// Takes one event: gives the state after it and what to do next.
pub fn download_step(state: DownloadState, event: DownloadEvent) -> (r: (
    DownloadState,
    DownloadAction,
))
    ensures
        r == download_next(state, event),
{
    match state {
        DownloadState::Done => (state, DownloadAction::Ignore),
        DownloadState::Failed => (state, DownloadAction::Ignore),
        _ => match event {
            DownloadEvent::Failure(e) => (DownloadState::Failed, DownloadAction::Fail(e)),
            DownloadEvent::Begin { has_source } => match state {
                DownloadState::Start => if has_source {
                    (DownloadState::AwaitingLength, DownloadAction::QueryLength)
                } else {
                    (DownloadState::Done, DownloadAction::Finish)
                },
                _ => (state, DownloadAction::Ignore),
            },
            DownloadEvent::Length { remote, local } => match state {
                DownloadState::AwaitingLength => {
                    let same = match local {
                        Some(l) => l == remote,
                        None => false,
                    };
                    if same {
                        (DownloadState::Done, DownloadAction::Finish)
                    } else {
                        (DownloadState::AwaitingStatus { total: remote }, DownloadAction::Fetch)
                    }
                },
                _ => (state, DownloadAction::Ignore),
            },
            DownloadEvent::Status { code } => match state {
                DownloadState::AwaitingStatus { total } => if code == 200 || code == 206 {
                    (
                        DownloadState::Receiving { done: 0, total },
                        DownloadAction::Progress { done: 0, total },
                    )
                } else {
                    (
                        DownloadState::Failed,
                        DownloadAction::Fail(IngestError::UnexpectedStatus(code)),
                    )
                },
                _ => (state, DownloadAction::Ignore),
            },
            DownloadEvent::Chunk { len } => match state {
                DownloadState::Receiving { done, total } => {
                    let next: u64 = if len > u64::MAX - done {
                        u64::MAX
                    } else {
                        done + len
                    };
                    (
                        DownloadState::Receiving { done: next, total },
                        DownloadAction::Progress { done: next, total },
                    )
                },
                _ => (state, DownloadAction::Ignore),
            },
            DownloadEvent::BodyEnd => match state {
                DownloadState::Receiving { done, total } => (
                    DownloadState::Done,
                    DownloadAction::Finish,
                ),
                _ => (state, DownloadAction::Ignore),
            },
        },
    }
}

/// The job state that shows a download's progress.
pub fn downloading_state(done: u64, total: u64) -> (s: JobState)
    ensures
        s == (JobState::Downloading { done, total }),
{
    JobState::Downloading { done, total }
}

/// Idempotent download. A run that finds a file of exactly the reported
/// length asks for no body and is complete at once. So where nothing changes
/// on the remote side, a run fetches at most once, the run after it fetches
/// nothing, and two runs that start without a file fetch exactly once.
pub proof fn lemma_download_idempotent(remote: u64, local: Option<u64>)
    ensures
        download_next(
            DownloadState::AwaitingLength,
            DownloadEvent::Length { remote, local: Some(remote) },
        ) == (DownloadState::Done, DownloadAction::Finish),
        fetches_in_run(remote, local) <= 1,
        local_after_run(remote, local) == Some(remote),
        fetches_in_run(remote, local_after_run(remote, local)) == 0,
        fetches_in_run(remote, None) + fetches_in_run(remote, local_after_run(remote, None))
            == 1,
{
}

} // verus!
