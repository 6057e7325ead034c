use vstd::prelude::*;
use crate::models::{AddFileResponse, ShcFile, UploadStatus};
use crate::session::ApiError;

verus! {

/// Total of a run of chunk sizes.
pub open spec fn sum_of(s: Seq<nat>) -> nat
    decreases s.len(),
{
    if s.len() == 0 {
        0
    } else {
        sum_of(s.drop_last()) + s.last()
    }
}

/// What the caller's progress sink receives after each chunk.
#[derive(Clone, Copy, Debug, PartialEq, Eq, Structural)]
pub struct TransferProgress {
    /// Bytes in this chunk.
    pub chunk_bytes: u64,
    /// Bytes moved so far, this chunk included.
    pub bytes_moved: u64,
    /// The declared size, or 0 when it is unknown.
    pub total_bytes: u64,
}

/// Counts the bytes of a transfer, chunk by chunk.
pub struct ProgressTracker {
    pub moved: u64,
    pub total: Option<u64>,
    /// The `chunk_bytes` of every progress event handed out, in order.
    pub reported: Ghost<Seq<nat>>,
}

impl ProgressTracker {
    pub open spec fn wf(&self) -> bool {
        &&& self.moved == sum_of(self.reported@)
        &&& forall|i: int| 0 <= i < self.reported@.len() ==> self.reported@[i] > 0
    }

    /// A tracker with nothing moved yet.
    pub fn new(total: Option<u64>) -> (r: ProgressTracker)
        ensures
            r.wf(),
            r.moved == 0,
            r.total == total,
            r.reported@ == Seq::<nat>::empty(),
    {
        ProgressTracker { moved: 0, total, reported: Ghost(Seq::empty()) }
    }

    /// Whether exactly the declared number of bytes has moved (any number
    /// will do when none was declared).
    pub fn is_complete(&self) -> (r: bool)
        ensures
            r == match self.total {
                Some(t) => self.moved == t,
                None => true,
            },
    {
        match self.total {
            Some(t) => self.moved == t,
            None => true,
        }
    }

    /// Counts one non-empty chunk and returns the progress event for it;
    /// `None`, with nothing counted, when the running total would not fit in
    /// a `u64`.
    pub fn record_chunk(&mut self, len: u64) -> (r: Option<TransferProgress>)
        requires
            old(self).wf(),
            len > 0,
        ensures
            final(self).wf(),
            final(self).total == old(self).total,
            old(self).moved + len > u64::MAX ==> r is None && *final(self) == *old(self),
            old(self).moved + len <= u64::MAX ==> {
                &&& final(self).moved == old(self).moved + len
                &&& final(self).reported@ == old(self).reported@.push(len as nat)
                &&& r == Some(TransferProgress {
                    chunk_bytes: len,
                    bytes_moved: final(self).moved,
                    total_bytes: match old(self).total {
                        Some(t) => t,
                        None => 0,
                    },
                })
            },
    {
        if len > u64::MAX - self.moved {
            return None;
        }
        self.moved = self.moved + len;
        self.reported = Ghost(self.reported@.push(len as nat));
        assert(self.reported@.drop_last() =~= old(self).reported@);
        let total_bytes = match self.total {
            Some(t) => t,
            None => 0,
        };
        Some(TransferProgress { chunk_bytes: len, bytes_moved: self.moved, total_bytes })
    }
}

/// How a byte transfer ended.
#[derive(Clone, Copy, Debug, PartialEq, Eq, Structural)]
pub enum TransferEnd {
    /// The remote side answered with this HTTP status.
    Completed { status: u16 },
    /// The connection failed.
    Transport,
    /// Reading or writing the local file failed.
    LocalIo,
}

/// Why a byte transfer did not succeed.
#[derive(Clone, Copy, Debug, PartialEq, Eq, Structural)]
pub enum TransferError {
    Transport,
    Remote { status: u16 },
    LocalIo,
    /// The bytes moved do not match the declared size.
    LengthMismatch { expected: u64, moved: u64 },
}

/// The failure, if any, that a byte transfer ending in `end` amounts to:
/// only a 200 from the remote side is a success.
pub open spec fn transfer_failure(end: TransferEnd) -> Option<TransferError> {
    match end {
        TransferEnd::Transport => Some(TransferError::Transport),
        TransferEnd::LocalIo => Some(TransferError::LocalIo),
        TransferEnd::Completed { status } => if status != 200 {
            Some(TransferError::Remote { status })
        } else {
            None
        },
    }
}

fn judge_transfer(end: TransferEnd) -> (r: Option<TransferError>)
    ensures
        r == transfer_failure(end),
{
    match end {
        TransferEnd::Transport => Some(TransferError::Transport),
        TransferEnd::LocalIo => Some(TransferError::LocalIo),
        TransferEnd::Completed { status } => {
            if status != 200 {
                Some(TransferError::Remote { status })
            } else {
                None
            }
        },
    }
}

/// A run of positive chunk sizes adds up to at least its length.
pub proof fn lemma_sum_at_least_count(s: Seq<nat>)
    requires
        forall|i: int| 0 <= i < s.len() ==> s[i] > 0,
    ensures
        sum_of(s) >= s.len(),
    decreases s.len(),
{
    if s.len() > 0 {
        lemma_sum_at_least_count(s.drop_last());
    }
}

/// Where an upload stands.
#[derive(Clone, Copy, Debug, PartialEq, Eq, Structural)]
pub enum UploadPhase {
    /// The file is registered; nothing has been asked of the service yet.
    Registered,
    /// Waiting for the service to mark the file `uploading`.
    MarkingUploading,
    /// The bytes are on their way.
    Streaming,
    /// The transfer is over; waiting for the terminal status to be recorded.
    Finalizing { succeeded: bool },
    /// Nothing is left to do. `attempted` tells whether bytes were sent at all.
    Done { attempted: bool },
}

/// What the caller must do next for an upload.
#[derive(Clone, Copy, Debug, PartialEq, Eq, Structural)]
pub enum UploadAction {
    /// Ask the service to set the file's status.
    SetStatus(UploadStatus),
    /// Stream the file's bytes to the ticket's upload URL.
    SendBytes,
    /// The upload is over.
    Finish(UploadOutcome),
}

/// How an upload ended. The transfer's own result and the recording of the
/// file's terminal status are reported apart.
#[derive(Clone, Copy, Debug, PartialEq, Eq, Structural)]
pub enum UploadOutcome {
    /// The service could not mark the file `uploading`: no byte was sent.
    NotStarted,
    Uploaded { status_recorded: bool },
    Failed { error: TransferError, status_recorded: bool },
}

/// One upload of a registered file: the three-phase status protocol around
/// the byte transfer. The body streamed is held to the declared size: no
/// chunk may take it past that size, and it may end only on exactly that size.
pub struct UploadJob {
    pub ticket: AddFileResponse,
    pub phase: UploadPhase,
    pub progress: ProgressTracker,
    /// Every status the job has asked the service to set, in order.
    pub statuses: Vec<UploadStatus>,
    /// Set once the body has ended on exactly the declared number of bytes.
    pub body_complete: bool,
    /// The error that ended the transfer, once it has ended.
    pub error: Option<TransferError>,
}

impl UploadJob {
    pub open spec fn wf(&self) -> bool {
        &&& self.progress.wf()
        &&& self.progress.total is Some
        &&& self.progress.moved <= self.progress.total->0
        &&& self.body_complete ==> self.progress.moved == self.progress.total->0
        &&& match self.phase {
            UploadPhase::Registered => self.statuses@ == Seq::<UploadStatus>::empty()
                && self.progress.reported@.len() == 0,
            UploadPhase::MarkingUploading => self.statuses@ == seq![UploadStatus::Uploading]
                && self.progress.reported@.len() == 0,
            UploadPhase::Streaming => self.statuses@ == seq![UploadStatus::Uploading],
            UploadPhase::Finalizing { succeeded } => self.finished_transfer(succeeded),
            UploadPhase::Done { attempted } => if attempted {
                self.finished_transfer(self.error is None)
            } else {
                self.statuses@ == seq![UploadStatus::Uploading] && self.progress.reported@.len() == 0
            },
        }
    }

    /// The status log after a transfer that did or did not succeed.
    pub open spec fn finished_transfer(&self, succeeded: bool) -> bool {
        &&& succeeded == self.error is None
        &&& self.statuses@ == seq![
            UploadStatus::Uploading,
            if succeeded { UploadStatus::Uploaded } else { UploadStatus::Failed },
        ]
    }

    /// A job for a registered file of `total_size` bytes.
    pub fn new(ticket: AddFileResponse, total_size: u64) -> (r: UploadJob)
        ensures
            r.wf(),
            r.ticket == ticket,
            r.phase == UploadPhase::Registered,
            r.progress.moved == 0,
            r.progress.total == Some(total_size),
            r.progress.reported@ == Seq::<nat>::empty(),
            r.statuses@ == Seq::<UploadStatus>::empty(),
            !r.body_complete,
            r.error is None,
    {
        UploadJob {
            ticket,
            phase: UploadPhase::Registered,
            progress: ProgressTracker::new(Some(total_size)),
            statuses: Vec::new(),
            body_complete: false,
            error: None,
        }
    }

    /// First step: the file is marked `uploading` before any byte moves.
    pub fn begin(&mut self) -> (r: UploadAction)
        requires
            old(self).wf(),
            old(self).phase == UploadPhase::Registered,
        ensures
            final(self).wf(),
            final(self).phase == UploadPhase::MarkingUploading,
            r == UploadAction::SetStatus(UploadStatus::Uploading),
            final(self).statuses@ == seq![UploadStatus::Uploading],
            final(self).ticket == old(self).ticket,
            final(self).progress == old(self).progress,
            final(self).body_complete == old(self).body_complete,
    {
        self.statuses.push(UploadStatus::Uploading);
        self.phase = UploadPhase::MarkingUploading;
        UploadAction::SetStatus(UploadStatus::Uploading)
    }

    /// The service answered the `uploading` request. Bytes are sent only if
    /// it succeeded; otherwise the upload stops before any transfer.
    pub fn on_marked(&mut self, ok: bool) -> (r: UploadAction)
        requires
            old(self).wf(),
            old(self).phase == UploadPhase::MarkingUploading,
        ensures
            final(self).wf(),
            final(self).statuses == old(self).statuses,
            final(self).progress == old(self).progress,
            final(self).ticket == old(self).ticket,
            final(self).body_complete == old(self).body_complete,
            ok ==> r == UploadAction::SendBytes && final(self).phase == UploadPhase::Streaming,
            !ok ==> r == UploadAction::Finish(UploadOutcome::NotStarted)
                && final(self).phase == (UploadPhase::Done { attempted: false }),
    {
        if ok {
            self.phase = UploadPhase::Streaming;
            UploadAction::SendBytes
        } else {
            self.phase = UploadPhase::Done { attempted: false };
            UploadAction::Finish(UploadOutcome::NotStarted)
        }
    }

    /// One non-empty chunk of the file is about to go out; returns its
    /// progress event. `None`, with nothing counted, when the chunk would take
    /// the body past the declared size: the body must then be aborted.
    pub fn on_chunk(&mut self, len: u64) -> (r: Option<TransferProgress>)
        requires
            old(self).wf(),
            old(self).phase == UploadPhase::Streaming,
            !old(self).body_complete,
            len > 0,
        ensures
            final(self).wf(),
            final(self).phase == old(self).phase,
            final(self).statuses == old(self).statuses,
            final(self).ticket == old(self).ticket,
            final(self).body_complete == old(self).body_complete,
            old(self).progress.moved + len <= old(self).progress.total->0 ==> {
                &&& final(self).progress.moved == old(self).progress.moved + len
                &&& final(self).progress.total == old(self).progress.total
                &&& final(self).progress.reported@ == old(self).progress.reported@.push(len as nat)
                &&& r == Some(TransferProgress {
                    chunk_bytes: len,
                    bytes_moved: final(self).progress.moved,
                    total_bytes: old(self).progress.total->0,
                })
            },
            old(self).progress.moved + len > old(self).progress.total->0 ==> r is None
                && final(self).progress == old(self).progress,
    {
        let total = match self.progress.total {
            Some(t) => t,
            None => 0,
        };
        if len > total - self.progress.moved {
            return None;
        }
        self.progress.record_chunk(len)
    }

    /// The file has no more bytes to give. The body may end only when exactly
    /// the declared number of bytes went out; on `false` it must be aborted.
    pub fn on_body_end(&mut self) -> (r: bool)
        requires
            old(self).wf(),
            old(self).phase == UploadPhase::Streaming,
        ensures
            final(self).wf(),
            r == (old(self).progress.moved == old(self).progress.total->0),
            final(self).body_complete == (old(self).body_complete || r),
            final(self).phase == old(self).phase,
            final(self).statuses == old(self).statuses,
            final(self).progress == old(self).progress,
            final(self).ticket == old(self).ticket,
    {
        let r = self.progress.is_complete();
        if r {
            self.body_complete = true;
        }
        r
    }

    /// The byte transfer ended. It succeeded exactly when the remote side
    /// answered 200; the file is then marked `uploaded`, and otherwise `failed`.
    pub fn on_sent(&mut self, end: TransferEnd) -> (r: UploadAction)
        requires
            old(self).wf(),
            old(self).phase == UploadPhase::Streaming,
        ensures
            final(self).wf(),
            final(self).progress == old(self).progress,
            final(self).ticket == old(self).ticket,
            final(self).body_complete == old(self).body_complete,
            final(self).error == transfer_failure(end),
            final(self).phase == (UploadPhase::Finalizing { succeeded: final(self).error is None }),
            r == UploadAction::SetStatus(
                if final(self).error is None { UploadStatus::Uploaded } else { UploadStatus::Failed },
            ),
    {
        let failure = judge_transfer(end);
        let status = match failure {
            None => UploadStatus::Uploaded,
            Some(_) => UploadStatus::Failed,
        };
        self.statuses.push(status);
        assert(self.statuses@ =~= seq![UploadStatus::Uploading, status]);
        self.phase = UploadPhase::Finalizing { succeeded: failure.is_none() };
        self.error = failure;
        UploadAction::SetStatus(status)
    }

    /// The service answered the terminal status request; the upload is over.
    pub fn on_final_status(&mut self, ok: bool) -> (r: UploadOutcome)
        requires
            old(self).wf(),
            old(self).phase is Finalizing,
        ensures
            final(self).wf(),
            final(self).phase == (UploadPhase::Done { attempted: true }),
            final(self).statuses == old(self).statuses,
            final(self).progress == old(self).progress,
            final(self).body_complete == old(self).body_complete,
            final(self).error == old(self).error,
            r == match old(self).error {
                None => UploadOutcome::Uploaded { status_recorded: ok },
                Some(e) => UploadOutcome::Failed { error: e, status_recorded: ok },
            },
    {
        self.phase = UploadPhase::Done { attempted: true };
        match self.error {
            None => UploadOutcome::Uploaded { status_recorded: ok },
            Some(e) => UploadOutcome::Failed { error: e, status_recorded: ok },
        }
    }
}

/// Once an upload whose bytes were sent is over, the statuses it asked the
/// service for are exactly `uploading` then `uploaded` (the remote side
/// answered 200) or `uploading` then `failed` (any other ending):
/// `uploading` is never the last one.
pub proof fn lemma_upload_status_sequence(job: UploadJob, end: TransferEnd)
    requires
        job.wf(),
        job.phase == (UploadPhase::Done { attempted: true }),
        job.error == transfer_failure(end),
    ensures
        job.statuses@ == seq![UploadStatus::Uploading, UploadStatus::Uploaded]
            || job.statuses@ == seq![UploadStatus::Uploading, UploadStatus::Failed],
        job.statuses@.last() != UploadStatus::Uploading,
        job.statuses@.last() == UploadStatus::Uploaded <==> end == (TransferEnd::Completed {
            status: 200,
        }),
{
}

/// Once an upload's body has ended, the byte counts of its progress events
/// add up to the file's size.
pub proof fn lemma_upload_progress_adds_up(job: UploadJob)
    requires
        job.wf(),
        job.body_complete,
    ensures
        sum_of(job.progress.reported@) == job.progress.total->0,
{
}

/// An upload of an empty file hands out no progress event at all.
pub proof fn lemma_empty_upload_reports_nothing(job: UploadJob)
    requires
        job.wf(),
        job.progress.total == Some(0u64),
    ensures
        job.progress.reported@.len() == 0,
{
    lemma_sum_at_least_count(job.progress.reported@);
}

/// How the stream of a download ended.
#[derive(Clone, Copy, Debug, PartialEq, Eq, Structural)]
pub enum StreamEnd {
    /// The body ended normally.
    Finished,
    /// The connection failed mid-body.
    Transport,
    /// Writing the local file failed.
    LocalIo,
}

/// How a download ended.
#[derive(Clone, Copy, Debug)]
pub struct DownloadOutcome {
    /// The number of bytes written, or why the download failed.
    pub result: Result<u64, TransferError>,
    /// Whether to ask the service, best effort, to count the download.
    pub increment_download_count: bool,
}

/// The result of a download whose stream ended in `end` after `moved` bytes.
pub open spec fn download_result(end: StreamEnd, moved: u64, total: Option<u64>) -> Result<u64, TransferError> {
    match end {
        StreamEnd::Transport => Err(TransferError::Transport),
        StreamEnd::LocalIo => Err(TransferError::LocalIo),
        StreamEnd::Finished => match total {
            Some(t) => if moved == t {
                Ok(moved)
            } else {
                Err(TransferError::LengthMismatch { expected: t, moved })
            },
            None => Ok(moved),
        },
    }
}

/// One download of a file's bytes into a local file.
pub struct DownloadJob {
    pub progress: ProgressTracker,
    pub finished: bool,
}

/// The presigned URL to fetch a file from; a file record without one is a
/// response of the wrong shape.
pub fn download_url(file: &ShcFile) -> (r: Result<String, ApiError>)
    ensures
        match file.download_url {
            Some(u) => r == Ok::<String, ApiError>(u),
            None => r == Err::<String, ApiError>(ApiError::Protocol),
        },
{
    match &file.download_url {
        Some(u) => Ok(u.clone()),
        None => Err(ApiError::Protocol),
    }
}

impl DownloadJob {
    pub open spec fn wf(&self) -> bool {
        self.progress.wf()
    }

    /// Starts a download once the server has answered with `status`; only a
    /// 200 is streamed. `declared` is the response's declared length, if any.
    pub fn open(status: u16, declared: Option<u64>) -> (r: Result<DownloadJob, TransferError>)
        ensures
            status != 200 ==> r == Err::<DownloadJob, TransferError>(TransferError::Remote { status }),
            status == 200 ==> r is Ok && ({
                let j = r->Ok_0;
                &&& j.wf()
                &&& !j.finished
                &&& j.progress.moved == 0
                &&& j.progress.total == declared
                &&& j.progress.reported@ == Seq::<nat>::empty()
            }),
    {
        if status != 200 {
            return Err(TransferError::Remote { status });
        }
        Ok(DownloadJob { progress: ProgressTracker::new(declared), finished: false })
    }

    /// One non-empty chunk has been written to the local file; returns its
    /// progress event.
    pub fn on_chunk(&mut self, len: u64) -> (r: Option<TransferProgress>)
        requires
            old(self).wf(),
            !old(self).finished,
            len > 0,
        ensures
            final(self).wf(),
            !final(self).finished,
            final(self).progress.total == old(self).progress.total,
            old(self).progress.moved + len <= u64::MAX ==> {
                &&& final(self).progress.moved == old(self).progress.moved + len
                &&& final(self).progress.reported@ == old(self).progress.reported@.push(len as nat)
                &&& r == Some(TransferProgress {
                    chunk_bytes: len,
                    bytes_moved: final(self).progress.moved,
                    total_bytes: match old(self).progress.total {
                        Some(t) => t,
                        None => 0,
                    },
                })
            },
            old(self).progress.moved + len > u64::MAX ==> r is None && final(self).progress == old(
                self,
            ).progress,
    {
        self.progress.record_chunk(len)
    }

    /// The stream ended. The download succeeded when the body ended normally
    /// with exactly the declared number of bytes (any number when none was
    /// declared); only then is the download count to be incremented.
    pub fn finish(&mut self, end: StreamEnd) -> (r: DownloadOutcome)
        requires
            old(self).wf(),
            !old(self).finished,
        ensures
            final(self).wf(),
            final(self).finished,
            final(self).progress == old(self).progress,
            r.result == download_result(end, old(self).progress.moved, old(self).progress.total),
            r.increment_download_count == r.result is Ok,
    {
        self.finished = true;
        let result = match end {
            StreamEnd::Transport => Err(TransferError::Transport),
            StreamEnd::LocalIo => Err(TransferError::LocalIo),
            StreamEnd::Finished => {
                if self.progress.is_complete() {
                    Ok(self.progress.moved)
                } else {
                    Err(
                        TransferError::LengthMismatch {
                            expected: match self.progress.total {
                                Some(t) => t,
                                None => 0,
                            },
                            moved: self.progress.moved,
                        },
                    )
                }
            },
        };
        let increment = result.is_ok();
        DownloadOutcome { result, increment_download_count: increment }
    }
}

/// Once a download has succeeded against a declared length, the byte counts
/// of its progress events add up to that length.
pub proof fn lemma_download_progress_adds_up(job: DownloadJob, end: StreamEnd)
    requires
        job.wf(),
        job.progress.total is Some,
        download_result(end, job.progress.moved, job.progress.total) is Ok,
    ensures
        sum_of(job.progress.reported@) == job.progress.total->0,
{
}

} // verus!
