use shc::models::{AddFileResponse, ShcFile, UploadStatus};
use shc::session::ApiError;
use shc::transfer::{
    download_url, DownloadJob, ProgressTracker, StreamEnd, TransferEnd, TransferError,
    TransferProgress, UploadAction, UploadJob, UploadOutcome, UploadPhase,
};

fn ticket() -> AddFileResponse {
    AddFileResponse {
        upload_url: "https://store.example/put/abc".to_string(),
        file_id: "f1".to_string(),
        file_name: "notes.txt".to_string(),
        is_public: false,
    }
}

fn file(download_url: Option<&str>) -> ShcFile {
    ShcFile {
        name: "notes.txt".to_string(),
        id: "f1".to_string(),
        extension: "txt".to_string(),
        mime_type: "text/plain".to_string(),
        size: 1000,
        is_public: true,
        updated_at: "2024-01-01T00:00:00Z".to_string(),
        user_id: "u1".to_string(),
        download_url: download_url.map(|s| s.to_string()),
        upload_status: "uploaded".to_string(),
    }
}

#[test]
fn status_words() {
    assert_eq!(UploadStatus::Pending.as_str(), "pending");
    assert_eq!(UploadStatus::Uploading.as_str(), "uploading");
    assert_eq!(UploadStatus::Uploaded.as_str(), "uploaded");
    assert_eq!(UploadStatus::Failed.as_str(), "failed");
}

#[test]
fn tracker_counts_chunks() {
    let mut t = ProgressTracker::new(Some(10));
    assert!(!t.is_complete());
    assert_eq!(
        t.record_chunk(4),
        Some(TransferProgress { chunk_bytes: 4, bytes_moved: 4, total_bytes: 10 })
    );
    assert_eq!(
        t.record_chunk(6),
        Some(TransferProgress { chunk_bytes: 6, bytes_moved: 10, total_bytes: 10 })
    );
    assert!(t.is_complete());
}

#[test]
fn tracker_refuses_overflow() {
    let mut t = ProgressTracker::new(None);
    assert!(t.record_chunk(u64::MAX).is_some());
    assert_eq!(t.record_chunk(1), None);
    assert_eq!(t.moved, u64::MAX);
}

#[test]
fn empty_file_upload() {
    let mut job = UploadJob::new(ticket(), 0);
    assert_eq!(job.begin(), UploadAction::SetStatus(UploadStatus::Uploading));
    assert_eq!(job.on_marked(true), UploadAction::SendBytes);
    // no chunk can be counted against an empty body
    assert_eq!(job.on_chunk(1), None);
    assert!(job.on_body_end());
    assert!(job.body_complete);
    assert_eq!(job.on_sent(TransferEnd::Completed { status: 200 }), UploadAction::SetStatus(UploadStatus::Uploaded));
    assert_eq!(job.on_final_status(true), UploadOutcome::Uploaded { status_recorded: true });
    assert_eq!(job.statuses, vec![UploadStatus::Uploading, UploadStatus::Uploaded]);
    assert_eq!(job.progress.moved, 0);
    assert_eq!(job.phase, UploadPhase::Done { attempted: true });
}

#[test]
fn upload_in_chunks_sums_to_size() {
    let mut job = UploadJob::new(ticket(), 10);
    job.begin();
    job.on_marked(true);
    let mut sum = 0;
    for len in [3u64, 3, 4] {
        let p = job.on_chunk(len).unwrap();
        sum += p.chunk_bytes;
        assert_eq!(p.total_bytes, 10);
    }
    assert_eq!(sum, 10);
    assert!(job.on_body_end());
    assert_eq!(job.on_sent(TransferEnd::Completed { status: 200 }), UploadAction::SetStatus(UploadStatus::Uploaded));
    assert_eq!(job.on_final_status(false), UploadOutcome::Uploaded { status_recorded: false });
}

#[test]
fn upload_transport_failure_marks_failed() {
    let mut job = UploadJob::new(ticket(), 10);
    job.begin();
    job.on_marked(true);
    job.on_chunk(5);
    assert_eq!(job.on_sent(TransferEnd::Transport), UploadAction::SetStatus(UploadStatus::Failed));
    assert_eq!(
        job.on_final_status(true),
        UploadOutcome::Failed { error: TransferError::Transport, status_recorded: true }
    );
    assert_eq!(job.statuses, vec![UploadStatus::Uploading, UploadStatus::Failed]);
}

#[test]
fn upload_rejected_or_vanished_file_marks_failed() {
    let mut job = UploadJob::new(ticket(), 10);
    job.begin();
    job.on_marked(true);
    assert_eq!(job.on_sent(TransferEnd::Completed { status: 403 }), UploadAction::SetStatus(UploadStatus::Failed));
    assert_eq!(job.error, Some(TransferError::Remote { status: 403 }));

    let mut job = UploadJob::new(ticket(), 10);
    job.begin();
    job.on_marked(true);
    assert_eq!(job.on_sent(TransferEnd::LocalIo), UploadAction::SetStatus(UploadStatus::Failed));
    assert_eq!(job.error, Some(TransferError::LocalIo));
}

#[test]
fn upload_body_short_of_declared_size_is_refused() {
    let mut job = UploadJob::new(ticket(), 10);
    job.begin();
    job.on_marked(true);
    job.on_chunk(7);
    assert!(!job.on_body_end());
    assert!(!job.body_complete);
    // the aborted body ends the transfer with a local failure
    assert_eq!(job.on_sent(TransferEnd::LocalIo), UploadAction::SetStatus(UploadStatus::Failed));
    assert_eq!(job.statuses, vec![UploadStatus::Uploading, UploadStatus::Failed]);
}

#[test]
fn upload_chunk_past_declared_size_is_refused() {
    let mut job = UploadJob::new(ticket(), 10);
    job.begin();
    job.on_marked(true);
    assert!(job.on_chunk(8).is_some());
    assert_eq!(job.on_chunk(3), None);
    assert_eq!(job.progress.moved, 8);
    assert_eq!(
        job.on_chunk(2),
        Some(TransferProgress { chunk_bytes: 2, bytes_moved: 10, total_bytes: 10 })
    );
}

#[test]
fn upload_success_status_means_uploaded() {
    let mut job = UploadJob::new(ticket(), 4);
    job.begin();
    job.on_marked(true);
    job.on_chunk(4);
    assert_eq!(job.on_sent(TransferEnd::Completed { status: 200 }), UploadAction::SetStatus(UploadStatus::Uploaded));
    assert_eq!(job.error, None);
    assert_eq!(job.statuses, vec![UploadStatus::Uploading, UploadStatus::Uploaded]);
}

#[test]
fn upload_stops_when_uploading_cannot_be_marked() {
    let mut job = UploadJob::new(ticket(), 10);
    job.begin();
    assert_eq!(job.on_marked(false), UploadAction::Finish(UploadOutcome::NotStarted));
    assert_eq!(job.phase, UploadPhase::Done { attempted: false });
    assert_eq!(job.statuses, vec![UploadStatus::Uploading]);
    assert_eq!(job.progress.moved, 0);
}

#[test]
fn interrupted_download() {
    let mut job = DownloadJob::open(200, Some(1000)).unwrap();
    let p = job.on_chunk(400).unwrap();
    assert_eq!(p, TransferProgress { chunk_bytes: 400, bytes_moved: 400, total_bytes: 1000 });
    let out = job.finish(StreamEnd::Transport);
    assert_eq!(out.result, Err(TransferError::Transport));
    assert!(!out.increment_download_count);
    assert_eq!(job.progress.moved, 400);
}

#[test]
fn complete_download_counts_once() {
    let mut job = DownloadJob::open(200, Some(1000)).unwrap();
    job.on_chunk(600);
    job.on_chunk(400);
    let out = job.finish(StreamEnd::Finished);
    assert_eq!(out.result, Ok(1000));
    assert!(out.increment_download_count);
}

#[test]
fn download_without_declared_length_completes() {
    let mut job = DownloadJob::open(200, None).unwrap();
    let p = job.on_chunk(42).unwrap();
    assert_eq!(p.total_bytes, 0);
    let out = job.finish(StreamEnd::Finished);
    assert_eq!(out.result, Ok(42));
    assert!(out.increment_download_count);
}

#[test]
fn download_errors() {
    assert_eq!(DownloadJob::open(404, Some(3)).err(), Some(TransferError::Remote { status: 404 }));
    let mut job = DownloadJob::open(200, Some(1000)).unwrap();
    job.on_chunk(10);
    let out = job.finish(StreamEnd::LocalIo);
    assert_eq!(out.result, Err(TransferError::LocalIo));
    assert!(!out.increment_download_count);
    let mut job = DownloadJob::open(200, Some(1000)).unwrap();
    job.on_chunk(10);
    let out = job.finish(StreamEnd::Finished);
    assert_eq!(out.result, Err(TransferError::LengthMismatch { expected: 1000, moved: 10 }));
    assert!(!out.increment_download_count);
}

#[test]
fn download_url_of_file() {
    assert_eq!(download_url(&file(Some("https://store.example/get/f1"))), Ok("https://store.example/get/f1".to_string()));
    assert_eq!(download_url(&file(None)), Err(ApiError::Protocol));
}
