use ygg_admin::upload::{
    allowed_mime_types, escape_closes, pause_after_upload, paste_takes_files, validate_file, worker_target, PickedFile, UploadBoard,
    UploadStatus, WorkerStep, MAX_UPLOAD_BYTES,
};

#[test]
fn validate_file_accepts_supported_types_at_limit() {
    for mime in allowed_mime_types() {
        assert!(validate_file(mime, MAX_UPLOAD_BYTES).is_ok(), "{mime} 应被接受");
    }
}

#[test]
fn validate_file_rejects_svg() {
    assert!(validate_file("image/svg+xml", 1024).is_err());
}

#[test]
fn validate_file_rejects_empty_mime() {
    assert!(validate_file("", 1024).is_err());
}

#[test]
fn validate_file_rejects_oversize() {
    assert!(validate_file("image/png", MAX_UPLOAD_BYTES + 1).is_err());
}

#[test]
fn validate_file_reports_the_type_before_the_size() {
    assert_eq!(
        validate_file("text/plain", MAX_UPLOAD_BYTES + 1),
        Err("不支持的文件类型（仅 JPEG / PNG / GIF / WebP）".to_string())
    );
    assert_eq!(validate_file("image/gif", MAX_UPLOAD_BYTES + 1), Err("大小超过 5MB 限制".to_string()));
}

#[test]
fn worker_target_clamps_concurrency() {
    assert_eq!(worker_target(0), 1);
    assert_eq!(worker_target(-5), 1);
    assert_eq!(worker_target(3), 3);
    assert_eq!(worker_target(99), 32);
}

#[test]
fn pause_scales_with_workers() {
    assert_eq!(pause_after_upload(true, 3), None);
    assert_eq!(pause_after_upload(false, 3), Some(1500));
    assert_eq!(pause_after_upload(false, 100), Some(16000));
}

fn file(name: &str, mime: &str, size: u64) -> PickedFile {
    PickedFile { name: name.to_string(), size_label: "1 KB".to_string(), mime: mime.to_string(), size }
}

#[test]
fn enqueue_marks_rejected_files_and_queues_the_rest() {
    let mut board = UploadBoard::new();
    let files = vec![file("a.png", "image/png", 10), file("b.svg", "image/svg+xml", 10), file("c.jpg", "image/jpeg", 10)];
    let r = board.enqueue(&files, 2);
    assert_eq!(r.ids, vec![1, 2, 3]);
    assert_eq!(r.spawn, 2);
    assert_eq!(board.items.len(), 3);
    assert!(matches!(board.items[0].status, UploadStatus::Queued));
    assert!(matches!(&board.items[1].status, UploadStatus::Failed(m) if m == "不支持的文件类型（仅 JPEG / PNG / GIF / WebP）"));
    assert_eq!(board.queue.len(), 2);
    assert_eq!(board.handles, vec![1, 3]);
    assert_eq!(board.batches.len(), 1);
    assert_eq!(board.batches[0].remaining, 2);
}

#[test]
fn batch_notifies_once_after_its_last_job() {
    let mut board = UploadBoard::new();
    let files = vec![file("a.png", "image/png", 10), file("b.png", "image/png", 10)];
    let r = board.enqueue(&files, 1);
    assert_eq!(r.spawn, 1);
    let first = match board.take_job() {
        WorkerStep::Upload(j) => j,
        _ => panic!("expected an upload"),
    };
    assert!(matches!(board.items[0].status, UploadStatus::Uploading));
    let done = board.finish_job(first, Some(Ok(())), 1);
    assert!(!done.notify);
    assert_eq!(done.pause_ms, Some(500));
    let second = match board.take_job() {
        WorkerStep::Upload(j) => j,
        _ => panic!("expected an upload"),
    };
    let done = board.finish_job(second, Some(Err("boom".to_string())), 1);
    assert!(done.notify);
    assert_eq!(done.pause_ms, None);
    assert!(matches!(board.items[0].status, UploadStatus::Done));
    assert!(matches!(&board.items[1].status, UploadStatus::Failed(m) if m == "boom"));
    // A job that is no longer in flight changes nothing.
    let again = board.finish_job(second, Some(Ok(())), 1);
    assert!(!again.notify);
    assert!(matches!(board.take_job(), WorkerStep::Exit));
    assert_eq!(board.active_workers, 0);
}

#[test]
fn batch_with_only_failures_does_not_notify() {
    let mut board = UploadBoard::new();
    board.enqueue(&vec![file("a.png", "image/png", 10)], 1);
    let job = match board.take_job() {
        WorkerStep::Upload(j) => j,
        _ => panic!("expected an upload"),
    };
    let done = board.finish_job(job, Some(Err("x".to_string())), 1);
    assert!(!done.notify);
}

#[test]
fn escape_closes_only_a_shown_dialog() {
    assert!(escape_closes(true, "Escape"));
    assert!(!escape_closes(false, "Escape"));
    assert!(!escape_closes(true, "Enter"));
}

#[test]
fn paste_is_taken_only_with_files_while_shown() {
    assert!(paste_takes_files(true, Some(2)));
    assert!(!paste_takes_files(true, Some(0)));
    assert!(!paste_takes_files(true, None));
    assert!(!paste_takes_files(false, Some(2)));
}
