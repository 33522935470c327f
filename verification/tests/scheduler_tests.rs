use peaks_service::errors::{DeliveryError, ExtractionError};
use peaks_service::notify::{classify_response, deliver, status_is_success};
use peaks_service::peaks::decimate;
use peaks_service::payload::peaks_payload;
use peaks_service::scheduler::{process_task, settle_task, should_delete_file, AttemptOutcome};
use peaks_service::store::TaskStore;
use peaks_service::task::Task;

#[test]
fn success_statuses_are_exactly_2xx() {
    assert!(status_is_success(200));
    assert!(status_is_success(204));
    assert!(status_is_success(299));
    assert!(!status_is_success(199));
    assert!(!status_is_success(300));
    assert!(!status_is_success(404));
    assert!(!status_is_success(500));
}

#[test]
fn classification_follows_the_completion_rule() {
    assert_eq!(classify_response(Ok(200)), Ok(()));
    assert_eq!(classify_response(Ok(204)), Ok(()));
    assert_eq!(classify_response(Ok(299)), Ok(()));
    assert_eq!(
        classify_response(Ok(199)),
        Err(DeliveryError::UnsuccessfulStatus(199))
    );
    assert_eq!(
        classify_response(Ok(404)),
        Err(DeliveryError::UnsuccessfulStatus(404))
    );
    assert_eq!(
        classify_response(Ok(500)),
        Err(DeliveryError::UnsuccessfulStatus(500))
    );
    assert_eq!(
        classify_response(Err(DeliveryError::Transport)),
        Err(DeliveryError::Transport)
    );
}

#[test]
fn failed_extraction_leaves_task_unchanged() {
    let mut store = TaskStore::new();
    let id = store
        .insert(Task::new("tracks/a.mp3".to_string(), "http://x/cb".to_string()))
        .unwrap();
    let task = store.list_pending().pop().unwrap();

    let outcome = process_task(&task, Err(ExtractionError::Unreadable), 100);
    assert!(matches!(outcome, AttemptOutcome::ExtractionFailed));
    assert!(!should_delete_file(&outcome));

    let removed = settle_task(&mut store, id, &outcome);
    assert!(!removed);
    let pending = store.list_pending();
    assert_eq!(pending.len(), 1);
    assert_eq!(pending[0].id, id);
    assert_eq!(pending[0].file_path, "tracks/a.mp3");
    assert_eq!(pending[0].callback_api_url, "http://x/cb");
}

#[test]
fn failed_delivery_keeps_task_and_file() {
    let mut store = TaskStore::new();
    // Nothing listens on this port: the delivery attempt is refused at once.
    let id = store
        .insert(Task::new("tracks/a.mp3".to_string(), "http://127.0.0.1:1/cb".to_string()))
        .unwrap();
    let task = store.list_pending().pop().unwrap();

    let samples = vec!["0.1".to_string(), "0.4".to_string(), "0.2".to_string()];
    let outcome = process_task(&task, Ok(samples), 1);
    assert!(matches!(outcome, AttemptOutcome::DeliveryFailed));
    // The source file is only deleted after a successful delivery.
    assert!(!should_delete_file(&outcome));

    let removed = settle_task(&mut store, id, &outcome);
    assert!(!removed);
    let pending = store.list_pending();
    assert_eq!(pending.len(), 1);
    assert_eq!(pending[0].id, id);
    assert_eq!(pending[0].file_path, "tracks/a.mp3");
}

#[test]
fn delivery_to_unreachable_callback_reports_transport_failure() {
    let r = deliver("http://127.0.0.1:1/cb", "{\"peaks\":[]}");
    assert_eq!(r, Err(DeliveryError::Transport));
}

#[test]
fn delivered_task_is_completed_end_to_end() {
    let mut store = TaskStore::new();
    let id = store
        .insert(Task::new("tracks/a.mp3".to_string(), "http://x/cb".to_string()))
        .unwrap();

    // Extraction yielded these raw samples; the peaks are their decimation.
    let raw = vec!["0.1".to_string(), "0.4".to_string(), "0.2".to_string()];
    let peaks = decimate(&raw, 1);
    assert_eq!(peaks_payload(&peaks), "{\"peaks\":[0.1,0.4,0.2]}");

    // The callback answered 200: the attempt is a delivery.
    assert!(status_is_success(200));
    let outcome = AttemptOutcome::Delivered;
    // The source file is due for deletion, then the record is removed.
    assert!(should_delete_file(&outcome));
    let removed = settle_task(&mut store, id, &outcome);
    assert!(removed);
    assert!(store.list_pending().is_empty());
}

#[test]
fn settling_a_delivered_task_removes_only_that_record() {
    let mut store = TaskStore::new();
    let ida = store
        .insert(Task::new("tracks/a.mp3".to_string(), "http://x/cb".to_string()))
        .unwrap();
    let idb = store
        .insert(Task::new("tracks/b.mp3".to_string(), "http://y/cb".to_string()))
        .unwrap();
    let removed = settle_task(&mut store, ida, &AttemptOutcome::Delivered);
    assert!(removed);
    let pending = store.list_pending();
    assert_eq!(pending.len(), 1);
    assert_eq!(pending[0].id, idb);
}
