use s3_transfer::stream::ProgressObserver;

#[test]
fn test_progress_update_progress_cb() {
    let mut observer = ProgressObserver::new(true);
    let chunk = vec![1u8, 2u8, 3u8];
    assert_eq!(observer.observe_chunk(&chunk), Some(3));
    observer.observe_end();
}

#[test]
fn test_observer_reports_each_chunk_once_in_order() {
    let mut observer = ProgressObserver::new(true);
    let chunks: Vec<Vec<u8>> = vec![vec![1, 2, 3], vec![], vec![4, 5]];
    let mut reports: Vec<usize> = Vec::new();
    for chunk in &chunks {
        if let Some(n) = observer.observe_chunk(chunk) {
            reports.push(n);
        }
    }
    observer.observe_end();
    assert_eq!(reports, vec![3, 0, 2]);
    let total: usize = reports.iter().sum();
    let bytes: usize = chunks.iter().map(|c| c.len()).sum();
    assert_eq!(total, bytes);
}

#[test]
fn test_observer_without_callback_reports_nothing() {
    let mut observer = ProgressObserver::new(false);
    assert_eq!(observer.observe_chunk(&[1, 2, 3]), None);
    assert_eq!(observer.observe_chunk(&[4]), None);
    observe_end_silently(observer);
}

fn observe_end_silently(mut observer: ProgressObserver) {
    observer.observe_end();
}

#[test]
fn test_observer_failure_reports_nothing() {
    let mut observer = ProgressObserver::new(true);
    assert_eq!(observer.observe_chunk(&[9, 9]), Some(2));
    observer.observe_failure();
}
