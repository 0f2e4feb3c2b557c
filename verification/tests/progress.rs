use playlist_downloader::progress::ProgressState;

#[test]
fn fresh_progress_has_nothing_downloaded() {
    let progress = ProgressState::new(500);
    assert_eq!(progress, ProgressState { total_bytes: 500, downloaded_bytes: 0 });
    assert!(!progress.is_complete());
}

#[test]
fn advance_adds_the_chunk_length() {
    let progress = ProgressState::new(500).advance(120);
    assert_eq!(progress, ProgressState { total_bytes: 500, downloaded_bytes: 120 });
    let progress = progress.advance(80);
    assert_eq!(progress, ProgressState { total_bytes: 500, downloaded_bytes: 200 });
}

#[test]
fn advance_stops_at_the_total() {
    let progress = ProgressState { total_bytes: 500, downloaded_bytes: 450 };
    assert_eq!(progress.advance(50).downloaded_bytes, 500);
    assert_eq!(progress.advance(51).downloaded_bytes, 500);
    assert_eq!(progress.advance(usize::MAX).downloaded_bytes, 500);
    assert!(progress.advance(50).is_complete());
}

#[test]
fn advance_by_nothing_changes_nothing() {
    let progress = ProgressState { total_bytes: 500, downloaded_bytes: 450 };
    assert_eq!(progress.advance(0), progress);
}

#[test]
fn advance_does_not_overflow_near_the_top() {
    let progress = ProgressState { total_bytes: u64::MAX, downloaded_bytes: u64::MAX - 3 };
    assert_eq!(progress.advance(2).downloaded_bytes, u64::MAX - 1);
    assert_eq!(progress.advance(usize::MAX).downloaded_bytes, u64::MAX);
}

#[test]
fn advance_brings_a_count_above_the_total_back_to_it() {
    let progress = ProgressState { total_bytes: 10, downloaded_bytes: 25 };
    assert_eq!(progress.advance(1), ProgressState { total_bytes: 10, downloaded_bytes: 10 });
}

#[test]
fn downloaded_never_falls_and_never_passes_the_total() {
    let mut progress = ProgressState::new(1000);
    for chunk in [0usize, 1, 300, 0, 500, 198, 1, 1, 700] {
        let next = progress.advance(chunk);
        assert!(next.downloaded_bytes >= progress.downloaded_bytes);
        assert!(next.downloaded_bytes <= next.total_bytes);
        assert_eq!(next.total_bytes, 1000);
        progress = next;
    }
    assert_eq!(progress.downloaded_bytes, 1000);
}

#[test]
fn empty_transfer_is_complete_at_once() {
    assert!(ProgressState::new(0).is_complete());
}
