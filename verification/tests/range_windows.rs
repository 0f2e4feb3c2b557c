use playlist_downloader::range::{RangeCursor, CHUNK_SIZE};

fn walk(total_length: u64, chunk_size: u64) -> Vec<RangeCursor> {
    let mut windows = Vec::new();
    let mut cursor = RangeCursor::first(total_length, chunk_size);
    while let Some(window) = cursor {
        windows.push(window);
        cursor = window.next(chunk_size);
    }
    windows
}

fn covered(windows: &[RangeCursor]) -> u64 {
    windows.iter().map(|w| w.len()).sum()
}

#[test]
fn default_chunk_size_is_ten_kibibytes() {
    assert_eq!(CHUNK_SIZE, 10240);
}

#[test]
fn three_windows_cover_a_resource_of_25000_bytes() {
    let windows = walk(25000, 10240);
    assert_eq!(
        windows,
        vec![
            RangeCursor { total_length: 25000, window_start: 0, window_end: 10239 },
            RangeCursor { total_length: 25000, window_start: 10240, window_end: 20479 },
            RangeCursor { total_length: 25000, window_start: 20480, window_end: 24999 },
        ]
    );
    assert_eq!(covered(&windows), 25000);
}

#[test]
fn windows_are_contiguous_and_do_not_overlap() {
    for total in [2u64, 3, 99, 100, 102, 1000, 4097] {
        for chunk in [1u64, 2, 7, 100, 5000] {
            let windows = walk(total, chunk);
            if let Some(first) = windows.first() {
                assert_eq!(first.window_start, 0);
            }
            for pair in windows.windows(2) {
                assert_eq!(pair[0].window_end + 1, pair[1].window_start);
            }
            for window in &windows {
                assert!(window.window_start <= window.window_end);
                assert!(window.window_end < total);
                assert_eq!(window.total_length, total);
                assert!(window.len() <= chunk);
            }
        }
    }
}

#[test]
fn windows_cover_the_resource_unless_one_byte_is_left_over() {
    for total in 0u64..200 {
        for chunk in 1u64..20 {
            let expected = if total >= 1 && (total - 1) % chunk == 0 { total - 1 } else { total };
            assert_eq!(covered(&walk(total, chunk)), expected, "total {} chunk {}", total, chunk);
        }
    }
}

#[test]
fn a_resource_that_fits_one_window_is_asked_for_at_once() {
    assert_eq!(
        walk(10240, 10240),
        vec![RangeCursor { total_length: 10240, window_start: 0, window_end: 10239 }]
    );
    assert_eq!(
        walk(2, 10240),
        vec![RangeCursor { total_length: 2, window_start: 0, window_end: 1 }]
    );
}

#[test]
fn an_empty_resource_has_no_window() {
    assert_eq!(RangeCursor::first(0, 10240), None);
}

#[test]
fn a_single_byte_is_never_asked_for() {
    assert_eq!(RangeCursor::first(1, 10240), None);
}

#[test]
fn the_final_byte_is_left_out_after_whole_windows() {
    let windows = walk(10241, 10240);
    assert_eq!(
        windows,
        vec![RangeCursor { total_length: 10241, window_start: 0, window_end: 10239 }]
    );
    assert_eq!(covered(&windows), 10240);
}

#[test]
fn the_last_window_is_cut_to_the_resource() {
    let windows = walk(10242, 10240);
    assert_eq!(windows.len(), 2);
    assert_eq!(windows[1], RangeCursor { total_length: 10242, window_start: 10240, window_end: 10241 });
}

#[test]
fn next_stops_at_the_top_of_the_number_range() {
    let last = RangeCursor { total_length: u64::MAX, window_start: u64::MAX - 5, window_end: u64::MAX - 1 };
    assert_eq!(last.next(10), None);
    let odd = RangeCursor { total_length: u64::MAX, window_start: 0, window_end: u64::MAX };
    assert_eq!(odd.next(10), None);
}

#[test]
fn a_window_near_the_top_of_the_number_range_does_not_overflow() {
    let first = RangeCursor::first(u64::MAX, u64::MAX);
    assert_eq!(
        first,
        Some(RangeCursor { total_length: u64::MAX, window_start: 0, window_end: u64::MAX - 1 })
    );
    assert_eq!(first.unwrap().len(), u64::MAX);
}

#[test]
fn header_text_names_first_and_last_byte() {
    let window = RangeCursor { total_length: 25000, window_start: 10240, window_end: 20479 };
    assert_eq!(window.header_text(), "bytes=10240-20479");
    let first = RangeCursor { total_length: 5, window_start: 0, window_end: 4 };
    assert_eq!(first.header_text(), "bytes=0-4");
}

#[test]
fn header_value_holds_the_header_text() {
    let window = RangeCursor { total_length: 25000, window_start: 0, window_end: 10239 };
    let header = window.header();
    assert_eq!(header.as_bytes(), b"bytes=0-10239");
    assert_eq!(header.to_str().unwrap(), "bytes=0-10239");
    assert!(!header.is_sensitive());
}

#[test]
fn header_value_of_the_largest_window() {
    let window = RangeCursor { total_length: u64::MAX, window_start: 0, window_end: u64::MAX - 1 };
    assert_eq!(window.header().to_str().unwrap(), "bytes=0-18446744073709551614");
}
