//! Bounded history store: eviction, stable addressing, viewport geometry and
//! scrolling.

use pinggraph::history::{result_at_position, HistoryStore};
use pinggraph::result::PingResult;

fn success(seq: u64, rtt_us: u64) -> PingResult {
    PingResult::success(seq, rtt_us, 0, rtt_us, 0, None)
}

#[test]
fn eviction_keeps_most_recent_and_counts_base() {
    let k = 3;
    let mut store = HistoryStore::new(k);
    for seq in 1..=5u64 {
        store.record_result(success(seq, 1000 * seq));
    }
    // After k + j results (j = 2): exactly k retained, base is j, and the
    // retained entries are the most recent k by sequence.
    assert_eq!(store.results.len(), 3);
    assert_eq!(store.result_base_seq, 2);
    let seqs: Vec<u64> = store.results.iter().map(|r| r.seq).collect();
    assert_eq!(seqs, vec![3, 4, 5]);
}

#[test]
fn no_eviction_below_capacity() {
    let mut store = HistoryStore::new(10);
    for seq in 1..=4u64 {
        store.record_result(success(seq, 5));
    }
    assert_eq!(store.results.len(), 4);
    assert_eq!(store.result_base_seq, 0);
}

#[test]
fn record_updates_statistics() {
    let mut store = HistoryStore::new(8);
    store.record_result(success(1, 100_000));
    store.record_result(PingResult::timeout(2, 0, 0));
    assert_eq!(store.stats.total_sent, 2);
    assert_eq!(store.stats.total_received, 1);
    assert_eq!(store.stats.total_lost, 1);
}

#[test]
fn total_rows_uses_stable_indices() {
    let mut store = HistoryStore::new(3);
    for seq in 1..=5u64 {
        store.record_result(success(seq, 7));
    }
    // 5 results ever, width 2: ceil(5 / 2) = 3 rows, although only 3 remain.
    assert_eq!(store.total_rows(2), 3);
    assert_eq!(store.total_rows(0), 0);
    let empty = HistoryStore::new(3);
    assert_eq!(empty.total_rows(2), 0);
}

#[test]
fn addressing_is_stable_across_eviction() {
    let mut store = HistoryStore::new(3);
    for seq in 1..=5u64 {
        store.record_result(success(seq, 7));
    }
    // Stable index 4 (the result with seq 5) at width 2 sits at row 2,
    // column 0. Viewport: 10 rows tall, bottom row 3 (live).
    let w = 2;
    let h = 10;
    let total_rows = store.total_rows(w);
    assert_eq!(total_rows, 3);
    let s = 4usize;
    let row = s / w; // 2
    let col = s % w; // 0
    let visible = total_rows.min(h);
    let empty_top = h - visible;
    let screen_row = empty_top + row;
    let got = result_at_position(
        store.results.len(),
        store.result_base_seq,
        w,
        h,
        total_rows,
        screen_row,
        col,
    );
    assert_eq!(got, Some(s - store.result_base_seq));
    assert_eq!(store.results[s - store.result_base_seq].seq, 5);
}

#[test]
fn addressing_rejects_evicted_and_future_cells() {
    let mut store = HistoryStore::new(3);
    for seq in 1..=5u64 {
        store.record_result(success(seq, 7));
    }
    // Width 2, height 10, view pinned to row 1: the cells of data row 0 hold
    // stable indices 0 and 1, both evicted (base is 2).
    assert_eq!(result_at_position(3, 2, 2, 10, 1, 9, 0), None);
    assert_eq!(result_at_position(3, 2, 2, 10, 1, 9, 1), None);
    // The cell one past the newest stable index is empty.
    assert_eq!(result_at_position(3, 2, 2, 10, 3, 9, 1), None);
    // An empty store addresses nothing.
    assert_eq!(result_at_position(0, 0, 2, 10, 0, 9, 0), None);
}

#[test]
fn scrolling_clamps_and_returns_to_live() {
    let mut store = HistoryStore::new(100);
    for seq in 1..=10u64 {
        store.record_result(success(seq, 7));
    }
    let w = 2; // 5 rows of data
    assert!(store.is_live());
    assert_eq!(store.current_view_end_row(w), 5);
    store.scroll_up(2, w);
    assert_eq!(store.view_end_row, Some(3));
    store.scroll_up(10, w);
    assert_eq!(store.view_end_row, Some(1)); // clamped to the first row
    store.scroll_down(1, w);
    assert_eq!(store.view_end_row, Some(2));
    store.scroll_down(10, w);
    assert_eq!(store.view_end_row, None); // reached the end: live again
    store.scroll_down(1, w);
    assert_eq!(store.view_end_row, None);
}

#[test]
fn scroll_up_on_empty_store_is_ignored() {
    let mut store = HistoryStore::new(4);
    store.scroll_up(3, 2);
    assert_eq!(store.view_end_row, None);
}

#[test]
fn pause_toggle_and_jump_to_live() {
    let mut store = HistoryStore::new(4);
    store.record_result(success(1, 7));
    store.scroll_up(1, 1);
    store.toggle_pause();
    assert!(store.paused);
    assert_eq!(store.view_end_row, Some(1));
    store.toggle_pause();
    assert!(!store.paused);
    assert_eq!(store.view_end_row, None); // resume jumps to live
    store.scroll_up(1, 1);
    store.toggle_pause();
    store.jump_to_live();
    assert!(!store.paused);
    assert!(store.is_live());
}

#[test]
fn get_result_and_clear() {
    let mut store = HistoryStore::new(4);
    store.record_result(success(1, 5000));
    store.record_result(success(2, 6000));
    assert_eq!(store.get_result(1).map(|r| r.seq), Some(2));
    assert!(store.get_result(2).is_none());
    store.clear_all_data();
    assert_eq!(store.results.len(), 0);
    assert_eq!(store.result_base_seq, 0);
    assert_eq!(store.stats.total_sent, 0);
    assert!(store.get_result(0).is_none());
}
