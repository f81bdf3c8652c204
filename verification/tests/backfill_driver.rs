//! The backfill driver's paging and halting decisions.

use lolfetch::backfill::{ingest_page, Backfill, MatchCriteria, RANKED_SOLO_QUEUE_ID};
use lolfetch::cache::Cache;
use lolfetch::models::matches::{GameInfo, MatchInfo};
use lolfetch::split::Split;

fn record(id: &str, game_creation: i64, game_duration: i64, game_version: &str) -> MatchInfo {
    MatchInfo {
        id: id.to_string(),
        info: GameInfo {
            game_creation,
            game_duration,
            game_start_timestamp: game_creation,
            game_version: game_version.to_string(),
            participants: vec![],
            teams: vec![],
        },
        timeline: None,
    }
}

#[test]
fn pages_are_capped_and_count_down_the_target() {
    let mut backfill = Backfill::new(0, Some(250));
    assert_eq!(
        backfill.next_request(),
        Some(MatchCriteria {
            count: 100,
            queue: Some(RANKED_SOLO_QUEUE_ID),
            start_at: Some(0),
        })
    );
    assert_eq!(
        backfill.next_request(),
        Some(MatchCriteria {
            count: 100,
            queue: Some(RANKED_SOLO_QUEUE_ID),
            start_at: Some(100),
        })
    );
    assert_eq!(
        backfill.next_request(),
        Some(MatchCriteria {
            count: 50,
            queue: Some(RANKED_SOLO_QUEUE_ID),
            start_at: Some(200),
        })
    );
    assert_eq!(backfill.next_request(), None);
}

#[test]
fn offset_starts_at_the_cache_size() {
    let mut backfill = Backfill::new(42, Some(10));
    let q = backfill.next_request().expect("a page is owed");
    assert_eq!(q.start_at, Some(42));
    assert_eq!(q.count, 10);
}

#[test]
fn unbounded_sessions_keep_asking_for_full_pages() {
    let mut backfill = Backfill::new(0, None);
    for i in 0..5 {
        let q = backfill.next_request().expect("unbounded sessions always owe a page");
        assert_eq!(q.count, 100);
        assert_eq!(q.start_at, Some(100 * i));
    }
}

#[test]
fn an_empty_page_ends_the_session() {
    let mut backfill = Backfill::new(0, None);
    backfill.next_request().expect("a page is owed");
    backfill.record_page(true, false);
    assert_eq!(backfill.next_request(), None);
}

#[test]
fn ingest_accepts_skips_and_halts_in_order() {
    let mut cache = Cache::new(Split::Split2);
    let seeded = record("A", 50, 1800, "14.15.1");
    assert!(cache.insert(seeded.id.clone(), seeded).is_ok());

    let page = vec![
        record("A", 50, 1800, "14.15.1"),   // already cached: skipped
        record("B", 100, 90, "14.15.1"),    // remake: skipped
        record("C", 200, 1800, "14.16.1"),  // valid: accepted
        record("D", 300, 1800, "14.3.1"),   // stale split: halts the page
        record("E", 400, 1800, "14.15.1"),  // never reached
    ];
    let halted = ingest_page(&mut cache, page);
    assert!(halted);
    assert_eq!(cache.len(), 2);
    assert!(cache.contains(&"C".to_string()));
    assert!(!cache.contains(&"D".to_string()));
    assert!(!cache.contains(&"E".to_string()));
}

#[test]
fn a_clean_page_does_not_halt() {
    let mut cache = Cache::new(Split::Split2);
    let page = vec![
        record("A", 100, 1800, "14.15.1"),
        record("B", 200, 1800, "14.16.1"),
    ];
    assert!(!ingest_page(&mut cache, page));
    assert_eq!(cache.len(), 2);
}

#[test]
fn halt_on_mismatch_stops_all_further_page_requests() {
    let mut cache = Cache::new(Split::Split2);
    let mut backfill = Backfill::new(cache.len(), Some(300));
    let request = backfill.next_request().expect("a page is owed");
    assert_eq!(request.count, 100);

    // The fetched page holds a record from a prior split.
    let page = vec![
        record("A", 100, 1800, "14.15.1"),
        record("B", 200, 1800, "14.3.1"),
        record("C", 300, 1800, "14.15.1"),
    ];
    let halted = ingest_page(&mut cache, page);
    backfill.record_page(false, halted);

    // The target is far from reached, but no further page is requested.
    assert_eq!(backfill.next_request(), None);
    assert_eq!(backfill.next_request(), None);
    assert_eq!(cache.len(), 1);
}
