//! The cache's insert validation, export ordering and reload behavior.

use lolfetch::cache::{Cache, CacheInsertError, CacheSaveOptions};
use lolfetch::models::matches::{GameInfo, MatchInfo};
use lolfetch::split::Split;

/// A record with no participant or timeline detail: enough for the cache's
/// own rules.
fn record(id: &str, game_creation: i64, game_duration: i64, game_version: &str) -> MatchInfo {
    MatchInfo {
        id: id.to_string(),
        info: GameInfo {
            game_creation,
            game_duration,
            game_start_timestamp: game_creation,
            game_version: game_version.to_string(),
            participants: vec![],
            teams: vec![],
        },
        timeline: None,
    }
}

#[test]
fn insert_accepts_a_valid_record() {
    let mut cache = Cache::new(Split::Split2);
    let r = record("EUW1_1", 100, 1800, "14.15.1");
    assert_eq!(cache.insert(r.id.clone(), r), Ok(()));
    assert_eq!(cache.len(), 1);
    assert!(!cache.is_empty());
    assert!(cache.contains(&"EUW1_1".to_string()));
    assert!(!cache.contains(&"EUW1_2".to_string()));
}

#[test]
fn duplicate_insertion_is_rejected_and_changes_nothing() {
    let mut cache = Cache::new(Split::Split2);
    let first = record("EUW1_1", 100, 1800, "14.15.1");
    assert_eq!(cache.insert(first.id.clone(), first), Ok(()));
    // The same id again, even with different detail, is refused.
    let second = record("EUW1_1", 999, 2400, "14.16.1");
    assert_eq!(
        cache.insert(second.id.clone(), second),
        Err(CacheInsertError::AlreadyExists)
    );
    assert_eq!(cache.len(), 1);
}

#[test]
fn remake_is_rejected_regardless_of_patch() {
    let mut cache = Cache::new(Split::Split2);
    // 179 seconds: one short of the three-minute cutoff, on a current patch.
    let current = record("EUW1_1", 100, 179, "14.15.1");
    assert_eq!(cache.insert(current.id.clone(), current), Err(CacheInsertError::Remake));
    // A remake from a prior split is still reported as a remake: the remake
    // check wins over the patch check.
    let stale = record("EUW1_2", 100, 100, "14.3.1");
    assert_eq!(cache.insert(stale.id.clone(), stale), Err(CacheInsertError::Remake));
    assert_eq!(cache.len(), 0);
}

#[test]
fn non_remake_from_prior_split_is_a_patch_mismatch() {
    let mut cache = Cache::new(Split::Split2);
    let stale = record("EUW1_1", 100, 1800, "14.3.1");
    assert_eq!(
        cache.insert(stale.id.clone(), stale),
        Err(CacheInsertError::PatchMismatch)
    );
    // An unclassifiable version cannot be trusted either.
    let odd = record("EUW1_2", 100, 1800, "next-patch");
    assert_eq!(cache.insert(odd.id.clone(), odd), Err(CacheInsertError::PatchMismatch));
    assert_eq!(cache.len(), 0);
}

#[test]
fn exact_duration_boundary_is_not_a_remake() {
    let mut cache = Cache::new(Split::Split2);
    let r = record("EUW1_1", 100, 180, "14.15.1");
    assert_eq!(cache.insert(r.id.clone(), r), Ok(()));
}

#[test]
fn save_returns_records_most_recent_first() {
    let mut cache = Cache::new(Split::Split2);
    for (id, creation) in [("A", 100), ("B", 300), ("C", 200)] {
        let r = record(id, creation, 1800, "14.15.1");
        assert_eq!(cache.insert(r.id.clone(), r), Ok(()));
    }
    let sorted = cache.save();
    let creations: Vec<i64> = sorted.iter().map(|m| m.info.game_creation).collect();
    assert_eq!(creations, vec![300, 200, 100]);
}

#[test]
fn save_load_round_trip_is_identity_under_the_same_split() {
    let mut cache = Cache::new(Split::Split2);
    for (id, creation) in [("A", 100), ("B", 300), ("C", 200)] {
        let r = record(id, creation, 1800, "14.15.1");
        assert_eq!(cache.insert(r.id.clone(), r), Ok(()));
    }
    let persisted = cache.entries().clone();
    let reloaded = Cache::from_entries(persisted.clone(), Split::Split2);
    assert_eq!(reloaded.entries(), &persisted);
    assert_eq!(reloaded.len(), 3);
}

#[test]
fn reload_under_a_later_split_drops_every_stale_record() {
    let mut cache = Cache::new(Split::Split2);
    let r = record("A", 100, 1800, "14.15.1");
    assert_eq!(cache.insert(r.id.clone(), r), Ok(()));
    let persisted = cache.entries().clone();
    // The split moved on between the save and this load: the round trip is
    // deliberately not stable.
    let reloaded = Cache::from_entries(persisted, Split::Split3);
    assert!(reloaded.is_empty());
}

#[test]
fn reload_keeps_only_records_of_the_current_split() {
    let entries = vec![
        ("A".to_string(), record("A", 100, 1800, "14.15.1")),
        ("B".to_string(), record("B", 200, 1800, "14.20.1")),
        ("C".to_string(), record("C", 300, 1800, "14.16.1")),
        ("C".to_string(), record("C", 400, 1800, "14.17.1")),
        ("D".to_string(), record("D", 500, 90, "14.15.1")),
    ];
    let reloaded = Cache::from_entries(entries, Split::Split2);
    // B is from the next split, the second C is a duplicate key, D is a
    // remake; A and the first C stay.
    assert_eq!(reloaded.len(), 2);
    assert!(reloaded.contains(&"A".to_string()));
    assert!(reloaded.contains(&"C".to_string()));
    assert!(!reloaded.contains(&"B".to_string()));
    assert!(!reloaded.contains(&"D".to_string()));
    assert_eq!(reloaded.entries()[1].1.info.game_creation, 300);
}

#[test]
fn unparsable_file_content_degrades_to_an_empty_cache() {
    let cache = Cache::from_parsed(None, Split::Split2);
    assert!(cache.is_empty());
    assert_eq!(cache.len(), 0);
}

#[test]
fn parsed_file_content_is_loaded() {
    let entries = vec![("A".to_string(), record("A", 100, 1800, "14.15.1"))];
    let cache = Cache::from_parsed(Some(entries), Split::Split2);
    assert_eq!(cache.len(), 1);
}

#[test]
fn save_options_follow_the_flag() {
    assert_eq!(CacheSaveOptions::from_bool(true), CacheSaveOptions::Save);
    assert_eq!(CacheSaveOptions::from_bool(false), CacheSaveOptions::DontSave);
    assert!(CacheSaveOptions::Save.should_save());
    assert!(!CacheSaveOptions::DontSave.should_save());
}
