//! The on-disk layout of the cache and its clear-scoping consequences.

use lolfetch::paths::{cache_root, get_cache_dir, get_summoner_cache_dir, matches_file_path};

#[test]
fn root_directory_sits_under_the_os_cache_directory() {
    assert_eq!(cache_root("/home/someone/.cache"), "/home/someone/.cache/lolfetch");
}

#[test]
fn summoner_directory_is_partitioned_by_route_and_account() {
    let dir = get_summoner_cache_dir("/c/lolfetch", "EUW1", "puuid-123");
    assert_eq!(dir, "/c/lolfetch/summoner/EUW1/puuid-123");
    assert_eq!(matches_file_path(&dir), "/c/lolfetch/summoner/EUW1/puuid-123/matches.json");
}

#[test]
fn sibling_accounts_get_disjoint_directories() {
    let root = "/c/lolfetch";
    let a = get_summoner_cache_dir(root, "EUW1", "alpha");
    let b = get_summoner_cache_dir(root, "EUW1", "beta");
    let c = get_summoner_cache_dir(root, "NA1", "alpha");
    // Neither equality nor nesting: removing one directory cannot touch the
    // others.
    assert_ne!(a, b);
    assert_ne!(a, c);
    assert!(!b.starts_with(&format!("{a}/")));
    assert!(!c.starts_with(&format!("{a}/")));
    assert!(!a.starts_with(&format!("{b}/")));
    // All of them sit under the root, which a full clear removes.
    assert!(a.starts_with(root));
    assert!(b.starts_with(root));
    assert!(c.starts_with(root));
}

#[test]
fn prefix_named_accounts_stay_disjoint() {
    let root = "/c/lolfetch";
    let short = get_summoner_cache_dir(root, "EUW1", "ab");
    let long = get_summoner_cache_dir(root, "EUW1", "abc");
    assert_ne!(short, long);
    assert!(!long.starts_with(&format!("{short}/")));
}

#[test]
fn os_cache_directory_is_resolved_when_the_platform_has_one() {
    if let Some(root) = get_cache_dir() {
        assert!(root.ends_with("/lolfetch"));
        assert!(root.len() > "/lolfetch".len());
    }
}
