//! Parsing and printing of Riot IDs.

use lolfetch::account::{RiotId, RiotIdError};

#[test]
fn test_good_riot_id_from_string() {
    let riot_id = RiotId::from_str("username#1234");
    match riot_id {
        Ok(riot_id) => {
            assert_eq!(riot_id.username, "username");
            assert_eq!(riot_id.tagline, "1234");
        }
        Err(_) => panic!("Failed to parse Riot ID"),
    }
}

#[test]
fn test_bad_riot_id_from_string() {
    let riot_id = RiotId::from_str("username");
    assert!(!riot_id.is_ok(), "Parsed invalid Riot ID")
}

#[test]
fn riot_id_with_two_hashes_is_invalid() {
    assert_eq!(RiotId::from_str("user#tag#extra"), Err(RiotIdError::InvalidFormat));
}

#[test]
fn riot_id_with_empty_halves_still_splits() {
    let riot_id = RiotId::from_str("#").expect("lone separator still has two halves");
    assert_eq!(riot_id.username, "");
    assert_eq!(riot_id.tagline, "");
}

#[test]
fn riot_id_new_and_to_text() {
    let riot_id = RiotId::new("sev".to_string(), "cat".to_string());
    assert_eq!(riot_id.username, "sev");
    assert_eq!(riot_id.tagline, "cat");
    assert_eq!(riot_id.to_text(), "sev#cat");
}
