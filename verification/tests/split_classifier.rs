//! The patch/split classifier's boundary table.

use lolfetch::split::{get_split_from_patch, Split};

#[test]
fn early_split_one() {
    assert_eq!(get_split_from_patch("14.1.0"), Some(Split::Split1));
}

#[test]
fn late_split_one() {
    assert_eq!(get_split_from_patch("14.9"), Some(Split::Split1));
}

#[test]
fn start_split_two() {
    assert_eq!(get_split_from_patch("14.10.3"), Some(Split::Split2));
}

#[test]
fn end_split_two() {
    assert_eq!(get_split_from_patch("14.18"), Some(Split::Split2));
}

#[test]
fn start_split_three() {
    assert_eq!(get_split_from_patch("14.19.1"), Some(Split::Split3));
}

#[test]
fn end_split_three() {
    assert_eq!(get_split_from_patch("14.24"), Some(Split::Split3));
}

#[test]
fn past_every_split() {
    assert_eq!(get_split_from_patch("14.25"), None);
}

#[test]
fn minor_zero_is_split_one() {
    assert_eq!(get_split_from_patch("15.0.1"), Some(Split::Split1));
}

#[test]
fn from_major_boundaries() {
    assert_eq!(Split::from_major(0), Some(Split::Split1));
    assert_eq!(Split::from_major(9), Some(Split::Split1));
    assert_eq!(Split::from_major(10), Some(Split::Split2));
    assert_eq!(Split::from_major(18), Some(Split::Split2));
    assert_eq!(Split::from_major(19), Some(Split::Split3));
    assert_eq!(Split::from_major(24), Some(Split::Split3));
    assert_eq!(Split::from_major(25), None);
}

#[test]
fn unparsable_versions_classify_as_nothing() {
    assert_eq!(get_split_from_patch(""), None);
    assert_eq!(get_split_from_patch("14"), None);
    assert_eq!(get_split_from_patch("14."), None);
    assert_eq!(get_split_from_patch("14..1"), None);
    assert_eq!(get_split_from_patch("14.x.1"), None);
    assert_eq!(get_split_from_patch("14.1x.1"), None);
    assert_eq!(get_split_from_patch("14.99999999999999999999.1"), None);
}
