use tesseract_plumbing::confidences::{ConfidenceScan, SENTINEL};
use tesseract_plumbing::{AllWordConfidences, TessBaseApi, TessBaseApiAllWordConfidencesError};

#[test]
fn array_ends_at_the_sentinel() {
    let confidences = AllWordConfidences::new(&[90, 85, -1]);
    assert_eq!(confidences.len(), 2);
    assert_eq!(confidences.as_slice(), &[90, 85]);
}

#[test]
fn what_follows_the_sentinel_is_ignored() {
    let clean = AllWordConfidences::new(&[96, 12, 55, -1]);
    let garbage = AllWordConfidences::new(&[96, 12, 55, -1, 7, -1, i32::MIN, 100]);
    assert_eq!(clean.as_slice(), &[96, 12, 55]);
    assert_eq!(garbage.as_slice(), clean.as_slice());
    assert_eq!(garbage.len(), 3);
}

#[test]
fn sentinel_first_means_no_words() {
    let confidences = AllWordConfidences::new(&[-1, 50, 60]);
    assert_eq!(confidences.len(), 0);
    assert!(confidences.as_slice().is_empty());
}

#[test]
fn only_the_sentinel_ends_the_array() {
    let confidences = AllWordConfidences::new(&[0, -2, 100, i32::MAX, 1, -1]);
    assert_eq!(confidences.as_slice(), &[0, -2, 100, i32::MAX, 1]);
}

#[test]
fn memory_without_a_sentinel_is_taken_whole() {
    let confidences = AllWordConfidences::new(&[10, 20, 30]);
    assert_eq!(confidences.as_slice(), &[10, 20, 30]);
    assert_eq!(AllWordConfidences::new(&[]).len(), 0);
}

#[test]
fn sentinel_is_minus_one() {
    assert_eq!(SENTINEL, -1);
}

#[test]
fn walk_asks_for_elements_until_the_sentinel() {
    let native = [70, 80, -1, 99];
    let mut scan = ConfidenceScan::new();
    assert_eq!(scan.len(), 0);
    assert!(!scan.is_terminated());
    assert!(scan.accept(native[scan.len()]));
    assert_eq!(scan.len(), 1);
    assert!(scan.accept(native[scan.len()]));
    assert_eq!(scan.len(), 2);
    assert!(!scan.accept(native[scan.len()]));
    assert!(scan.is_terminated());
    assert_eq!(scan.len(), 2);
    assert_eq!(scan.finish().as_slice(), &[70, 80]);
}

#[test]
fn walk_ignores_what_is_offered_after_the_sentinel() {
    let mut scan = ConfidenceScan::new();
    assert!(scan.accept(5));
    assert!(!scan.accept(-1));
    assert!(!scan.accept(6));
    assert!(!scan.accept(-1));
    assert!(scan.is_terminated());
    assert_eq!(scan.finish().as_slice(), &[5]);
}

#[test]
fn walk_and_whole_array_agree() {
    let native = [33, 44, 55, 66, -1, 77];
    let mut scan = ConfidenceScan::new();
    while scan.accept(native[scan.len()]) {}
    assert_eq!(scan.finish().as_slice(), AllWordConfidences::new(&native).as_slice());
}

#[test]
fn unfinished_walk_gives_what_it_has() {
    let mut scan = ConfidenceScan::new();
    assert!(scan.accept(1));
    assert!(scan.accept(2));
    assert_eq!(scan.finish().as_slice(), &[1, 2]);
}

#[test]
fn confidences_can_be_changed_in_place() {
    let mut confidences = AllWordConfidences::new(&[10, 20, 30, -1]);
    confidences.as_slice_mut()[1] = 25;
    assert_eq!(confidences.as_slice(), &[10, 25, 30]);
    assert_eq!(confidences.len(), 3);
}

#[test]
fn null_in_place_of_confidences_is_a_failure() {
    let tess = TessBaseApi::create();
    assert_eq!(
        tess.all_word_confidences(None).err(),
        Some(TessBaseApiAllWordConfidencesError())
    );
}

#[test]
fn confidences_pass_through_the_handle() {
    let tess = TessBaseApi::create();
    let native = AllWordConfidences::new(&[91, 92, -1]);
    let kept = tess.all_word_confidences(Some(native)).unwrap();
    assert_eq!(kept.as_slice(), &[91, 92]);
}
