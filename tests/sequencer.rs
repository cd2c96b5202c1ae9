use image_lambda::s3_sequencer::{compare_padded, S3Sequencer};
use std::cmp::Ordering;

#[test]
fn test_sequencer_partial_cmp() {
    let bucket_name = "bucket";
    let object_key = "object";

    let s1 = S3Sequencer::new(bucket_name, object_key, "1");
    let s10 = S3Sequencer::new(bucket_name, object_key, "10");
    let s2 = S3Sequencer::new(bucket_name, object_key, "2");
    let sab = S3Sequencer::new(bucket_name, object_key, "ab");
    let sac = S3Sequencer::new(bucket_name, object_key, "ac");

    assert!(s1 == s10);
    assert!(s10 < s2);
    assert!(s1 < s2);
    assert!(s2 < sab);
    assert!(sab < sac);

    let other_bucket_name = "other_bucket";
    let other_object_key = "other_object";
    let other = S3Sequencer::new(other_bucket_name, other_object_key, "1");

    assert!(s1 != other);
}

#[test]
fn padded_comparison_values() {
    assert_eq!(compare_padded("1", "10"), Ordering::Equal);
    assert_eq!(compare_padded("10", "2"), Ordering::Less);
    assert_eq!(compare_padded("2", "ab"), Ordering::Less);
    assert_eq!(compare_padded("ab", "ac"), Ordering::Less);
    assert_eq!(compare_padded("ac", "ab"), Ordering::Greater);
    assert_eq!(compare_padded("", "000"), Ordering::Equal);
    assert_eq!(compare_padded("", "1"), Ordering::Less);
    assert_eq!(compare_padded("", ""), Ordering::Equal);
}

#[test]
fn different_scope_is_incomparable() {
    let a = S3Sequencer::new("bucket", "object", "1");
    let other_key = S3Sequencer::new("bucket", "other", "1");
    let other_bucket = S3Sequencer::new("other", "object", "1");
    assert_eq!(a.partial_cmp(&other_key), None);
    assert_eq!(other_bucket.partial_cmp(&a), None);
    assert!(a != other_key);
    assert!(!(a < other_key) && !(a > other_key) && !(a <= other_key));
}

#[test]
fn ordering_is_antisymmetric_and_transitive() {
    let a = S3Sequencer::new("b", "k", "0a");
    let b = S3Sequencer::new("b", "k", "1");
    let c = S3Sequencer::new("b", "k", "1b");
    assert_eq!(a.partial_cmp(&b), Some(Ordering::Less));
    assert_eq!(b.partial_cmp(&a), Some(Ordering::Greater));
    assert_eq!(b.partial_cmp(&c), Some(Ordering::Less));
    assert_eq!(a.partial_cmp(&c), Some(Ordering::Less));
    assert_eq!(a.partial_cmp(&a), Some(Ordering::Equal));
    assert!(S3Sequencer::new("b", "k", "7") == S3Sequencer::new("b", "k", "7000"));
}
