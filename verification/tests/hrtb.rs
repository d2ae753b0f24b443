use lockbox::hrtb::{call_with_lifetime, check_len_rank1, rank2};

#[test]
fn hrtb() {
    let s = "quack".to_string();
    assert!(rank2(check_len_rank1, s.as_str(), 5));
    assert!(call_with_lifetime(s.as_str(), 5));
}

#[test]
fn rank1_check_counts_bytes() {
    assert!(check_len_rank1("", 0));
    assert!(check_len_rank1("abc", 3));
    assert!(!check_len_rank1("abc", 2));
    // One character, two bytes: the check counts bytes.
    assert!(check_len_rank1("\u{e9}", 2));
    assert!(!check_len_rank1("\u{e9}", 1));
    assert!(!call_with_lifetime("\u{e9}", 1));
    assert!(call_with_lifetime("\u{e9}", 2));
}
