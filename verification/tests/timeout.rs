use v5_stream::timeout::{option_to_timeout, TIMEOUT_MAX};

#[test]
fn no_limit_is_the_largest_word() {
    assert_eq!(TIMEOUT_MAX, u32::MAX);
    assert_eq!(option_to_timeout(None), 0xffff_ffff);
}

#[test]
fn bounded_waits_are_told_in_milliseconds() {
    assert_eq!(option_to_timeout(Some(0)), 0);
    assert_eq!(option_to_timeout(Some(100)), 100);
    assert_eq!(option_to_timeout(Some(0xffff_fffe)), 0xffff_fffe);
}

#[test]
fn a_long_bounded_wait_stays_bounded() {
    assert_eq!(option_to_timeout(Some(0xffff_ffff)), 0xffff_fffe);
    assert_eq!(option_to_timeout(Some(0x1_0000_0000)), 0xffff_fffe);
    assert_eq!(option_to_timeout(Some(u128::MAX)), 0xffff_fffe);
}
