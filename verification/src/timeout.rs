//! How a wait is told to the kernel: as one word that counts milliseconds,
//! with its largest value set aside for a wait without bound.
use vstd::prelude::*;

verus! {

/// The word that asks the kernel to wait without bound.
pub const TIMEOUT_MAX: u32 = 0xffff_ffff;

/// The word for a wait of at most `wait_millis` milliseconds, or without bound
/// where there is no limit. A bounded wait too long for the word is told as
/// the longest bounded wait, never as one without bound.
pub open spec fn timeout_word(wait_millis: Option<u128>) -> u32 {
    match wait_millis {
        None => TIMEOUT_MAX,
        Some(millis) => if millis < TIMEOUT_MAX {
            millis as u32
        } else {
            (TIMEOUT_MAX - 1) as u32
        },
    }
}

/// Computes `timeout_word`.
pub fn option_to_timeout(wait_millis: Option<u128>) -> (word: u32)
    ensures
        word == timeout_word(wait_millis),
{
    match wait_millis {
        None => TIMEOUT_MAX,
        Some(millis) => if millis < TIMEOUT_MAX as u128 {
            millis as u32
        } else {
            TIMEOUT_MAX - 1
        },
    }
}

/// The word says whether the wait is bounded, a wait of zero stays zero, and
/// a longer wait is never told as a shorter one.
pub proof fn timeout_word_keeps_the_kind_of_wait(shorter: u128, longer: u128)
    requires
        shorter <= longer,
    ensures
        timeout_word(None) == TIMEOUT_MAX,
        timeout_word(Some(shorter)) < TIMEOUT_MAX,
        timeout_word(Some(0)) == 0,
        timeout_word(Some(shorter)) <= timeout_word(Some(longer)),
        shorter < TIMEOUT_MAX ==> timeout_word(Some(shorter)) == shorter,
{
}

} // verus!
