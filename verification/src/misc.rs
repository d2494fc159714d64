//! Small self-contained helpers: the frequency-to-channel mapper and a
//! boolean-to-text formatter.

use vstd::prelude::*;

verus! {

/// The channel number a radio frequency (in MHz) belongs to.
///
/// Each wireless band maps its frequencies to channels by a linear formula;
/// a frequency outside every known band maps to 0 ("no known channel").
pub open spec fn channel_of(frequency: int) -> int {
    if 2412 <= frequency && frequency <= 2472 {
        (frequency - 2407) / 5
    } else if frequency == 2484 {
        14
    } else if 5180 <= frequency && frequency <= 5895 {
        (frequency - 5000) / 5
    } else if 5955 <= frequency && frequency <= 7115 {
        (frequency - 5950) / 5
    } else {
        0
    }
}

/// Converts the given frequency into a channel number.
pub fn get_channel(frequency: u32) -> (channel: u32)
    ensures
        channel == channel_of(frequency as int),
{
    if 2412 <= frequency && frequency <= 2472 {
        (frequency - 2407) / 5
    } else if frequency == 2484 {
        14
    } else if 5180 <= frequency && frequency <= 5895 {
        (frequency - 5000) / 5
    } else if 5955 <= frequency && frequency <= 7115 {
        (frequency - 5950) / 5
    } else {
        0
    }
}

/// Law: on each wireless band the mapper follows that band's linear formula
/// (division truncating), 2484 MHz maps to the Japan-only channel 14, and a
/// frequency outside every band maps to 0.
pub proof fn lemma_channel_band_formulas(f: int)
    ensures
        2412 <= f && f <= 2472 ==> channel_of(f) == (f - 2407) / 5,
        f == 2484 ==> channel_of(f) == 14,
        5180 <= f && f <= 5895 ==> channel_of(f) == (f - 5000) / 5,
        5955 <= f && f <= 7115 ==> channel_of(f) == (f - 5950) / 5,
        !(2412 <= f && f <= 2472) && f != 2484 && !(5180 <= f && f <= 5895) && !(5955 <= f
            && f <= 7115) ==> channel_of(f) == 0,
{
}

/// Law: the mapper is a pure function of the frequency alone — two calls on
/// the same frequency always yield the same channel.
pub proof fn lemma_channel_deterministic(f1: u32, f2: u32)
    requires
        f1 == f2,
    ensures
        channel_of(f1 as int) == channel_of(f2 as int),
{
}

/// Returns "Yes" if input is true and "No" if input is false.
pub fn yes_or_no(input: bool) -> (answer: String)
    ensures
        input ==> answer@ == "Yes"@,
        !input ==> answer@ == "No"@,
{
    if input {
        "Yes".to_string()
    } else {
        "No".to_string()
    }
}

} // verus!
