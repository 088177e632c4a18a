use vstd::prelude::*;

verus! {

/// Samples per Morse unit (one dot), by the PARIS standard: one word is
/// 50 elements, and there are 60 seconds in a minute, so
/// `unit = floor((sample_rate * 60) / (wpm * 50))`.
pub open spec fn unit_spec(sample_rate: u32, wpm: u32) -> int
    recommends
        wpm > 0,
{
    (sample_rate * 60) / (wpm * 50)
}

/// Number of samples representing one Morse unit (one dot duration).
///
/// Returns `None` when `wpm` is zero (a fatal configuration error: the
/// unit length would be a division by zero) or when the unit does not
/// fit in a `u32`.
pub fn samples_per_element(sample_rate: u32, wpm: u32) -> (r: Option<u32>)
    ensures
        wpm == 0 ==> r is None,
        wpm > 0 ==> r == (if unit_spec(sample_rate, wpm) <= u32::MAX {
            Some(unit_spec(sample_rate, wpm) as u32)
        } else {
            None::<u32>
        }),
{
    if wpm == 0 {
        return None;
    }
    let q: u64 = (sample_rate as u64 * 60) / (wpm as u64 * 50);
    if q <= u32::MAX as u64 {
        Some(q as u32)
    } else {
        None
    }
}

} // verus!
