use vstd::prelude::*;
use crate::symbols::{code_of, lookup, supported, to_upper, to_upper_spec};
use crate::symbols::lemma_code_nonempty;

verus! {

/// Whether the tone is playing (`On`) or silent (`Off`) during a
/// timed segment. No other signal states exist.
#[derive(Debug, PartialEq, Eq, Structural, Clone, Copy)]
pub enum Sound {
    On,
    Off,
}

/// Error for a message character outside the supported alphabet.
/// Holds the offending character, already uppercased. The schedulers
/// fail fast on it: no partial schedule is ever returned.
#[derive(Debug, PartialEq, Eq, Structural, Clone, Copy)]
pub struct UnknownChar {
    pub ch: char,
}

/// Segments one code symbol contributes: a dot plays for one unit and a
/// dash for three; each symbol is followed by one unit of silence, the
/// intra-character gap. A character that is neither dot nor dash
/// contributes only the gap.
pub open spec fn symbol_segs(unit: u32, c: char) -> Seq<(Sound, u32)> {
    let gap = seq![(Sound::Off, unit)];
    if c == '.' {
        seq![(Sound::On, unit)] + gap
    } else if c == '-' {
        seq![(Sound::On, (3 * unit) as u32)] + gap
    } else {
        gap
    }
}

/// The segments of a whole code string, before the trailing gap is
/// widened: the concatenation of each symbol's segments, in order.
pub open spec fn raw_char_segs(unit: u32, code: Seq<char>) -> Seq<(Sound, u32)>
    decreases code.len(),
{
    if code.len() == 0 {
        Seq::empty()
    } else {
        raw_char_segs(unit, code.drop_last()) + symbol_segs(unit, code.last())
    }
}

/// Replace the last segment of a non-empty schedule with a silence of
/// the given duration; an empty schedule is left alone.
pub open spec fn with_final_gap(s: Seq<(Sound, u32)>, gap: u32) -> Seq<(Sound, u32)> {
    if s.len() == 0 {
        s
    } else {
        s.update(s.len() - 1, (Sound::Off, gap))
    }
}

/// The schedule of one character: its symbols' segments, with the
/// trailing intra-character gap widened to the three-unit
/// inter-character gap.
pub open spec fn schedule_character_spec(unit: u32, code: Seq<char>) -> Seq<(Sound, u32)> {
    with_final_gap(raw_char_segs(unit, code), (3 * unit) as u32)
}

/// The segments of a whole message, before the trailing gap is widened:
/// each character is uppercased, looked up, and scheduled, and the
/// per-character schedules are concatenated in input order.
pub open spec fn raw_word_segs(unit: u32, text: Seq<char>) -> Seq<(Sound, u32)>
    recommends
        all_supported(text),
    decreases text.len(),
{
    if text.len() == 0 {
        Seq::empty()
    } else {
        raw_word_segs(unit, text.drop_last()) + schedule_character_spec(
            unit,
            code_of(to_upper_spec(text.last())).unwrap(),
        )
    }
}

/// Whether every character of the message, once uppercased, is a
/// supported symbol.
pub open spec fn all_supported(text: Seq<char>) -> bool {
    forall|i: int| 0 <= i < text.len() ==> supported(to_upper_spec(text[i]))
}

/// The schedule of a whole message: the characters' schedules in order,
/// with the trailing inter-character gap widened to the seven-unit
/// inter-word gap.
pub open spec fn schedule_word_spec(unit: u32, text: Seq<char>) -> Seq<(Sound, u32)>
    recommends
        all_supported(text),
{
    with_final_gap(raw_word_segs(unit, text), (7 * unit) as u32)
}

/// Schedule one character's code string (for example `".-."`) as timed
/// on/off segments, excluding whatever follows the character: the
/// trailing silence is the three-unit inter-character gap. An empty
/// code yields an empty schedule.
pub fn schedule_character(unit: u32, s: &str) -> (out: Vec<(Sound, u32)>)
    requires
        3 * unit <= u32::MAX,
    ensures
        out@ == schedule_character_spec(unit, s@),
{
    let mut out: Vec<(Sound, u32)> = Vec::new();
    let n = s.unicode_len();
    let mut i: usize = 0;
    while i < n
        invariant
            n == s@.len(),
            i <= n,
            3 * unit <= u32::MAX,
            out@ == raw_char_segs(unit, s@.subrange(0, i as int)),
        decreases n - i,
    {
        let c = s.get_char(i);
        if c == '.' {
            out.push((Sound::On, unit));
        }
        if c == '-' {
            out.push((Sound::On, 3 * unit));
        }
        out.push((Sound::Off, unit));
        proof {
            let pre = s@.subrange(0, i as int);
            let cur = s@.subrange(0, i + 1);
            assert(cur.drop_last() =~= pre);
            assert(cur.last() == s@[i as int]);
            assert(out@ =~= raw_char_segs(unit, pre) + symbol_segs(unit, s@[i as int]));
        }
        i += 1;
    }
    proof {
        assert(s@.subrange(0, n as int) =~= s@);
    }
    if out.len() > 0 {
        let last = out.len() - 1;
        out.set(last, (Sound::Off, 3 * unit));
    }
    out
}

/// Schedule a whole message as timed on/off segments: each character is
/// uppercased, looked up and scheduled in order, and the trailing
/// silence is widened to the seven-unit inter-word gap. An empty
/// message yields an empty schedule. A character outside the supported
/// alphabet fails the whole call, naming the (uppercased) character:
/// nothing is substituted or dropped.
pub fn schedule_word(unit: u32, s: &str) -> (r: Result<Vec<(Sound, u32)>, UnknownChar>)
    requires
        7 * unit <= u32::MAX,
    ensures
        r is Ok <==> all_supported(s@),
        r matches Ok(v) ==> v@ == schedule_word_spec(unit, s@),
        r matches Err(e) ==> exists|i: int|
            0 <= i < s@.len() && !supported(to_upper_spec(s@[i])) && e.ch == to_upper_spec(s@[i])
                && (forall|j: int| 0 <= j < i ==> supported(to_upper_spec(#[trigger] s@[j]))),
{
    let mut out: Vec<(Sound, u32)> = Vec::new();
    let n = s.unicode_len();
    let mut i: usize = 0;
    while i < n
        invariant
            n == s@.len(),
            i <= n,
            7 * unit <= u32::MAX,
            out@ == raw_word_segs(unit, s@.subrange(0, i as int)),
            forall|j: int| 0 <= j < i ==> supported(to_upper_spec(#[trigger] s@[j])),
        decreases n - i,
    {
        let c = to_upper(s.get_char(i));
        match lookup(c) {
            None => {
                return Err(UnknownChar { ch: c });
            },
            Some(code) => {
                let mut segs = schedule_character(unit, code);
                out.append(&mut segs);
            },
        }
        proof {
            let pre = s@.subrange(0, i as int);
            let cur = s@.subrange(0, i + 1);
            assert(cur.drop_last() =~= pre);
            assert(cur.last() == s@[i as int]);
        }
        i += 1;
    }
    proof {
        assert(s@.subrange(0, n as int) =~= s@);
    }
    if out.len() > 0 {
        let last = out.len() - 1;
        out.set(last, (Sound::Off, 7 * unit));
    }
    Ok(out)
}

/// For every non-empty code, the schedule of a single character ends in
/// a silent segment of exactly three units: the inter-character gap.
pub proof fn lemma_character_final_gap(unit: u32, code: Seq<char>)
    requires
        code.len() > 0,
    ensures
        schedule_character_spec(unit, code).len() > 0,
        schedule_character_spec(unit, code).last() == (Sound::Off, (3 * unit) as u32),
{
}

/// For every non-empty, fully supported message, the schedule of the
/// whole word ends in a silent segment of exactly seven units: the
/// inter-word gap.
pub proof fn lemma_word_final_gap(unit: u32, text: Seq<char>)
    requires
        text.len() > 0,
        all_supported(text),
    ensures
        schedule_word_spec(unit, text).len() > 0,
        schedule_word_spec(unit, text).last() == (Sound::Off, (7 * unit) as u32),
{
    assert(supported(to_upper_spec(text.last())));
    lemma_code_nonempty(to_upper_spec(text.last()));
}

} // verus!
