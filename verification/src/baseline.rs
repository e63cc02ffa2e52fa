//! Calibration baselines and their persisted text form.
//!
//! The SGP30 learns a calibration baseline while running; persisting it
//! lets the sensor resume accurate measurement right after a restart.
//! The record is stored as human-readable key/value text with
//! fixed-width decimal values, so that loading is exact:
//!
//! ```text
//! co2eq = 04660
//! tvoc = 22136
//! ```
//!
//! The binary only moves this text in and out of a file; encoding and
//! decoding live here, and decoding inverts encoding exactly.

use vstd::prelude::*;
use vstd::arithmetic::div_mod::{
    lemma_div_denominator, lemma_fundamental_div_mod, lemma_mod_bound, lemma_small_mod,
};

use crate::render::{digit_str, spec_digit_char};

verus! {

/// An SGP30 calibration baseline: the two raw words the device reports.
#[derive(Copy, Clone, PartialEq, Eq, Structural, Debug)]
pub struct StoredBaseline {
    /// CO2-equivalent baseline word.
    pub co2eq: u16,
    /// TVOC baseline word.
    pub tvoc: u16,
}

/// Five zero-padded decimal digits of `n`.
pub open spec fn spec_d5(n: nat) -> Seq<char> {
    seq![
        spec_digit_char(n / 10000 % 10),
        spec_digit_char(n / 1000 % 10),
        spec_digit_char(n / 100 % 10),
        spec_digit_char(n / 10 % 10),
        spec_digit_char(n % 10),
    ]
}

/// The persisted text of a baseline.
pub open spec fn spec_render_baseline(b: StoredBaseline) -> Seq<char> {
    "co2eq = "@ + spec_d5(b.co2eq as nat) + "\n"@ + "tvoc = "@ + spec_d5(b.tvoc as nat) + "\n"@
}

/// Whether `c` is a decimal digit.
pub open spec fn spec_is_digit(c: char) -> bool {
    48 <= c as u32 && c as u32 <= 57
}

/// The value of a digit character.
pub open spec fn spec_digit_val(c: char) -> int {
    c as u32 - 48
}

/// The value of the five digits at `i`.
pub open spec fn spec_val5(s: Seq<char>, i: int) -> int {
    spec_digit_val(s[i]) * 10000 + spec_digit_val(s[i + 1]) * 1000 + spec_digit_val(s[i + 2])
        * 100 + spec_digit_val(s[i + 3]) * 10 + spec_digit_val(s[i + 4])
}

/// Whether the five characters at `i` are all digits.
pub open spec fn spec_digits5(s: Seq<char>, i: int) -> bool {
    forall|j: int| i <= j < i + 5 ==> spec_is_digit(#[trigger] s[j])
}

/// What a persisted baseline text decodes to: exactly the shape
/// `spec_render_baseline` writes, with values that fit the device's
/// sixteen-bit words; anything else is rejected.
pub open spec fn spec_parse_baseline(s: Seq<char>) -> Option<StoredBaseline> {
    if s.len() == 27 && s.subrange(0, 8) == "co2eq = "@ && spec_digits5(s, 8) && s[13] == '\n'
        && s.subrange(14, 21) == "tvoc = "@ && spec_digits5(s, 21) && s[26] == '\n' && spec_val5(
        s,
        8,
    ) <= u16::MAX && spec_val5(s, 21) <= u16::MAX {
        Some(
            (StoredBaseline { co2eq: spec_val5(s, 8) as u16, tvoc: spec_val5(s, 21) as u16 }),
        )
    } else {
        None
    }
}

/// Append the five zero-padded digits of `n`.
fn append_d5(n: u16, out: &mut String)
    ensures
        final(out)@ == old(out)@ + spec_d5(n as nat),
{
    let n64 = n as u64;
    out.append(digit_str(((n64 / 10000) % 10) as u8));
    out.append(digit_str(((n64 / 1000) % 10) as u8));
    out.append(digit_str(((n64 / 100) % 10) as u8));
    out.append(digit_str(((n64 / 10) % 10) as u8));
    out.append(digit_str((n64 % 10) as u8));
    proof {
        assert(out@ =~= old(out)@ + spec_d5(n as nat));
    }
}

/// Encode a baseline in its persisted text form.
pub fn render_baseline(b: &StoredBaseline) -> (r: String)
    ensures
        r@ == spec_render_baseline(*b),
{
    let mut out = String::new();
    out.append("co2eq = ");
    append_d5(b.co2eq, &mut out);
    out.append("\n");
    out.append("tvoc = ");
    append_d5(b.tvoc, &mut out);
    out.append("\n");
    proof {
        assert(out@ =~= spec_render_baseline(*b));
    }
    out
}

/// Whether `s` carries `prefix` at position `i`.
fn has_at(s: &str, i: usize, prefix: &str) -> (r: bool)
    requires
        i + prefix@.len() <= s@.len(),
    ensures
        r == (s@.subrange(i as int, i + prefix@.len()) == prefix@),
{
    let slen = s.unicode_len();
    let plen = prefix.unicode_len();
    let mut j: usize = 0;
    while j < plen
        invariant
            j <= plen,
            plen == prefix@.len(),
            slen == s@.len(),
            i + plen <= s@.len(),
            forall|m: int| 0 <= m < j ==> s@[i + m] == prefix@[m],
        decreases plen - j,
    {
        if s.get_char(i + j) != prefix.get_char(j) {
            assert(s@.subrange(i as int, i + plen) != prefix@) by {
                assert(s@.subrange(i as int, i + plen)[j as int] == s@[i + j]);
            }
            return false;
        }
        j += 1;
    }
    proof {
        assert(s@.subrange(i as int, i + plen) =~= prefix@);
    }
    true
}

/// Read the five digits at `i` as a number; `None` if any character is
/// not a digit.
fn read5(s: &str, i: usize) -> (r: Option<u32>)
    requires
        i + 5 <= s@.len(),
    ensures
        match r {
            Some(v) => spec_digits5(s@, i as int) && v as int == spec_val5(s@, i as int),
            None => !spec_digits5(s@, i as int),
        },
{
    let slen = s.unicode_len();
    let mut v: u32 = 0;
    let mut j: usize = 0;
    while j < 5
        invariant
            j <= 5,
            slen == s@.len(),
            i + 5 <= s@.len(),
            forall|m: int| i <= m < i + j ==> spec_is_digit(#[trigger] s@[m]),
            v <= 99_999,
            j == 1 ==> v as int == spec_digit_val(s@[i as int]),
            j == 2 ==> v as int == spec_digit_val(s@[i as int]) * 10 + spec_digit_val(
                s@[i + 1],
            ),
            j == 3 ==> v as int == spec_digit_val(s@[i as int]) * 100 + spec_digit_val(s@[i + 1])
                * 10 + spec_digit_val(s@[i + 2]),
            j == 4 ==> v as int == spec_digit_val(s@[i as int]) * 1000 + spec_digit_val(
                s@[i + 1],
            ) * 100 + spec_digit_val(s@[i + 2]) * 10 + spec_digit_val(s@[i + 3]),
            j == 5 ==> v as int == spec_val5(s@, i as int),
            j == 0 ==> v == 0,
        decreases 5 - j,
    {
        let c = s.get_char(i + j);
        let cu = c as u32;
        if cu < 48 || cu > 57 {
            return None;
        }
        v = v * 10 + (cu - 48);
        j += 1;
    }
    Some(v)
}

/// Decode a persisted baseline text; inverts [`render_baseline`].
pub fn parse_baseline(s: &str) -> (r: Option<StoredBaseline>)
    ensures
        r == spec_parse_baseline(s@),
{
    if s.unicode_len() != 27 {
        return None;
    }
    proof {
        reveal_strlit("co2eq = ");
    }
    if !has_at(s, 0, "co2eq = ") {
        return None;
    }
    let co2 = match read5(s, 8) {
        Some(v) => v,
        None => {
            return None;
        },
    };
    if s.get_char(13) != '\n' {
        return None;
    }
    proof {
        reveal_strlit("tvoc = ");
    }
    if !has_at(s, 14, "tvoc = ") {
        return None;
    }
    let tvoc = match read5(s, 21) {
        Some(v) => v,
        None => {
            return None;
        },
    };
    if s.get_char(26) != '\n' {
        return None;
    }
    if co2 > u16::MAX as u32 || tvoc > u16::MAX as u32 {
        return None;
    }
    Some(StoredBaseline { co2eq: co2 as u16, tvoc: tvoc as u16 })
}

/// The five zero-padded digits of `n < 100000` decode back to `n`.
proof fn lemma_d5_roundtrip(n: nat)
    requires
        n < 100_000,
    ensures
        spec_digits5(spec_d5(n), 0),
        spec_val5(spec_d5(n), 0) == n,
{
    let s = spec_d5(n);
    assert forall|j: int| 0 <= j < 5 implies spec_is_digit(#[trigger] s[j]) by {
        lemma_mod_bound(n as int / 10000, 10);
        lemma_mod_bound(n as int / 1000, 10);
        lemma_mod_bound(n as int / 100, 10);
        lemma_mod_bound(n as int / 10, 10);
        lemma_mod_bound(n as int, 10);
        lemma_digit_char_roundtrip((n / 10000 % 10) as nat);
        lemma_digit_char_roundtrip((n / 1000 % 10) as nat);
        lemma_digit_char_roundtrip((n / 100 % 10) as nat);
        lemma_digit_char_roundtrip((n / 10 % 10) as nat);
        lemma_digit_char_roundtrip((n % 10) as nat);
    }
    lemma_mod_bound(n as int / 10000, 10);
    lemma_mod_bound(n as int / 1000, 10);
    lemma_mod_bound(n as int / 100, 10);
    lemma_mod_bound(n as int / 10, 10);
    lemma_mod_bound(n as int, 10);
    lemma_digit_char_roundtrip((n / 10000 % 10) as nat);
    lemma_digit_char_roundtrip((n / 1000 % 10) as nat);
    lemma_digit_char_roundtrip((n / 100 % 10) as nat);
    lemma_digit_char_roundtrip((n / 10 % 10) as nat);
    lemma_digit_char_roundtrip((n % 10) as nat);
    // n decomposes digit by digit
    lemma_fundamental_div_mod(n as int, 10);
    lemma_fundamental_div_mod(n as int / 10, 10);
    lemma_fundamental_div_mod(n as int / 100, 10);
    lemma_fundamental_div_mod(n as int / 1000, 10);
    lemma_div_denominator(n as int, 10, 10);
    lemma_div_denominator(n as int, 100, 10);
    lemma_div_denominator(n as int, 1000, 10);
    lemma_small_mod((n / 10000) as nat, 10);
}

/// A digit character's value is the digit.
proof fn lemma_digit_char_roundtrip(d: nat)
    requires
        d < 10,
    ensures
        spec_is_digit(spec_digit_char(d)),
        spec_digit_val(spec_digit_char(d)) == d,
{
    assert(spec_digit_char(d) as u32 == 48 + d);
}

/// Storing a baseline and loading it back yields the same record: the
/// decoder inverts the encoder on every baseline.
pub proof fn lemma_baseline_roundtrip(b: StoredBaseline)
    ensures
        spec_parse_baseline(spec_render_baseline(b)) == Some(b),
{
    reveal_strlit("co2eq = ");
    reveal_strlit("tvoc = ");
    reveal_strlit("\n");
    let s = spec_render_baseline(b);
    lemma_d5_roundtrip(b.co2eq as nat);
    lemma_d5_roundtrip(b.tvoc as nat);
    assert(s.len() == 27);
    assert(s.subrange(0, 8) =~= "co2eq = "@);
    assert(s.subrange(8, 13) =~= spec_d5(b.co2eq as nat));
    assert(s[13] == '\n');
    assert(s.subrange(14, 21) =~= "tvoc = "@);
    assert(s.subrange(21, 26) =~= spec_d5(b.tvoc as nat));
    assert(s[26] == '\n');
    assert(spec_digits5(s, 8)) by {
        assert(forall|j: int|
            8 <= j < 13 ==> s[j] == #[trigger] spec_d5(b.co2eq as nat)[j - 8]);
    }
    assert(spec_digits5(s, 21)) by {
        assert(forall|j: int|
            21 <= j < 26 ==> s[j] == #[trigger] spec_d5(b.tvoc as nat)[j - 21]);
    }
    assert(spec_val5(s, 8) == spec_val5(spec_d5(b.co2eq as nat), 0));
    assert(spec_val5(s, 21) == spec_val5(spec_d5(b.tvoc as nat), 0));
}

} // verus!
