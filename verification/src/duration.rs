//! ISO-8601 durations as the management API uses them: a `PT` prefix
//! followed by optional hour, minute, and second components, in that
//! order (`PT1H30M`, `PT0S`). Parsing and formatting are pure functions,
//! and formatting then parsing gives back the original second count.

use vstd::prelude::*;
use crate::strutil::{
    all_digits, dec_of_u64, dec_spec, dec_val, is_digit, lemma_dec_spec_digits,
    lemma_dec_val_of_dec_spec, parse_u64, starts_with, starts_with_spec, substring,
};

verus! {

/// Number of leading decimal digits of `s`.
pub open spec fn leading_digits(s: Seq<char>) -> int
    decreases s.len(),
{
    if s.len() > 0 && is_digit(s[0]) {
        1 + leading_digits(s.drop_first())
    } else {
        0
    }
}

proof fn lemma_leading_digits_bounds(s: Seq<char>)
    ensures
        0 <= leading_digits(s) <= s.len(),
    decreases s.len(),
{
    if s.len() > 0 && is_digit(s[0]) {
        lemma_leading_digits_bounds(s.drop_first());
    }
}

proof fn lemma_leading_digits_concat(d: Seq<char>, rest: Seq<char>)
    requires
        all_digits(d),
        rest.len() == 0 || !is_digit(rest[0]),
    ensures
        leading_digits(d + rest) == d.len(),
    decreases d.len(),
{
    if d.len() == 0 {
        assert(d + rest =~= rest);
    } else {
        assert((d + rest)[0] == d[0]);
        assert((d + rest).drop_first() =~= d.drop_first() + rest);
        assert(all_digits(d.drop_first()));
        lemma_leading_digits_concat(d.drop_first(), rest);
    }
}

/// Parse the component list after the `PT` prefix. `stage` records which
/// units are still allowed: 0 admits `H`, `M` and `S`; 1 admits `M` and
/// `S`; 2 admits only `S`; 3 admits nothing. An empty tail is zero.
pub open spec fn parse_components(s: Seq<char>, stage: int) -> Option<int>
    decreases s.len(),
    via parse_components_decreases
{
    if s.len() == 0 {
        Some(0)
    } else {
        let d = leading_digits(s);
        if d == 0 || d >= s.len() {
            None
        } else {
            let v = dec_val(s.take(d));
            let u = s[d];
            let rest = s.skip(d + 1);
            if u == 'H' && stage <= 0 {
                match parse_components(rest, 1) {
                    Some(r) => Some(v * 3600 + r),
                    None => None,
                }
            } else if u == 'M' && stage <= 1 {
                match parse_components(rest, 2) {
                    Some(r) => Some(v * 60 + r),
                    None => None,
                }
            } else if u == 'S' && stage <= 2 {
                match parse_components(rest, 3) {
                    Some(r) => Some(v + r),
                    None => None,
                }
            } else {
                None
            }
        }
    }
}

#[via_fn]
proof fn parse_components_decreases(s: Seq<char>, stage: int) {
    lemma_leading_digits_bounds(s);
}

/// Total seconds encoded by an ISO-8601 `PT...` duration, if well-formed.
pub open spec fn parse_duration_spec(s: Seq<char>) -> Option<int> {
    if starts_with_spec(s, "PT"@) {
        parse_components(s.skip("PT"@.len() as int), 0)
    } else {
        None
    }
}

/// The rendering of a non-negative second count: hours, minutes and
/// seconds in order, each omitted when zero, except that a zero total
/// renders as `PT0S` rather than a bare `PT`.
pub open spec fn duration_spec(total: int) -> Seq<char> {
    let h = total / 3600;
    let m = (total % 3600) / 60;
    let sec = (total % 3600) % 60;
    "PT"@ + (if h > 0 {
        dec_spec(h) + "H"@
    } else {
        Seq::<char>::empty()
    }) + (if m > 0 {
        dec_spec(m) + "M"@
    } else {
        Seq::<char>::empty()
    }) + (if sec > 0 || (h == 0 && m == 0) {
        dec_spec(sec) + "S"@
    } else {
        Seq::<char>::empty()
    })
}

proof fn lemma_parse_components_nonneg(s: Seq<char>, stage: int)
    ensures
        parse_components(s, stage) matches Some(r) ==> r >= 0,
    decreases s.len(),
{
    if s.len() > 0 {
        let d = leading_digits(s);
        lemma_leading_digits_bounds(s);
        if 0 < d < s.len() {
            lemma_leading_digits_digits(s);
            crate::strutil::lemma_dec_val_nonneg(s.take(d));
            lemma_parse_components_nonneg(s.skip(d + 1), 1);
            lemma_parse_components_nonneg(s.skip(d + 1), 2);
            lemma_parse_components_nonneg(s.skip(d + 1), 3);
            let v = dec_val(s.take(d));
            assert(v * 3600 >= 0 && v * 60 >= 0) by (nonlinear_arith)
                requires v >= 0;
        }
    }
}

proof fn lemma_leading_digits_digits(s: Seq<char>)
    ensures
        all_digits(s.take(leading_digits(s))),
        leading_digits(s) < s.len() ==> !is_digit(s[leading_digits(s)]),
    decreases s.len(),
{
    lemma_leading_digits_bounds(s);
    if s.len() > 0 && is_digit(s[0]) {
        lemma_leading_digits_digits(s.drop_first());
        lemma_leading_digits_bounds(s.drop_first());
        let d = leading_digits(s);
        assert(s.take(d).drop_first() =~= s.drop_first().take(d - 1));
        assert forall|i: int| 0 <= i < d implies is_digit(s.take(d)[i]) by {
            if i > 0 {
                assert(s.take(d)[i] == s.drop_first().take(d - 1)[i - 1]);
            }
        }
        if d < s.len() {
            assert(s[d] == s.drop_first()[d - 1]);
        }
    }
}

fn is_digit_char(c: char) -> (r: bool)
    ensures
        r == is_digit(c),
{
    let x = c as u32;
    48 <= x && x <= 57
}

/// Spec-level sum of a fixed offset and an optional remainder.
pub open spec fn opt_add(t: int, o: Option<int>) -> Option<int> {
    match o {
        Some(r) => Some(t + r),
        None => None,
    }
}

/// Parse an ISO-8601 `PT...` duration into whole seconds.
///
/// Returns `None` when the text is not a well-formed duration or the
/// total does not fit in a `u64`.
#[verifier::loop_isolation(false)]
pub fn parse_duration_to_seconds(duration: &str) -> (r: Option<u64>)
    ensures
        r matches Some(v) ==> parse_duration_spec(duration@) == Some(v as int),
        r is None ==> (parse_duration_spec(duration@) matches Some(v) ==> v > u64::MAX),
{
    proof {
        reveal_strlit("PT");
    }
    if !starts_with(duration, "PT") {
        return None;
    }
    let slen = duration.unicode_len();
    let ghost full = parse_components(duration@.skip(2), 0);
    let mut i: usize = 2;
    let mut total: u64 = 0;
    let mut stage: u8 = 0;
    while i < slen
        invariant
            2 <= i <= slen,
            slen == duration@.len(),
            stage <= 3,
            full == parse_components(duration@.skip(2), 0),
            full == opt_add(total as int, parse_components(duration@.skip(i as int), stage as int)),
        decreases slen - i,
    {
        let mut j: usize = i;
        while j < slen && is_digit_char(duration.get_char(j))
            invariant
                i <= j <= slen,
                slen == duration@.len(),
                forall|k: int| i <= k < j ==> is_digit(duration@[k]),
            decreases slen - j,
        {
            j = j + 1;
        }
        let ghost tail = duration@.skip(i as int);
        proof {
            assert(tail =~= duration@.subrange(i as int, j as int) + duration@.skip(j as int));
            if j < slen {
                assert(duration@.skip(j as int)[0] == duration@[j as int]);
            }
            lemma_leading_digits_concat(
                duration@.subrange(i as int, j as int),
                duration@.skip(j as int),
            );
            assert(leading_digits(tail) == j - i);
            assert(all_digits(duration@.subrange(i as int, j as int))) by {
                assert(forall|x: int| 0 <= x < j - i
                    ==> duration@.subrange(i as int, j as int)[x] == duration@[i + x]);
            }
        }
        if j == i {
            // no digits before the next unit letter: malformed
            return None;
        }
        if j == slen {
            // digits with no unit letter: malformed
            return None;
        }
        let digits = substring(duration, i, j);
        let parsed = parse_u64(digits.as_str());
        let unit = duration.get_char(j);
        let ghost v_int = dec_val(duration@.subrange(i as int, j as int));
        proof {
            assert(tail.take(j - i) =~= duration@.subrange(i as int, j as int));
            assert(tail[j - i] == duration@[j as int]);
            assert(tail.skip(j - i + 1) =~= duration@.skip(j + 1));
            crate::strutil::lemma_dec_val_nonneg(duration@.subrange(i as int, j as int));
        }
        let (mult, next_stage): (u64, u8) = if unit == 'H' && stage == 0 {
            (3600, 1)
        } else if unit == 'M' && stage <= 1 {
            (60, 2)
        } else if unit == 'S' && stage <= 2 {
            (1, 3)
        } else {
            // unit out of order, repeated, or not a unit at all
            return None;
        };
        let ghost sub = parse_components(duration@.skip(j + 1), next_stage as int);
        proof {
            assert(parse_components(tail, stage as int) == opt_add_mul(v_int, mult as int, sub));
            lemma_parse_components_nonneg(duration@.skip(j + 1), next_stage as int);
        }
        let v = match parsed {
            Some(v) => v,
            None => {
                // the component alone exceeds u64::MAX
                proof {
                    if sub is Some {
                        assert(v_int * (mult as int) >= v_int) by (nonlinear_arith)
                            requires v_int >= 0 && mult >= 1;
                    }
                }
                return None;
            }
        };
        let scaled = match v.checked_mul(mult) {
            Some(c) => c,
            None => {
                return None;
            }
        };
        let new_total = match total.checked_add(scaled) {
            Some(t) => t,
            None => {
                return None;
            }
        };
        total = new_total;
        i = j + 1;
        stage = next_stage;
    }
    proof {
        assert(duration@.skip(i as int) =~= Seq::<char>::empty());
        assert(parse_components(duration@.skip(i as int), stage as int) == Some(0int));
    }
    Some(total)
}

/// Spec-level `v * mult` plus an optional remainder.
pub open spec fn opt_add_mul(v: int, mult: int, o: Option<int>) -> Option<int> {
    match o {
        Some(r) => Some(v * mult + r),
        None => None,
    }
}

/// Render a second count as an ISO-8601 `PT...` duration.
pub fn seconds_to_duration(seconds: u64) -> (r: String)
    ensures
        r@ == duration_spec(seconds as int),
{
    proof {
        reveal_strlit("PT");
        reveal_strlit("H");
        reveal_strlit("M");
        reveal_strlit("S");
    }
    let h = seconds / 3600;
    let rem = seconds % 3600;
    let m = rem / 60;
    let sec = rem % 60;
    let mut r = String::from_str("PT");
    if h > 0 {
        let hs = dec_of_u64(h);
        r.append(hs.as_str());
        r.append("H");
    }
    if m > 0 {
        let ms = dec_of_u64(m);
        r.append(ms.as_str());
        r.append("M");
    }
    if sec > 0 || (h == 0 && m == 0) {
        let ss = dec_of_u64(sec);
        r.append(ss.as_str());
        r.append("S");
    }
    proof {
        assert(r@ =~= duration_spec(seconds as int));
    }
    r
}

/// A zero total renders as `PT0S`, never as the bare `PT`.
pub proof fn lemma_zero_duration_renders_pt0s()
    ensures
        duration_spec(0) == "PT0S"@,
{
    reveal_strlit("PT");
    reveal_strlit("S");
    reveal_strlit("PT0S");
    assert(dec_spec(0) =~= seq!['0']);
    assert(duration_spec(0) =~= "PT0S"@);
}

proof fn lemma_parse_one_component(v: int, unit: char, rest: Seq<char>, stage: int)
    requires
        0 <= v,
        (unit == 'H' && stage <= 0) || (unit == 'M' && stage <= 1) || (unit == 'S' && stage
            <= 2),
    ensures
        parse_components(dec_spec(v) + seq![unit] + rest, stage) == opt_add_mul(
            v,
            if unit == 'H' { 3600int } else if unit == 'M' { 60int } else { 1int },
            parse_components(rest, if unit == 'H' { 1int } else if unit == 'M' { 2int } else { 3int }),
        ),
{
    let d = dec_spec(v);
    let s = d + seq![unit] + rest;
    lemma_dec_spec_digits(v);
    assert(!is_digit(unit));
    assert(s =~= d + (seq![unit] + rest));
    assert((seq![unit] + rest)[0] == unit);
    lemma_leading_digits_concat(d, seq![unit] + rest);
    assert(leading_digits(s) == d.len());
    assert(s.take(d.len() as int) =~= d);
    lemma_dec_val_of_dec_spec(v);
    assert(s[d.len() as int] == unit);
    assert(s.skip(d.len() + 1int) =~= rest);
    assert(0 < d.len() < s.len());
}

/// Formatting a second count and parsing the result gives back the same
/// count: the duration encoding loses nothing.
pub proof fn lemma_duration_round_trip(total: int)
    requires
        0 <= total,
    ensures
        parse_duration_spec(duration_spec(total)) == Some(total),
{
    reveal_strlit("PT");
    reveal_strlit("H");
    reveal_strlit("M");
    reveal_strlit("S");
    let h = total / 3600;
    let rem = total % 3600;
    let m = rem / 60;
    let sec = rem % 60;
    assert(0 <= rem < 3600 && h >= 0 && total == h * 3600 + rem) by (nonlinear_arith)
        requires total >= 0 && h == total / 3600 && rem == total % 3600;
    assert(0 <= sec < 60 && 0 <= m < 60 && rem == m * 60 + sec) by (nonlinear_arith)
        requires 0 <= rem < 3600 && m == rem / 60 && sec == rem % 60;
    let s = duration_spec(total);
    let hp: Seq<char> = if h > 0 { dec_spec(h) + "H"@ } else { Seq::<char>::empty() };
    let mp: Seq<char> = if m > 0 { dec_spec(m) + "M"@ } else { Seq::<char>::empty() };
    let sp: Seq<char> = if sec > 0 || (h == 0 && m == 0) {
        dec_spec(sec) + "S"@
    } else {
        Seq::<char>::empty()
    };
    let body = hp + mp + sp;
    assert(s =~= "PT"@ + body);
    assert(starts_with_spec(s, "PT"@)) by {
        assert(s.subrange(0, 2) =~= "PT"@);
    }
    assert(s.skip(2) =~= body);
    assert("H"@ =~= seq!['H']);
    assert("M"@ =~= seq!['M']);
    assert("S"@ =~= seq!['S']);
    if sec > 0 || (h == 0 && m == 0) {
        assert(parse_components(Seq::<char>::empty(), 3) == Some(0int));
        lemma_parse_one_component(sec, 'S', Seq::<char>::empty(), 2);
        assert(dec_spec(sec) + seq!['S'] + Seq::<char>::empty() =~= sp);
        assert(parse_components(sp, 2) == Some(sec));
    } else {
        assert(sp =~= Seq::<char>::empty());
        assert(parse_components(sp, 2) == Some(0int));
    }
    let sec_total: int = if sec > 0 || (h == 0 && m == 0) { sec } else { 0 };
    assert(parse_components(sp, 2) == Some(sec_total));
    assert(sec_total == sec);
    if h > 0 {
        if m > 0 {
            lemma_parse_one_component(m, 'M', sp, 1);
            assert(dec_spec(m) + seq!['M'] + sp =~= mp + sp);
            assert(parse_components(mp + sp, 1) == Some(m * 60 + sec));
        } else if sec > 0 {
            lemma_parse_one_component(sec, 'S', Seq::<char>::empty(), 1);
            assert(dec_spec(sec) + seq!['S'] + Seq::<char>::empty() =~= sp);
            assert(mp + sp =~= sp);
            assert(parse_components(mp + sp, 1) == Some(sec));
        } else {
            assert(mp + sp =~= Seq::<char>::empty());
            assert(parse_components(mp + sp, 1) == Some(0int));
        }
        assert(parse_components(mp + sp, 1) == Some(m * 60 + sec));
        lemma_parse_one_component(h, 'H', mp + sp, 0);
        assert(dec_spec(h) + seq!['H'] + (mp + sp) =~= body);
        assert(parse_components(body, 0) == Some(h * 3600 + (m * 60 + sec)));
    } else {
        if m > 0 {
            lemma_parse_one_component(m, 'M', sp, 0);
            assert(dec_spec(m) + seq!['M'] + sp =~= mp + sp);
            assert(body =~= mp + sp);
            assert(parse_components(body, 0) == Some(m * 60 + sec));
        } else {
            // a zero total still renders a seconds component
            lemma_parse_one_component(sec, 'S', Seq::<char>::empty(), 0);
            assert(dec_spec(sec) + seq!['S'] + Seq::<char>::empty() =~= sp);
            assert(body =~= sp);
            assert(parse_components(body, 0) == Some(sec));
        }
        assert(parse_components(body, 0) == Some(h * 3600 + (m * 60 + sec)));
    }
    assert(h * 3600 + (m * 60 + sec) == total);
}

} // verus!
