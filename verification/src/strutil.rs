//! Verified text utilities: substring search, prefix/suffix tests,
//! case-insensitive comparison for ASCII, trimming, and decimal
//! conversion in both directions. All contracts are stated over the
//! `Seq<char>` views of `&str` and `String`.

use vstd::prelude::*;

verus! {

/// The pattern `p` occurs in `s` at position `i`.
pub open spec fn match_at(s: Seq<char>, p: Seq<char>, i: int) -> bool {
    0 <= i && i + p.len() <= s.len() && s.subrange(i, i + p.len() as int) == p
}

/// Position of the first occurrence of `p` in `s` at or after `from`.
pub open spec fn find_from_spec(s: Seq<char>, p: Seq<char>, from: int) -> Option<int>
    decreases s.len() - from + 1,
{
    if from < 0 || from + p.len() > s.len() {
        None
    } else if match_at(s, p, from) {
        Some(from)
    } else {
        find_from_spec(s, p, from + 1)
    }
}

pub open spec fn contains_seq(s: Seq<char>, p: Seq<char>) -> bool {
    find_from_spec(s, p, 0).is_some()
}

/// Compare `s[i .. i + p.len()]` with `p`.
fn eq_at(s: &str, p: &str, i: usize) -> (r: bool)
    requires
        i + p@.len() <= s@.len(),
    ensures
        r == match_at(s@, p@, i as int),
{
    let slen = s.unicode_len();
    let plen = p.unicode_len();
    let mut j: usize = 0;
    while j < plen
        invariant
            j <= plen,
            slen == s@.len(),
            plen == p@.len(),
            i + plen <= slen,
            forall|k: int| 0 <= k < j ==> s@[i + k] == p@[k],
        decreases plen - j,
    {
        if s.get_char(i + j) != p.get_char(j) {
            assert(s@.subrange(i as int, i + plen as int)[j as int] != p@[j as int]);
            return false;
        }
        j = j + 1;
    }
    assert(s@.subrange(i as int, i + plen as int) =~= p@);
    true
}

/// Whether `p` occurs in `s` at exactly position `i`, bounds included.
pub fn check_match_at(s: &str, p: &str, i: usize) -> (r: bool)
    ensures
        r == match_at(s@, p@, i as int),
{
    let slen = s.unicode_len();
    let plen = p.unicode_len();
    if i > slen || plen > slen - i {
        return false;
    }
    eq_at(s, p, i)
}

/// First occurrence of `p` in `s` at or after `from`, if any.
pub fn find_from(s: &str, p: &str, from: usize) -> (r: Option<usize>)
    ensures
        r.is_some() == find_from_spec(s@, p@, from as int).is_some(),
        r matches Some(i) ==> find_from_spec(s@, p@, from as int) == Some(i as int),
{
    let slen = s.unicode_len();
    let plen = p.unicode_len();
    if plen > slen || from > slen - plen {
        assert(find_from_spec(s@, p@, from as int).is_none()) by {
            lemma_find_none_past_end(s@, p@, from as int);
        }
        return None;
    }
    let limit = slen - plen;
    let mut i: usize = from;
    while i <= limit
        invariant
            from <= i,
            slen == s@.len(),
            plen == p@.len(),
            limit == slen - plen,
            i <= limit + 1,
            find_from_spec(s@, p@, from as int) == find_from_spec(s@, p@, i as int),
        decreases limit + 1 - i,
    {
        if eq_at(s, p, i) {
            return Some(i);
        }
        if i == limit {
            assert(find_from_spec(s@, p@, i + 1).is_none()) by {
                lemma_find_none_past_end(s@, p@, i + 1);
            }
            return None;
        }
        i = i + 1;
    }
    assert(find_from_spec(s@, p@, i as int).is_none()) by {
        lemma_find_none_past_end(s@, p@, i as int);
    }
    None
}

proof fn lemma_find_none_past_end(s: Seq<char>, p: Seq<char>, from: int)
    requires
        from + p.len() > s.len(),
    ensures
        find_from_spec(s, p, from).is_none(),
{
}

pub open spec fn starts_with_spec(s: Seq<char>, p: Seq<char>) -> bool {
    p.len() <= s.len() && s.subrange(0, p.len() as int) == p
}

pub open spec fn ends_with_spec(s: Seq<char>, p: Seq<char>) -> bool {
    p.len() <= s.len() && s.subrange(s.len() - p.len(), s.len() as int) == p
}

pub fn starts_with(s: &str, p: &str) -> (r: bool)
    ensures
        r == starts_with_spec(s@, p@),
{
    let slen = s.unicode_len();
    let plen = p.unicode_len();
    if plen > slen {
        return false;
    }
    eq_at(s, p, 0)
}

pub fn ends_with(s: &str, p: &str) -> (r: bool)
    ensures
        r == ends_with_spec(s@, p@),
{
    let slen = s.unicode_len();
    let plen = p.unicode_len();
    if plen > slen {
        return false;
    }
    eq_at(s, p, slen - plen)
}

pub fn str_eq(a: &str, b: &str) -> (r: bool)
    ensures
        r == (a@ == b@),
{
    let alen = a.unicode_len();
    let blen = b.unicode_len();
    if alen != blen {
        return false;
    }
    let r = eq_at(a, b, 0);
    assert(a@.subrange(0, a@.len() as int) =~= a@);
    if r {
        assert(a@ =~= b@);
    }
    r
}

/// Copy the character range `[from, to)` of `s` into an owned string.
pub fn substring(s: &str, from: usize, to: usize) -> (r: String)
    requires
        from <= to <= s@.len(),
    ensures
        r@ == s@.subrange(from as int, to as int),
{
    s.substring_char(from, to).to_owned()
}

// ---------------------------------------------------------------------------
// Substring replacement
// ---------------------------------------------------------------------------

/// `s` with every occurrence of `from` replaced by `to`, scanning left to
/// right without revisiting replaced text.
pub open spec fn replace_all_spec(s: Seq<char>, from: Seq<char>, to: Seq<char>) -> Seq<char>
    decreases s.len(),
    via replace_all_spec_decreases
{
    if from.len() == 0 {
        s
    } else {
        match find_from_spec(s, from, 0) {
            Some(i) => s.take(i) + to + replace_all_spec(
                s.skip(i + from.len() as int),
                from,
                to,
            ),
            None => s,
        }
    }
}

#[via_fn]
proof fn replace_all_spec_decreases(s: Seq<char>, from: Seq<char>, to: Seq<char>) {
    if from.len() > 0 {
        match find_from_spec(s, from, 0) {
            Some(i) => {
                lemma_find_match(s, from, 0, i);
            }
            None => {}
        }
    }
}

pub fn replace_all(s: &str, from: &str, to: &str) -> (r: String)
    requires
        from@.len() > 0,
    ensures
        r@ == replace_all_spec(s@, from@, to@),
    decreases s@.len(),
{
    match find_from(s, from, 0) {
        None => s.to_owned(),
        Some(i) => {
            proof {
                lemma_find_match(s@, from@, 0, i as int);
            }
            let flen = from.unicode_len();
            let slen = s.unicode_len();
            let mut r = substring(s, 0, i);
            r.append(to);
            let rest = s.substring_char(i + flen, slen);
            let tail = replace_all(rest, from, to);
            r.append(tail.as_str());
            proof {
                assert(rest@ =~= s@.skip(i + from@.len() as int));
                assert(s@.subrange(0, i as int) =~= s@.take(i as int));
                assert(r@ =~= replace_all_spec(s@, from@, to@));
            }
            r
        }
    }
}

pub proof fn lemma_find_match(s: Seq<char>, p: Seq<char>, from: int, i: int)
    requires
        find_from_spec(s, p, from) == Some(i),
        from >= 0,
    ensures
        match_at(s, p, i),
        from <= i,
    decreases s.len() - from + 1,
{
    if from + p.len() <= s.len() && !match_at(s, p, from) {
        lemma_find_match(s, p, from + 1, i);
    }
}

// ---------------------------------------------------------------------------
// Case-insensitive comparison (ASCII letters only)
// ---------------------------------------------------------------------------

/// Code point of `c` with an ASCII upper-case letter folded to lower case.
pub open spec fn lower_code(c: char) -> u32 {
    if 65 <= c as u32 && c as u32 <= 90 {
        (c as u32 + 32) as u32
    } else {
        c as u32
    }
}

pub open spec fn eq_ci_char(a: char, b: char) -> bool {
    lower_code(a) == lower_code(b)
}

/// The two texts are equal up to ASCII letter case.
pub open spec fn seq_eq_ci(a: Seq<char>, b: Seq<char>) -> bool {
    a.len() == b.len() && forall|i: int| 0 <= i < a.len() ==> eq_ci_char(a[i], b[i])
}

fn char_lower_code(c: char) -> (r: u32)
    ensures
        r == lower_code(c),
{
    let x = c as u32;
    if 65 <= x && x <= 90 {
        x + 32
    } else {
        x
    }
}

pub fn str_eq_ci(a: &str, b: &str) -> (r: bool)
    ensures
        r == seq_eq_ci(a@, b@),
{
    let alen = a.unicode_len();
    let blen = b.unicode_len();
    if alen != blen {
        return false;
    }
    let mut i: usize = 0;
    while i < alen
        invariant
            i <= alen,
            alen == a@.len(),
            alen == b@.len(),
            forall|k: int| 0 <= k < i ==> eq_ci_char(a@[k], b@[k]),
        decreases alen - i,
    {
        if char_lower_code(a.get_char(i)) != char_lower_code(b.get_char(i)) {
            return false;
        }
        i = i + 1;
    }
    true
}

// ---------------------------------------------------------------------------
// Whitespace trimming
// ---------------------------------------------------------------------------

pub open spec fn is_space(c: char) -> bool {
    c == ' ' || c == '\t' || c == '\r' || c == '\n'
}

pub open spec fn trim_front_spec(s: Seq<char>) -> Seq<char>
    decreases s.len(),
{
    if s.len() > 0 && is_space(s[0]) {
        trim_front_spec(s.drop_first())
    } else {
        s
    }
}

pub open spec fn trim_back_spec(s: Seq<char>) -> Seq<char>
    decreases s.len(),
{
    if s.len() > 0 && is_space(s.last()) {
        trim_back_spec(s.drop_last())
    } else {
        s
    }
}

/// `s` with leading and trailing ASCII whitespace removed.
pub open spec fn trim_spec(s: Seq<char>) -> Seq<char> {
    trim_back_spec(trim_front_spec(s))
}

proof fn lemma_trim_front(s: Seq<char>, i: int)
    requires
        0 <= i <= s.len(),
        forall|k: int| 0 <= k < i ==> is_space(s[k]),
        i == s.len() || !is_space(s[i]),
    ensures
        trim_front_spec(s) == s.skip(i),
    decreases i,
{
    if i == 0 {
        assert(s.skip(0) =~= s);
    } else {
        lemma_trim_front(s.drop_first(), i - 1);
        assert(s.drop_first().skip(i - 1) =~= s.skip(i));
    }
}

proof fn lemma_trim_back(s: Seq<char>, j: int)
    requires
        0 <= j <= s.len(),
        forall|k: int| j <= k < s.len() ==> is_space(s[k]),
        j == 0 || !is_space(s[j - 1]),
    ensures
        trim_back_spec(s) == s.take(j),
    decreases s.len(),
{
    if j == s.len() && (s.len() == 0 || !is_space(s.last())) {
        assert(s.take(j) =~= s);
    } else {
        lemma_trim_back(s.drop_last(), j);
        assert(s.drop_last().take(j) =~= s.take(j));
    }
}

/// Copy of `s` with leading and trailing ASCII whitespace removed.
pub fn trim(s: &str) -> (r: String)
    ensures
        r@ == trim_spec(s@),
{
    let slen = s.unicode_len();
    let mut i: usize = 0;
    while i < slen && is_space_char(s.get_char(i))
        invariant
            i <= slen,
            slen == s@.len(),
            forall|k: int| 0 <= k < i ==> is_space(s@[k]),
        decreases slen - i,
    {
        i = i + 1;
    }
    let mut j: usize = slen;
    while j > i && is_space_char(s.get_char(j - 1))
        invariant
            i <= j <= slen,
            slen == s@.len(),
            forall|k: int| 0 <= k < i ==> is_space(s@[k]),
            forall|k: int| j <= k < slen ==> is_space(s@[k]),
        decreases j,
    {
        j = j - 1;
    }
    let r = substring(s, i, j);
    proof {
        lemma_trim_front(s@, i as int);
        lemma_trim_back(s@.skip(i as int), j - i);
        assert(s@.skip(i as int).take(j - i) =~= s@.subrange(i as int, j as int));
    }
    r
}

pub fn is_space_char(c: char) -> (r: bool)
    ensures
        r == is_space(c),
{
    c == ' ' || c == '\t' || c == '\r' || c == '\n'
}

// ---------------------------------------------------------------------------
// Decimal numbers
// ---------------------------------------------------------------------------

pub open spec fn is_digit(c: char) -> bool {
    48 <= c as u32 && c as u32 <= 57
}

pub open spec fn digit_val(c: char) -> int {
    c as u32 - 48
}

pub open spec fn all_digits(s: Seq<char>) -> bool {
    forall|i: int| 0 <= i < s.len() ==> is_digit(s[i])
}

/// Value of a string of decimal digits, most significant first.
pub open spec fn dec_val(s: Seq<char>) -> int
    decreases s.len(),
{
    if s.len() == 0 {
        0
    } else {
        dec_val(s.drop_last()) * 10 + digit_val(s.last())
    }
}

pub open spec fn digit_char(d: int) -> char {
    if d == 0 { '0' }
    else if d == 1 { '1' }
    else if d == 2 { '2' }
    else if d == 3 { '3' }
    else if d == 4 { '4' }
    else if d == 5 { '5' }
    else if d == 6 { '6' }
    else if d == 7 { '7' }
    else if d == 8 { '8' }
    else { '9' }
}

/// Decimal rendering of a non-negative integer, without leading zeros.
pub open spec fn dec_spec(n: int) -> Seq<char>
    decreases n,
{
    if n < 10 {
        seq![digit_char(n)]
    } else {
        dec_spec(n / 10).push(digit_char(n % 10))
    }
}

pub proof fn lemma_dec_spec_digits(n: int)
    requires
        0 <= n,
    ensures
        all_digits(dec_spec(n)),
        dec_spec(n).len() >= 1,
    decreases n,
{
    if n < 10 {
        assert(is_digit(dec_spec(n)[0]));
    } else {
        lemma_dec_spec_digits(n / 10);
        assert(forall|i: int| 0 <= i < dec_spec(n).len() ==> is_digit(dec_spec(n)[i])) by {
            assert(forall|i: int| 0 <= i < dec_spec(n / 10).len() ==> is_digit(
                #[trigger] dec_spec(n)[i],
            )) by {
                assert(forall|i: int| 0 <= i < dec_spec(n / 10).len()
                    ==> dec_spec(n)[i] == dec_spec(n / 10)[i]);
            }
            assert(is_digit(dec_spec(n)[dec_spec(n).len() - 1]));
        }
    }
}

/// Reading back a decimal rendering gives the number itself.
pub proof fn lemma_dec_val_of_dec_spec(n: int)
    requires
        0 <= n,
    ensures
        dec_val(dec_spec(n)) == n,
    decreases n,
{
    if n < 10 {
        assert(dec_spec(n).drop_last() =~= Seq::<char>::empty());
        assert(dec_val(Seq::<char>::empty()) == 0);
        assert(dec_val(dec_spec(n)) == digit_val(digit_char(n)));
    } else {
        lemma_dec_val_of_dec_spec(n / 10);
        assert(dec_spec(n).drop_last() =~= dec_spec(n / 10));
        assert(dec_val(dec_spec(n)) == (n / 10) * 10 + (n % 10));
        assert((n / 10) * 10 + (n % 10) == n) by (nonlinear_arith)
            requires n >= 10;
    }
}

fn digit_str(d: u64) -> (r: &'static str)
    requires
        d < 10,
    ensures
        r@ =~= seq![digit_char(d as int)],
{
    proof {
        reveal_strlit("0");
        reveal_strlit("1");
        reveal_strlit("2");
        reveal_strlit("3");
        reveal_strlit("4");
        reveal_strlit("5");
        reveal_strlit("6");
        reveal_strlit("7");
        reveal_strlit("8");
        reveal_strlit("9");
    }
    match d {
        0 => "0",
        1 => "1",
        2 => "2",
        3 => "3",
        4 => "4",
        5 => "5",
        6 => "6",
        7 => "7",
        8 => "8",
        _ => "9",
    }
}

/// Decimal rendering of `n`.
pub fn dec_of_u64(n: u64) -> (r: String)
    ensures
        r@ == dec_spec(n as int),
    decreases n,
{
    if n < 10 {
        digit_str(n).to_owned()
    } else {
        let mut r = dec_of_u64(n / 10);
        r.append(digit_str(n % 10));
        proof {
            assert(r@ =~= dec_spec(n as int));
        }
        r
    }
}

pub proof fn lemma_dec_val_nonneg(s: Seq<char>)
    requires
        all_digits(s),
    ensures
        dec_val(s) >= 0,
    decreases s.len(),
{
    if s.len() > 0 {
        assert(all_digits(s.drop_last()));
        lemma_dec_val_nonneg(s.drop_last());
    }
}

proof fn lemma_dec_val_prefix(s: Seq<char>, i: int)
    requires
        all_digits(s),
        0 <= i <= s.len(),
    ensures
        dec_val(s.take(i)) <= dec_val(s),
    decreases s.len() - i,
{
    if i == s.len() {
        assert(s.take(i) =~= s);
    } else {
        assert(all_digits(s.take(i + 1)));
        assert(s.take(i + 1).drop_last() =~= s.take(i));
        assert(all_digits(s.take(i)));
        lemma_dec_val_nonneg(s.take(i));
        assert(dec_val(s.take(i)) <= dec_val(s.take(i)) * 10 + digit_val(s.take(i + 1).last()))
            by (nonlinear_arith)
            requires dec_val(s.take(i)) >= 0 && digit_val(s.take(i + 1).last()) >= 0;
        lemma_dec_val_prefix(s, i + 1);
    }
}

/// Parse a non-empty string of decimal digits.
///
/// Returns `None` on an empty string, a non-digit character, or a value
/// that does not fit in a `u64`.
pub fn parse_u64(s: &str) -> (r: Option<u64>)
    ensures
        r.is_some() <==> s@.len() > 0 && all_digits(s@) && dec_val(s@) <= u64::MAX,
        r matches Some(v) ==> v as int == dec_val(s@),
{
    let slen = s.unicode_len();
    if slen == 0 {
        return None;
    }
    let mut acc: u64 = 0;
    let mut i: usize = 0;
    while i < slen
        invariant
            i <= slen,
            slen == s@.len(),
            slen > 0,
            all_digits(s@.take(i as int)),
            acc as int == dec_val(s@.take(i as int)),
        decreases slen - i,
    {
        let c = s.get_char(i);
        let code = c as u32;
        if !(48 <= code && code <= 57) {
            return None;
        }
        let d: u64 = ((code - 48) as u64);
        proof {
            assert(s@.take(i + 1).drop_last() =~= s@.take(i as int));
            assert(all_digits(s@.take(i + 1)));
        }
        let next = match acc.checked_mul(10) {
            Some(m) => m.checked_add(d),
            None => None,
        };
        match next {
            Some(v) => {
                acc = v;
            }
            None => {
                proof {
                    if all_digits(s@) && dec_val(s@) <= u64::MAX {
                        lemma_dec_val_prefix(s@, i + 1);
                        assert(dec_val(s@.take(i + 1)) == acc * 10 + d);
                        assert(acc * 10 + d > u64::MAX);
                    }
                }
                return None;
            }
        }
        i = i + 1;
    }
    proof {
        assert(s@.take(slen as int) =~= s@);
    }
    Some(acc)
}

} // verus!
