//! Verified character and string helpers used throughout the crate:
//! substring search, prefix/suffix tests, decimal parsing and formatting.
use vstd::prelude::*;

verus! {

/// The pattern `p` occurs in `s` at offset `i`.
pub open spec fn spec_contains_at(s: Seq<char>, p: Seq<char>, i: int) -> bool {
    0 <= i && i + p.len() <= s.len() && s.subrange(i, i + p.len()) == p
}

/// The pattern `p` occurs somewhere in `s`.
pub open spec fn spec_contains(s: Seq<char>, p: Seq<char>) -> bool {
    exists|i: int| spec_contains_at(s, p, i)
}

/// `p` is a prefix of `s`.
pub open spec fn spec_starts_with(s: Seq<char>, p: Seq<char>) -> bool {
    p.len() <= s.len() && s.subrange(0, p.len() as int) == p
}

/// `p` is a suffix of `s`.
pub open spec fn spec_ends_with(s: Seq<char>, p: Seq<char>) -> bool {
    p.len() <= s.len() && s.subrange(s.len() - p.len(), s.len() as int) == p
}

/// Compares the characters of `s` and `p` at offset `i`.
fn match_at(s: &str, p: &str, i: usize) -> (r: bool)
    requires
        i + p@.len() <= s@.len(),
        s@.len() <= usize::MAX,
    ensures
        r == spec_contains_at(s@, p@, i as int),
{
    let m = p.unicode_len();
    let mut j: usize = 0;
    while j < m
        invariant
            j <= m,
            m == p@.len(),
            i + m <= s@.len(),
            s@.len() <= usize::MAX,
            forall|k: int| 0 <= k < j ==> s@[i + k] == p@[k],
        decreases m - j,
    {
        if s.get_char(i + j) != p.get_char(j) {
            proof {
                assert(s@.subrange(i as int, i + m) != p@) by {
                    assert(s@.subrange(i as int, i + m)[j as int] == s@[i + j]);
                }
            }
            return false;
        }
        j = j + 1;
    }
    proof {
        assert(s@.subrange(i as int, i + m) =~= p@);
    }
    true
}

/// Whether `p` occurs as a substring of `s`.
pub fn contains_str(s: &str, p: &str) -> (r: bool)
    ensures
        r == spec_contains(s@, p@),
{
    let n = s.unicode_len();
    let m = p.unicode_len();
    if m > n {
        return false;
    }
    if m == 0 {
        proof {
            assert(s@.subrange(0, 0) =~= p@);
            assert(spec_contains_at(s@, p@, 0));
        }
        return true;
    }
    let mut i: usize = 0;
    while i <= n - m
        invariant
            1 <= m <= n,
            n == s@.len(),
            m == p@.len(),
            i <= n - m + 1,
            forall|k: int| 0 <= k < i ==> !spec_contains_at(s@, p@, k),
        decreases n - i,
    {
        if match_at(s, p, i) {
            return true;
        }
        i = i + 1;
    }
    assert(forall|k: int| spec_contains_at(s@, p@, k) ==> 0 <= k < i) by {
        assert(i == n - m + 1);
    }
    false
}

/// Whether `p` is a prefix of `s`.
pub fn starts_with(s: &str, p: &str) -> (r: bool)
    ensures
        r == spec_starts_with(s@, p@),
{
    let n = s.unicode_len();
    let m = p.unicode_len();
    if m > n {
        return false;
    }
    match_at(s, p, 0)
}

/// Whether `p` is a suffix of `s`.
pub fn ends_with(s: &str, p: &str) -> (r: bool)
    ensures
        r == spec_ends_with(s@, p@),
{
    let n = s.unicode_len();
    let m = p.unicode_len();
    if m > n {
        return false;
    }
    match_at(s, p, n - m)
}

/// Whether the views of two string slices are equal.
pub fn str_eq(s: &str, p: &str) -> (r: bool)
    ensures
        r == (s@ == p@),
{
    let n = s.unicode_len();
    let m = p.unicode_len();
    if m != n {
        return false;
    }
    let r = match_at(s, p, 0);
    proof {
        assert(s@.subrange(0, s@.len() as int) =~= s@);
    }
    r
}

/// The index of the last occurrence of `c` in `s`, if any.
pub fn rindex_of(s: &str, c: char) -> (r: Option<usize>)
    ensures
        match r {
            Some(i) => i < s@.len() && s@[i as int] == c && (forall|j: int|
                i < j < s@.len() ==> s@[j] != c),
            None => forall|j: int| 0 <= j < s@.len() ==> s@[j] != c,
        },
{
    let n = s.unicode_len();
    let mut i: usize = n;
    while i > 0
        invariant
            i <= n,
            n == s@.len(),
            forall|j: int| i <= j < s@.len() ==> s@[j] != c,
        decreases i,
    {
        i = i - 1;
        if s.get_char(i) == c {
            return Some(i);
        }
    }
    None
}

/// `c` is an ASCII decimal digit.
pub open spec fn spec_is_digit(c: char) -> bool {
    48 <= c as u32 <= 57
}

/// The numeric value of an ASCII decimal digit.
pub open spec fn spec_digit_val(c: char) -> int {
    c as u32 - 48
}

/// Every character of `s` is an ASCII decimal digit.
pub open spec fn spec_all_digits(s: Seq<char>) -> bool {
    forall|i: int| 0 <= i < s.len() ==> spec_is_digit(#[trigger] s[i])
}

/// The value of a sequence of ASCII decimal digits, most significant first.
pub open spec fn spec_digits_val(s: Seq<char>) -> int
    decreases s.len(),
{
    if s.len() == 0 {
        0
    } else {
        spec_digits_val(s.drop_last()) * 10 + spec_digit_val(s.last())
    }
}

/// Parses a non-empty run of at most 9 ASCII decimal digits.
pub fn parse_digits(s: &str) -> (r: Option<u32>)
    ensures
        match r {
            Some(v) => s@.len() > 0 && s@.len() <= 9 && spec_all_digits(s@) && v
                == spec_digits_val(s@),
            None => s@.len() == 0 || s@.len() > 9 || !spec_all_digits(s@),
        },
{
    let n = s.unicode_len();
    if n == 0 || n > 9 {
        return None;
    }
    let mut v: u32 = 0;
    let mut i: usize = 0;
    while i < n
        invariant
            i <= n,
            n == s@.len(),
            n <= 9,
            spec_all_digits(s@.subrange(0, i as int)),
            v == spec_digits_val(s@.subrange(0, i as int)),
            v < 1000000000,
        decreases n - i,
    {
        let c = s.get_char(i);
        let u = c as u32;
        if u < 48 || u > 57 {
            proof {
                assert(!spec_is_digit(s@[i as int]));
            }
            return None;
        }
        proof {
            assert(s@.subrange(0, i + 1).drop_last() =~= s@.subrange(0, i as int));
            assert(s@.subrange(0, i + 1).last() == s@[i as int]);
            assert(forall|k: int|
                0 <= k < i + 1 ==> spec_is_digit(#[trigger] s@.subrange(0, i + 1)[k]));
            assert(spec_digits_val(s@.subrange(0, i as int)) < 100000000) by {
                lemma_digits_val_bound(s@.subrange(0, i as int));
                lemma_pow10_mono(i as nat, 8);
                assert(pow10(8) == 100000000) by {
                    reveal_with_fuel(pow10, 9);
                }
            }
        }
        v = v * 10 + (u - 48);
        i = i + 1;
    }
    proof {
        assert(s@.subrange(0, n as int) =~= s@);
    }
    Some(v)
}

/// Ten to the power `e`.
pub open spec fn pow10(e: nat) -> int
    decreases e,
{
    if e == 0 {
        1
    } else {
        10 * pow10((e - 1) as nat)
    }
}

proof fn lemma_pow10_mono(a: nat, b: nat)
    requires
        a <= b,
    ensures
        1 <= pow10(a) <= pow10(b),
    decreases b,
{
    if a == b {
        if a == 0 {
        } else {
            lemma_pow10_mono((a - 1) as nat, (b - 1) as nat);
        }
    } else {
        lemma_pow10_mono(a, (b - 1) as nat);
    }
}

/// The value of a digit string is below ten to its length.
pub proof fn lemma_digits_val_bound(s: Seq<char>)
    requires
        spec_all_digits(s),
    ensures
        0 <= spec_digits_val(s) < pow10(s.len() as nat),
    decreases s.len(),
{
    if s.len() > 0 {
        assert(spec_all_digits(s.drop_last()));
        lemma_digits_val_bound(s.drop_last());
    }
}

/// The digit character for a value below ten.
pub open spec fn spec_digit_char(d: int) -> char {
    if d == 0 {
        '0'
    } else if d == 1 {
        '1'
    } else if d == 2 {
        '2'
    } else if d == 3 {
        '3'
    } else if d == 4 {
        '4'
    } else if d == 5 {
        '5'
    } else if d == 6 {
        '6'
    } else if d == 7 {
        '7'
    } else if d == 8 {
        '8'
    } else {
        '9'
    }
}

/// The decimal digit characters of `n`, most significant first.
pub open spec fn spec_u32_digits(n: int) -> Seq<char>
    decreases n,
{
    if n <= 0 {
        seq![]
    } else {
        spec_u32_digits(n / 10).push(spec_digit_char(n % 10))
    }
}

/// The decimal rendering of `n`, as `format!` would print it.
pub open spec fn spec_u32_string(n: int) -> Seq<char> {
    if n == 0 {
        seq!['0']
    } else {
        spec_u32_digits(n)
    }
}

fn digit_char(d: u32) -> (c: char)
    requires
        d < 10,
    ensures
        c == spec_digit_char(d as int),
{
    match d {
        0 => '0',
        1 => '1',
        2 => '2',
        3 => '3',
        4 => '4',
        5 => '5',
        6 => '6',
        7 => '7',
        8 => '8',
        _ => '9',
    }
}

fn u32_digit_chars(n: u32) -> (r: Vec<char>)
    ensures
        r@ == spec_u32_digits(n as int),
    decreases n,
{
    if n == 0 {
        let r: Vec<char> = Vec::new();
        assert(r@ =~= spec_u32_digits(0));
        r
    } else {
        let mut r = u32_digit_chars(n / 10);
        r.push(digit_char(n % 10));
        r
    }
}

/// Collects the characters of `chars` into an owned string.
///
/// Relies on `String`'s `FromIterator<char>` implementation: the collected
/// string holds exactly the characters of the iterator, in order.
#[verifier::external_body]
pub(crate) fn string_from_chars(chars: &Vec<char>) -> (r: String)
    ensures
        r@ == chars@,
{
    chars.iter().collect()
}

/// Renders `n` in decimal.
pub fn u32_to_string(n: u32) -> (r: String)
    ensures
        r@ == spec_u32_string(n as int),
{
    if n == 0 {
        let mut v: Vec<char> = Vec::new();
        v.push('0');
        let r = string_from_chars(&v);
        proof {
            assert(r@ =~= seq!['0']);
        }
        r
    } else {
        let v = u32_digit_chars(n);
        string_from_chars(&v)
    }
}

} // verus!

verus! {

/// The value paired with the first occurrence of `key` in an association
/// list, if any.
pub open spec fn spec_assoc<V>(entries: Seq<(String, V)>, key: Seq<char>) -> Option<V>
    decreases entries.len(),
{
    if entries.len() == 0 {
        None
    } else if entries[0].0@ == key {
        Some(entries[0].1)
    } else {
        spec_assoc(entries.drop_first(), key)
    }
}

/// Looks `key` up in an association list; the first match wins.
pub fn assoc_lookup<'a, V>(entries: &'a Vec<(String, V)>, key: &str) -> (r: Option<&'a V>)
    ensures
        match r {
            Some(v) => spec_assoc(entries@, key@) == Some(*v),
            None => spec_assoc(entries@, key@) is None,
        },
{
    let n = entries.len();
    proof {
        assert(entries@.skip(0) =~= entries@);
    }
    let mut i: usize = 0;
    while i < n
        invariant
            i <= n,
            n == entries@.len(),
            spec_assoc(entries@, key@) == spec_assoc(entries@.skip(i as int), key@),
        decreases n - i,
    {
        proof {
            assert(entries@.skip(i as int)[0] == entries@[i as int]);
            assert(entries@.skip(i as int).drop_first() =~= entries@.skip(i + 1));
        }
        if str_eq(entries[i].0.as_str(), key) {
            return Some(&entries[i].1);
        }
        i = i + 1;
    }
    proof {
        assert(entries@.skip(n as int) =~= Seq::<(String, V)>::empty());
    }
    None
}

} // verus!

verus! {

/// The decimal rendering of a signed integer.
pub open spec fn spec_i32_string(n: int) -> Seq<char> {
    if n < 0 {
        seq!['-'] + spec_u32_string(-n)
    } else {
        spec_u32_string(n)
    }
}

/// Renders `n` in decimal, with a leading minus sign when negative.
pub fn i32_to_string(n: i32) -> (r: String)
    ensures
        r@ == spec_i32_string(n as int),
{
    if n < 0 {
        let wide: i64 = n as i64;
        let mag: u32 = (-wide) as u32;
        let mut s = String::from_str("-");
        let digits = u32_to_string(mag);
        s.append(digits.as_str());
        proof {
            reveal_strlit("-");
            assert(s@ =~= spec_i32_string(n as int));
        }
        s
    } else {
        u32_to_string(n as u32)
    }
}

} // verus!

verus! {

fn u64_digit_chars(n: u64) -> (r: Vec<char>)
    ensures
        r@ == spec_u32_digits(n as int),
    decreases n,
{
    if n == 0 {
        let r: Vec<char> = Vec::new();
        assert(r@ =~= spec_u32_digits(0));
        r
    } else {
        let mut r = u64_digit_chars(n / 10);
        r.push(digit_char((n % 10) as u32));
        r
    }
}

/// Renders `n` in decimal.
pub fn u64_to_string(n: u64) -> (r: String)
    ensures
        r@ == spec_u32_string(n as int),
{
    if n == 0 {
        u32_to_string(0)
    } else {
        let v = u64_digit_chars(n);
        string_from_chars(&v)
    }
}

/// Renders `n` in decimal, with a leading minus sign when negative.
pub fn i64_to_string(n: i64) -> (r: String)
    ensures
        r@ == spec_i32_string(n as int),
{
    if n < 0 {
        let mag: u64 = ((-(n + 1)) as u64) + 1;
        let mut s = String::from_str("-");
        let digits = u64_to_string(mag);
        s.append(digits.as_str());
        proof {
            reveal_strlit("-");
            assert(s@ =~= spec_i32_string(n as int));
        }
        s
    } else {
        u64_to_string(n as u64)
    }
}

} // verus!

verus! {

/// The Gregorian calendar date (year, month, day) of a day count since
/// the Unix epoch, by the standard Julian-day-number inversion. Meaningful
/// for day counts at or after the proleptic year 1; the arithmetic is
/// total regardless.
pub open spec fn spec_gregorian_of_days(days: int) -> (int, int, int) {
    let jdn = days + 2440588;
    let f = jdn + 1401 + (((4 * jdn + 274277) / 146097) * 3) / 4 - 38;
    let e = 4 * f + 3;
    let g = (e % 1461) / 4;
    let h = 5 * g + 2;
    let d = (h % 153) / 5 + 1;
    let m = ((h / 153 + 2) % 12) + 1;
    let y = e / 1461 - 4716 + (14 - m) / 12;
    (y, m, d)
}

/// The decimal rendering of `n`, left-padded with zeros to `width`.
pub open spec fn spec_zero_padded(n: int, width: int) -> Seq<char> {
    let s = spec_u32_string(n);
    if s.len() >= width {
        s
    } else {
        Seq::new((width - s.len()) as nat, |i: int| '0') + s
    }
}

/// Renders `n` in decimal, left-padded with zeros to `width`.
pub fn zero_padded(n: u64, width: usize) -> (r: String)
    ensures
        r@ == spec_zero_padded(n as int, width as int),
{
    let digits = u64_to_string(n);
    let len = digits.unicode_len();
    if len >= width {
        return digits;
    }
    let pad = width - len;
    let mut v: Vec<char> = Vec::new();
    let mut i: usize = 0;
    while i < pad
        invariant
            i <= pad,
            v@.len() == i,
            forall|k: int| 0 <= k < i ==> v@[k] == '0',
        decreases pad - i,
    {
        v.push('0');
        i = i + 1;
    }
    let mut j: usize = 0;
    while j < len
        invariant
            j <= len,
            len == digits@.len(),
            v@.len() == pad + j,
            forall|k: int| 0 <= k < pad ==> v@[k] == '0',
            forall|k: int| 0 <= k < j ==> v@[pad + k] == digits@[k],
        decreases len - j,
    {
        v.push(digits.get_char(j));
        j = j + 1;
    }
    let r = string_from_chars(&v);
    proof {
        assert(r@ =~= Seq::new(pad as nat, |i: int| '0') + digits@);
    }
    r
}

/// The code a date value presents to a dictionary: its calendar form
/// `YYYYMMDD` for day counts at or after the proleptic year 1, the plain
/// day number otherwise.
pub open spec fn spec_date_code(days: int) -> Seq<char> {
    let t = spec_gregorian_of_days(days);
    if days >= -2440588 && t.0 >= 1 {
        spec_zero_padded(t.0, 4) + spec_zero_padded(t.1, 2) + spec_zero_padded(t.2, 2)
    } else {
        spec_i32_string(days)
    }
}

/// Renders a day count since the Unix epoch in the `YYYYMMDD` calendar
/// form (falling back to the plain day number before the proleptic year
/// 1).
pub fn date_code_string(days: i32) -> (r: String)
    ensures
        r@ == spec_date_code(days as int),
{
    if days < -2440588 {
        return i32_to_string(days);
    }
    let jdn: u64 = ((days as i64) + 2440588) as u64;
    let q: u64 = (4 * jdn + 274277) / 146097;
    proof {
        assert(q <= 4 * jdn + 274277) by {
            assert(q * 146097 <= 4 * jdn + 274277) by (nonlinear_arith)
                requires q == (4 * jdn + 274277) / 146097;
            assert(q <= q * 146097) by (nonlinear_arith);
        }
    }
    let f: u64 = jdn + 1401 + (q * 3) / 4 - 38;
    let e: u64 = 4 * f + 3;
    let g: u64 = (e % 1461) / 4;
    let h: u64 = 5 * g + 2;
    let d: u64 = (h % 153) / 5 + 1;
    let m: u64 = ((h / 153 + 2) % 12) + 1;
    let year_base: u64 = e / 1461 + (14 - m) / 12;
    if year_base < 4717 {
        return i32_to_string(days);
    }
    let y: u64 = year_base - 4716;
    let mut s = zero_padded(y, 4);
    let ms = zero_padded(m, 2);
    let ds = zero_padded(d, 2);
    s.append(ms.as_str());
    s.append(ds.as_str());
    s
}

} // verus!
