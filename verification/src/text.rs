//! Character-level helpers shared by the other modules.
use vstd::prelude::*;

verus! {

/// Copies the characters of a string slice into a vector.
pub fn chars_of(s: &str) -> (v: Vec<char>)
    ensures
        v@ == s@,
{
    let n = s.unicode_len();
    let mut v: Vec<char> = Vec::new();
    let mut i: usize = 0;
    while i < n
        invariant
            n == s@.len(),
            i <= n,
            v@ == s@.take(i as int),
        decreases n - i,
    {
        let c = s.get_char(i);
        v.push(c);
        i = i + 1;
        assert(v@ =~= s@.take(i as int));
    }
    assert(v@ =~= s@);
    v
}

/// Builds a `String` from a vector of characters; std's `FromIterator<char>` for `String`
/// is trusted to keep the characters in order.
#[verifier::external_body]
pub fn string_from_chars(v: &Vec<char>) -> (s: String)
    ensures
        s@ == v@,
{
    v.iter().collect()
}

/// `a` followed by `b`.
pub fn concat_str(a: &str, b: &str) -> (r: String)
    ensures
        r@ == a@ + b@,
{
    let mut v = chars_of(a);
    let w = chars_of(b);
    let mut i: usize = 0;
    while i < w.len()
        invariant
            i <= w@.len(),
            w@ == b@,
            v@ == a@ + b@.take(i as int),
        decreases w@.len() - i,
    {
        v.push(w[i]);
        i = i + 1;
        assert(v@ =~= a@ + b@.take(i as int));
    }
    assert(b@.take(w@.len() as int) =~= b@);
    string_from_chars(&v)
}

/// Owned copy of a string slice.
pub fn owned(s: &str) -> (r: String)
    ensures
        r@ == s@,
{
    s.to_owned()
}


/// Decimal digits of `n` (no sign, no leading zeros; `"0"` for zero).
pub open spec fn decimal_text(n: nat) -> Seq<char>
    decreases n,
{
    if n < 10 {
        seq![(('0' as int) + n) as char]
    } else {
        decimal_text(n / 10) + seq![(('0' as int) + (n % 10)) as char]
    }
}

/// Decimal text of an integer, with a leading `-` when negative.
pub open spec fn int_text(n: int) -> Seq<char> {
    if n < 0 {
        seq!['-'] + decimal_text((-n) as nat)
    } else {
        decimal_text(n as nat)
    }
}

/// Decimal text of an unsigned number.
pub fn u64_text(n: u64) -> (r: String)
    ensures
        r@ == decimal_text(n as nat),
    decreases n,
{
    if n < 10 {
        let mut v: Vec<char> = Vec::new();
        let c = char_of_digit(n as u8);
        v.push(c);
        assert(v@ =~= decimal_text(n as nat));
        string_from_chars(&v)
    } else {
        let head = u64_text(n / 10);
        let c = char_of_digit((n % 10) as u8);
        let mut v = chars_of(head.as_str());
        v.push(c);
        assert(v@ =~= decimal_text(n as nat));
        string_from_chars(&v)
    }
}

fn char_of_digit(d: u8) -> (c: char)
    requires
        d < 10,
    ensures
        c == (('0' as int) + d) as char,
{
    match d {
        0 => '0',
        1 => '1',
        2 => '2',
        3 => '3',
        4 => '4',
        5 => '5',
        6 => '6',
        7 => '7',
        8 => '8',
        _ => '9',
    }
}

/// Decimal text of a signed number, as `i64`'s `Display` writes it.
pub fn i64_text(n: i64) -> (r: String)
    ensures
        r@ == int_text(n as int),
{
    if n < 0 {
        let m: u64 = if n == i64::MIN { 9223372036854775808u64 } else { (-n) as u64 };
        let digits = u64_text(m);
        let r = owned("-");
        proof {
            reveal_strlit("-");
        }
        r.concat(digits.as_str())
    } else {
        u64_text(n as u64)
    }
}

/// True when `s` contains `pat` starting at index `i`.
pub open spec fn occurs_at(s: Seq<char>, pat: Seq<char>, i: int) -> bool {
    0 <= i && i + pat.len() <= s.len() && s.subrange(i, i + pat.len()) == pat
}

/// True when `pat` occurs somewhere in `s`.
pub open spec fn contains_seq(s: Seq<char>, pat: Seq<char>) -> bool {
    exists|i: int| occurs_at(s, pat, i)
}

/// Checks whether `pat` occurs in `s`.
pub fn contains_str(s: &Vec<char>, pat: &Vec<char>) -> (r: bool)
    ensures
        r == contains_seq(s@, pat@),
{
    let n = s.len();
    let m = pat.len();
    if m > n {
        assert forall|i: int| !occurs_at(s@, pat@, i) by {}
        return false;
    }
    let mut i: usize = 0;
    while i <= n - m
        invariant
            n == s@.len(),
            m == pat@.len(),
            m <= n,
            i <= n - m + 1,
            forall|j: int| 0 <= j < i ==> !occurs_at(s@, pat@, j),
        decreases n - m + 1 - i,
    {
        let mut k: usize = 0;
        let mut same = true;
        while k < m
            invariant
                k <= m,
                i + m <= n,
                n == s@.len(),
                m == pat@.len(),
                same == (forall|t: int| 0 <= t < k ==> s@[i + t] == pat@[t]),
            decreases m - k,
        {
            if s[i + k] != pat[k] {
                same = false;
            }
            k = k + 1;
        }
        if same {
            assert(s@.subrange(i as int, i + m) =~= pat@);
            assert(occurs_at(s@, pat@, i as int));
            return true;
        }
        assert(!(s@.subrange(i as int, i + m) =~= pat@));
        i = i + 1;
    }
    assert forall|j: int| !occurs_at(s@, pat@, j) by {
        if 0 <= j && j < i {
        }
    }
    false
}

pub open spec fn all_digits(s: Seq<char>) -> bool {
    forall|j: int| 0 <= j < s.len() ==> crate::version::is_digit(#[trigger] s[j])
}

/// The integer a string denotes in std's integer syntax: an optional `+` or `-`, then one
/// or more ASCII digits.
pub open spec fn int_syntax(s: Seq<char>) -> Option<int> {
    let neg = s.len() > 0 && s[0] == '-';
    let digits = if s.len() > 0 && (s[0] == '-' || s[0] == '+') { s.drop_first() } else { s };
    if digits.len() == 0 || !all_digits(digits) {
        None
    } else if neg {
        Some(-(crate::version::digits_value(digits) as int))
    } else {
        Some(crate::version::digits_value(digits) as int)
    }
}

/// Parses an integer within `[min, max]`, as std's `str::parse` does for a type with
/// that range: `None` for bad syntax or a value out of range.
pub fn parse_int_in(s: &str, min: i64, max: i64) -> (r: Option<i64>)
    requires
        min <= 0 <= max,
    ensures
        match int_syntax(s@) {
            Some(v) => if min <= v <= max { r == Some(v as i64) } else { r is None },
            None => r is None,
        },
{
    let cs = chars_of(s);
    let n = cs.len();
    if n == 0 {
        return None;
    }
    let neg = cs[0] == '-';
    let start: usize = if cs[0] == '-' || cs[0] == '+' { 1 } else { 0 };
    let ghost digits = cs@.skip(start as int);
    assert(digits =~= (if cs@[0] == '-' || cs@[0] == '+' { cs@.drop_first() } else { cs@ }));
    if start >= n {
        return None;
    }
    let bound: i128 = if neg { 0i128 - min as i128 } else { max as i128 };
    let mut acc: i128 = 0;
    let mut i: usize = start;
    assert(digits.take(0) =~= Seq::<char>::empty());
    while i < n
        invariant
            start <= i <= n,
            n == cs@.len(),
            start < n,
            digits == cs@.skip(start as int),
            0 <= bound <= 9223372036854775808i128,
            cs@ == s@,
            min <= 0 <= max,
            neg == (cs@[0] == '-'),
            bound == (if neg { 0 - min } else { max as int }),
            digits == (if cs@[0] == '-' || cs@[0] == '+' { cs@.drop_first() } else { cs@ }),
            acc == crate::version::digits_value(digits.take(i - start)),
            acc <= bound,
            forall|j: int| 0 <= j < i - start ==> crate::version::is_digit(digits[j]),
        decreases n - i,
    {
        let c = cs[i];
        if !('0' <= c && c <= '9') {
            assert(!crate::version::is_digit(digits[i - start]));
            return None;
        }
        let dv: i128 = (c as u32 - '0' as u32) as i128;
        let next = acc * 10 + dv;
        assert(digits.take(i + 1 - start).drop_last() =~= digits.take(i - start));
        assert(next == crate::version::digits_value(digits.take(i + 1 - start)));
        if next > bound {
            // the whole number is at least as large
            let ghost rest_ok = all_digits(digits);
            proof {
                if rest_ok {
                    crate::version::lemma_digits_value_mono(digits, i + 1 - start);
                }
            }
            return None;
        }
        acc = next;
        i = i + 1;
    }
    assert(digits.take(n - start) =~= digits);
    if neg {
        Some((0i128 - acc) as i64)
    } else {
        Some(acc as i64)
    }
}

/// Unicode White_Space, which std's `char::is_whitespace` tests.
pub open spec fn is_ws(c: char) -> bool {
    ||| ('\t' <= c && c <= '\r')
    ||| c == ' '
    ||| c == '\u{85}'
    ||| c == '\u{a0}'
    ||| c == '\u{1680}'
    ||| ('\u{2000}' <= c && c <= '\u{200a}')
    ||| c == '\u{2028}'
    ||| c == '\u{2029}'
    ||| c == '\u{202f}'
    ||| c == '\u{205f}'
    ||| c == '\u{3000}'
}

pub fn is_ws_exec(c: char) -> (r: bool)
    ensures
        r == is_ws(c),
{
    ('\t' <= c && c <= '\r') || c == ' ' || c == '\u{85}' || c == '\u{a0}' || c == '\u{1680}'
        || ('\u{2000}' <= c && c <= '\u{200a}') || c == '\u{2028}' || c == '\u{2029}'
        || c == '\u{202f}' || c == '\u{205f}' || c == '\u{3000}'
}

/// `s` without its trailing whitespace (`str::trim_end`).
pub open spec fn trim_end(s: Seq<char>) -> Seq<char>
    decreases s.len(),
{
    if s.len() > 0 && is_ws(s.last()) {
        trim_end(s.drop_last())
    } else {
        s
    }
}

/// `s` without its leading whitespace (`str::trim_start`).
pub open spec fn trim_start(s: Seq<char>) -> Seq<char>
    decreases s.len(),
{
    if s.len() > 0 && is_ws(s[0]) {
        trim_start(s.drop_first())
    } else {
        s
    }
}

/// `s` without leading and trailing whitespace (`str::trim`).
pub open spec fn trim(s: Seq<char>) -> Seq<char> {
    trim_start(trim_end(s))
}

/// `s` without its trailing `c`s.
pub open spec fn strip_end_char(s: Seq<char>, c: char) -> Seq<char>
    decreases s.len(),
{
    if s.len() > 0 && s.last() == c {
        strip_end_char(s.drop_last(), c)
    } else {
        s
    }
}

/// `s` without its leading `c`s.
pub open spec fn strip_start_char(s: Seq<char>, c: char) -> Seq<char>
    decreases s.len(),
{
    if s.len() > 0 && s[0] == c {
        strip_start_char(s.drop_first(), c)
    } else {
        s
    }
}

/// `s` without leading and trailing `c`s (`str::trim_matches` with one character).
pub open spec fn trim_char(s: Seq<char>, c: char) -> Seq<char> {
    strip_start_char(strip_end_char(s, c), c)
}

/// The characters `v[a..b]` as a string.
pub fn substring(v: &Vec<char>, a: usize, b: usize) -> (r: String)
    requires
        a <= b <= v@.len(),
    ensures
        r@ == v@.subrange(a as int, b as int),
{
    let mut out: Vec<char> = Vec::new();
    let mut i: usize = a;
    while i < b
        invariant
            a <= i <= b,
            b <= v@.len(),
            out@ == v@.subrange(a as int, i as int),
        decreases b - i,
    {
        out.push(v[i]);
        i = i + 1;
        assert(out@ =~= v@.subrange(a as int, i as int));
    }
    string_from_chars(&out)
}

/// Index where the trailing whitespace of `v[..end]` starts.
fn trailing_ws_start(v: &Vec<char>, end: usize) -> (k: usize)
    requires
        end <= v@.len(),
    ensures
        k <= end,
        trim_end(v@.take(end as int)) == v@.take(k as int),
{
    let mut k: usize = end;
    while k > 0 && is_ws_exec(v[k - 1])
        invariant
            k <= end,
            end <= v@.len(),
            trim_end(v@.take(end as int)) == trim_end(v@.take(k as int)),
        decreases k,
    {
        assert(v@.take(k as int).drop_last() =~= v@.take(k - 1));
        k = k - 1;
    }
    k
}

/// Index where the leading whitespace of `v[start..end]` ends.
fn leading_ws_end(v: &Vec<char>, start: usize, end: usize) -> (k: usize)
    requires
        start <= end <= v@.len(),
    ensures
        start <= k <= end,
        trim_start(v@.subrange(start as int, end as int)) == v@.subrange(k as int, end as int),
{
    let mut k: usize = start;
    while k < end && is_ws_exec(v[k])
        invariant
            start <= k <= end,
            end <= v@.len(),
            trim_start(v@.subrange(start as int, end as int)) == trim_start(v@.subrange(k as int, end as int)),
        decreases end - k,
    {
        assert(v@.subrange(k as int, end as int).drop_first() =~= v@.subrange(k + 1, end as int));
        k = k + 1;
    }
    k
}

/// `str::trim_end`.
pub fn trim_end_exec(s: &str) -> (r: String)
    ensures
        r@ == trim_end(s@),
{
    let v = chars_of(s);
    let k = trailing_ws_start(&v, v.len());
    assert(v@.take(v@.len() as int) =~= v@);
    assert(v@.take(k as int) =~= v@.subrange(0, k as int));
    substring(&v, 0, k)
}

/// `str::trim`.
pub fn trim_exec(s: &str) -> (r: String)
    ensures
        r@ == trim(s@),
{
    let v = chars_of(s);
    let k = trailing_ws_start(&v, v.len());
    assert(v@.take(v@.len() as int) =~= v@);
    assert(v@.take(k as int) =~= v@.subrange(0, k as int));
    let j = leading_ws_end(&v, 0, k);
    substring(&v, j, k)
}

/// `str::trim_matches` with one character.
pub fn trim_char_exec(s: &str, c: char) -> (r: String)
    ensures
        r@ == trim_char(s@, c),
{
    let v = chars_of(s);
    let mut k: usize = v.len();
    assert(v@.take(v@.len() as int) =~= v@);
    while k > 0 && v[k - 1] == c
        invariant
            k <= v@.len(),
            strip_end_char(v@, c) == strip_end_char(v@.take(k as int), c),
        decreases k,
    {
        assert(v@.take(k as int).drop_last() =~= v@.take(k - 1));
        k = k - 1;
    }
    assert(v@.take(k as int) =~= v@.subrange(0, k as int));
    let mut j: usize = 0;
    while j < k && v[j] == c
        invariant
            j <= k,
            k <= v@.len(),
            strip_start_char(v@.subrange(0, k as int), c) == strip_start_char(v@.subrange(j as int, k as int), c),
        decreases k - j,
    {
        assert(v@.subrange(j as int, k as int).drop_first() =~= v@.subrange(j + 1, k as int));
        j = j + 1;
    }
    substring(&v, j, k)
}

} // verus!
