//! Character-level text operations with exact specifications over `Seq<char>`.
use vstd::prelude::*;

verus! {

/// Unicode `White_Space` property, as `char::is_whitespace` decides it.
pub open spec fn is_ws(c: char) -> bool {
    ||| ('\u{9}' <= c && c <= '\u{d}')
    ||| c == ' '
    ||| c == '\u{85}'
    ||| c == '\u{a0}'
    ||| c == '\u{1680}'
    ||| ('\u{2000}' <= c && c <= '\u{200a}')
    ||| c == '\u{2028}'
    ||| c == '\u{2029}'
    ||| c == '\u{202f}'
    ||| c == '\u{205f}'
    ||| c == '\u{3000}'
}

/// Executable whitespace test.
pub fn is_whitespace(c: char) -> (b: bool)
    ensures
        b == is_ws(c),
{
    ('\u{9}' <= c && c <= '\u{d}') || c == ' ' || c == '\u{85}' || c == '\u{a0}' || c == '\u{1680}'
        || ('\u{2000}' <= c && c <= '\u{200a}') || c == '\u{2028}' || c == '\u{2029}'
        || c == '\u{202f}' || c == '\u{205f}' || c == '\u{3000}'
}

/// The characters of a string slice.
pub fn chars_of(s: &str) -> (v: Vec<char>)
    ensures
        v@ == s@,
{
    let mut v: Vec<char> = Vec::new();
    for c in it: s.chars()
        invariant
            v@ == it.seq().take(it.index() as int),
            it.seq() == s@,
    {
        v.push(c);
    }
    v
}

} // verus!

verus! {

/// `String::push`, one character appended at the end.
#[verifier::external_body]
fn push_char(s: &mut String, c: char)
    ensures
        final(s)@ == old(s)@.push(c),
{
    s.push(c);
}

/// A new string holding `v[lo..hi]`.
pub fn string_from_range(v: &Vec<char>, lo: usize, hi: usize) -> (s: String)
    requires
        lo <= hi <= v.len(),
    ensures
        s@ == v@.subrange(lo as int, hi as int),
{
    let mut s = String::new();
    let mut i = lo;
    while i < hi
        invariant
            lo <= i <= hi <= v.len(),
            s@ == v@.subrange(lo as int, i as int),
        decreases hi - i,
    {
        push_char(&mut s, v[i]);
        assert(v@.subrange(lo as int, i + 1) =~= v@.subrange(lo as int, i as int).push(v@[i as int]));
        i = i + 1;
    }
    s
}

/// A new string holding all of `v`.
pub fn string_from_chars(v: &Vec<char>) -> (s: String)
    ensures
        s@ == v@,
{
    let s = string_from_range(v, 0, v.len());
    assert(v@.subrange(0, v.len() as int) =~= v@);
    s
}

/// Appends the characters of `t` to `s`.
pub fn push_all(s: &mut String, t: &Vec<char>)
    ensures
        final(s)@ == old(s)@ + t@,
{
    let mut i: usize = 0;
    while i < t.len()
        invariant
            0 <= i <= t.len(),
            s@ == old(s)@ + t@.take(i as int),
        decreases t.len() - i,
    {
        push_char(s, t[i]);
        assert(t@.take(i + 1) =~= t@.take(i as int).push(t@[i as int]));
        i = i + 1;
    }
    assert(t@.take(t.len() as int) =~= t@);
}

/// Appends a string slice to `s`.
pub fn push_str(s: &mut String, t: &str)
    ensures
        final(s)@ == old(s)@ + t@,
{
    let v = chars_of(t);
    push_all(s, &v);
}

/// `s` with leading whitespace removed (`str::trim_start`).
pub open spec fn trim_start_spec(s: Seq<char>) -> Seq<char>
    decreases s.len(),
{
    if s.len() > 0 && is_ws(s[0]) {
        trim_start_spec(s.drop_first())
    } else {
        s
    }
}

/// `s` with trailing whitespace removed (`str::trim_end`).
pub open spec fn trim_end_spec(s: Seq<char>) -> Seq<char>
    decreases s.len(),
{
    if s.len() > 0 && is_ws(s.last()) {
        trim_end_spec(s.drop_last())
    } else {
        s
    }
}

/// `s` with whitespace removed at both ends (`str::trim`).
pub open spec fn trim_spec(s: Seq<char>) -> Seq<char> {
    trim_end_spec(trim_start_spec(s))
}

/// Whether every character of `s` is whitespace.
pub open spec fn all_ws(s: Seq<char>) -> bool {
    forall|i: int| 0 <= i < s.len() ==> is_ws(#[trigger] s[i])
}

proof fn lemma_trim_start_step(s: Seq<char>, i: int)
    requires
        0 <= i < s.len(),
        is_ws(s[i]),
    ensures
        trim_start_spec(s.skip(i)) == trim_start_spec(s.skip(i + 1)),
{
    assert(s.skip(i).drop_first() =~= s.skip(i + 1));
}

proof fn lemma_trim_end_step(s: Seq<char>, j: int)
    requires
        0 < j <= s.len(),
        is_ws(s[j - 1]),
    ensures
        trim_end_spec(s.take(j)) == trim_end_spec(s.take(j - 1)),
{
    assert(s.take(j).drop_last() =~= s.take(j - 1));
}

/// Bounds `(a, b)` such that `v[a..b]` is `v[lo..hi]` trimmed.
pub fn trim_range(v: &Vec<char>, lo: usize, hi: usize) -> (r: (usize, usize))
    requires
        lo <= hi <= v.len(),
    ensures
        lo <= r.0 <= r.1 <= hi,
        v@.subrange(r.0 as int, r.1 as int) == trim_spec(v@.subrange(lo as int, hi as int)),
        r.0 == r.1 <==> all_ws(v@.subrange(lo as int, hi as int)),
{
    let ghost w = v@.subrange(lo as int, hi as int);
    let mut a: usize = lo;
    assert(w.skip(0) =~= w);
    while a < hi && is_whitespace(v[a])
        invariant
            lo <= a <= hi <= v.len(),
            w == v@.subrange(lo as int, hi as int),
            trim_start_spec(w) == trim_start_spec(w.skip(a - lo)),
            forall|k: int| lo <= k < a ==> is_ws(#[trigger] v@[k]),
        decreases hi - a,
    {
        proof {
            assert(w[a - lo] == v@[a as int]);
            lemma_trim_start_step(w, a - lo);
        }
        a = a + 1;
    }
    let ghost t = w.skip(a - lo);
    assert(t =~= v@.subrange(a as int, hi as int));
    assert(trim_start_spec(t) == t) by {
        if t.len() > 0 {
            assert(t[0] == v@[a as int]);
        }
    }
    let mut b: usize = hi;
    assert(t.take(t.len() as int) =~= t);
    while b > a && is_whitespace(v[b - 1])
        invariant
            lo <= a <= b <= hi <= v.len(),
            t == v@.subrange(a as int, hi as int),
            trim_end_spec(t) == trim_end_spec(t.take(b - a)),
            forall|k: int| b <= k < hi ==> is_ws(#[trigger] v@[k]),
        decreases b - a,
    {
        proof {
            assert(t[b - a - 1] == v@[b - 1]);
            lemma_trim_end_step(t, b - a);
        }
        b = b - 1;
    }
    let ghost u = t.take(b - a);
    assert(trim_end_spec(u) == u) by {
        if u.len() > 0 {
            assert(u.last() == v@[b - 1]);
        }
    }
    assert(v@.subrange(a as int, b as int) =~= u);
    proof {
        if a == b {
            assert forall|k: int| 0 <= k < w.len() implies is_ws(#[trigger] w[k]) by {
                assert(w[k] == v@[lo + k]);
                if lo + k >= a {
                    assert(lo + k >= b);
                }
            }
        }
        if all_ws(w) && a < b {
            assert(w[a - lo] == v@[a as int]);
            assert(is_ws(v@[a as int]));
        }
    }
    (a, b)
}

/// Bounds `(a, b)` such that `v[a..b]` is `v` trimmed.
pub fn trim_bounds(v: &Vec<char>) -> (r: (usize, usize))
    ensures
        r.0 <= r.1 <= v.len(),
        v@.subrange(r.0 as int, r.1 as int) == trim_spec(v@),
        r.0 == r.1 <==> all_ws(v@),
{
    assert(v@.subrange(0, v.len() as int) =~= v@);
    trim_range(v, 0, v.len())
}

/// `str::trim`, as a new string.
pub fn trim(s: &str) -> (r: String)
    ensures
        r@ == trim_spec(s@),
{
    let v = chars_of(s);
    let (a, b) = trim_bounds(&v);
    string_from_range(&v, a, b)
}

/// Whether `s` is empty once trimmed, that is, holds only whitespace.
pub fn is_blank(s: &str) -> (b: bool)
    ensures
        b == (trim_spec(s@).len() == 0),
        b == all_ws(s@),
{
    let v = chars_of(s);
    let (a, b) = trim_bounds(&v);
    a == b
}

} // verus!

verus! {

/// The ASCII digit for `d` in `0..10`.
pub open spec fn digit_char(d: int) -> char {
    (d + 48) as char
}

/// Decimal rendering of a natural number, as `Display` writes it.
pub open spec fn nat_text(n: nat) -> Seq<char>
    decreases n,
{
    if n < 10 {
        seq![digit_char(n as int)]
    } else {
        nat_text(n / 10).push(digit_char((n % 10) as int))
    }
}

/// Decimal rendering of an integer, as `Display` writes it.
pub open spec fn int_text(i: int) -> Seq<char> {
    if i < 0 {
        seq!['-'] + nat_text((-i) as nat)
    } else {
        nat_text(i as nat)
    }
}

/// Appends the decimal rendering of `n`.
pub fn push_u64(s: &mut String, n: u64)
    ensures
        final(s)@ == old(s)@ + nat_text(n as nat),
    decreases n,
{
    if n >= 10 {
        push_u64(s, n / 10);
    }
    let d: u8 = (n % 10) as u8;
    let c: char = (d + 48u8) as char;
    push_char(s, c);
    proof {
        if n >= 10 {
            assert(old(s)@ + nat_text(n as nat) =~= old(s)@ + nat_text((n / 10) as nat) + seq![c]);
        } else {
            assert(nat_text(n as nat) =~= seq![c]);
        }
    }
}

/// Appends the decimal rendering of `n`.
pub fn push_i64(s: &mut String, n: i64)
    ensures
        final(s)@ == old(s)@ + int_text(n as int),
{
    if n < 0 {
        push_char(s, '-');
        let m: u64 = (0i128 - n as i128) as u64;
        push_u64(s, m);
        assert(final(s)@ =~= old(s)@ + int_text(n as int));
    } else {
        push_u64(s, n as u64);
    }
}

/// Appends `true` or `false`.
pub fn push_bool(s: &mut String, b: bool)
    ensures
        final(s)@ == old(s)@ + (if b { "true"@ } else { "false"@ }),
{
    if b {
        push_str(s, "true");
    } else {
        push_str(s, "false");
    }
}

} // verus!

verus! {

/// `p` is a prefix of `s`.
pub open spec fn starts_with(s: Seq<char>, p: Seq<char>) -> bool {
    p.len() <= s.len() && s.take(p.len() as int) == p
}

/// `p` is a suffix of `s`.
pub open spec fn ends_with(s: Seq<char>, p: Seq<char>) -> bool {
    p.len() <= s.len() && s.skip(s.len() - p.len()) == p
}

/// `p` occurs in `s` starting at index `i`.
pub open spec fn occurs_at(s: Seq<char>, p: Seq<char>, i: int) -> bool {
    0 <= i && i + p.len() <= s.len() && s.subrange(i, i + p.len()) == p
}

/// `p` occurs somewhere in `s` (`str::contains`).
pub open spec fn contains_seq(s: Seq<char>, p: Seq<char>) -> bool {
    exists|i: int| occurs_at(s, p, i)
}

/// Whether `p` occurs in `s` at index `i`.
pub fn matches_at(s: &Vec<char>, p: &Vec<char>, i: usize) -> (b: bool)
    ensures
        b == occurs_at(s@, p@, i as int),
{
    if i > s.len() || p.len() > s.len() - i {
        return false;
    }
    let mut k: usize = 0;
    while k < p.len()
        invariant
            i + p.len() <= s.len(),
            0 <= k <= p.len(),
            forall|m: int| 0 <= m < k ==> s@[i + m] == p@[m],
        decreases p.len() - k,
    {
        if s[i + k] != p[k] {
            assert(s@.subrange(i as int, i + p.len())[k as int] != p@[k as int]);
            return false;
        }
        k = k + 1;
    }
    assert(s@.subrange(i as int, i + p.len()) =~= p@);
    true
}

/// Whether `p` occurs in `s`.
pub fn contains_chars(s: &Vec<char>, p: &Vec<char>) -> (b: bool)
    ensures
        b == contains_seq(s@, p@),
{
    if p.len() > s.len() {
        return false;
    }
    let last = s.len() - p.len();
    let mut i: usize = 0;
    let mut done = false;
    while !done
        invariant
            0 <= i <= last,
            last + p.len() == s.len(),
            forall|k: int| 0 <= k < i ==> !occurs_at(s@, p@, k),
            done ==> i == last && !occurs_at(s@, p@, i as int),
        decreases last - i + (if done { 0int } else { 1int }),
    {
        if matches_at(s, p, i) {
            return true;
        }
        if i == last {
            done = true;
        } else {
            i = i + 1;
        }
    }
    assert forall|k: int| !occurs_at(s@, p@, k) by {
        if 0 <= k && k < i {
        }
    }
    false
}

/// `str::contains` with a string pattern.
pub fn str_contains(s: &str, p: &str) -> (b: bool)
    ensures
        b == contains_seq(s@, p@),
{
    let sv = chars_of(s);
    let pv = chars_of(p);
    contains_chars(&sv, &pv)
}

/// `s` with every leading copy of `p` removed (`str::trim_start_matches`, `p` not empty).
pub open spec fn strip_prefixes(s: Seq<char>, p: Seq<char>) -> Seq<char>
    decreases s.len(),
{
    if p.len() > 0 && starts_with(s, p) {
        strip_prefixes(s.skip(p.len() as int), p)
    } else {
        s
    }
}

/// `s` with every trailing copy of `p` removed (`str::trim_end_matches`, `p` not empty).
pub open spec fn strip_suffixes(s: Seq<char>, p: Seq<char>) -> Seq<char>
    decreases s.len(),
{
    if p.len() > 0 && ends_with(s, p) {
        strip_suffixes(s.take(s.len() - p.len()), p)
    } else {
        s
    }
}

/// Bounds of `v[lo..hi]` with leading copies of `p` removed.
pub fn strip_prefixes_from(v: &Vec<char>, lo: usize, hi: usize, p: &Vec<char>) -> (a: usize)
    requires
        lo <= hi <= v.len(),
    ensures
        lo <= a <= hi,
        v@.subrange(a as int, hi as int) == strip_prefixes(v@.subrange(lo as int, hi as int), p@),
{
    let mut a = lo;
    while p.len() > 0 && p.len() <= hi - a && matches_at(v, p, a)
        invariant
            lo <= a <= hi <= v.len(),
            strip_prefixes(v@.subrange(a as int, hi as int), p@) == strip_prefixes(v@.subrange(lo as int, hi as int), p@),
        decreases hi - a,
    {
        let ghost t = v@.subrange(a as int, hi as int);
        assert(t.take(p.len() as int) =~= v@.subrange(a as int, a + p.len()));
        assert(t.skip(p.len() as int) =~= v@.subrange(a + p.len(), hi as int));
        a = a + p.len();
    }
    proof {
        let t = v@.subrange(a as int, hi as int);
        if p.len() > 0 && starts_with(t, p@) {
            assert(t.take(p.len() as int) =~= v@.subrange(a as int, a + p.len()));
            assert(occurs_at(v@, p@, a as int));
        }
    }
    a
}

/// Bounds of `v[lo..hi]` with trailing copies of `p` removed.
pub fn strip_suffixes_from(v: &Vec<char>, lo: usize, hi: usize, p: &Vec<char>) -> (b: usize)
    requires
        lo <= hi <= v.len(),
    ensures
        lo <= b <= hi,
        v@.subrange(lo as int, b as int) == strip_suffixes(v@.subrange(lo as int, hi as int), p@),
{
    let mut b = hi;
    while p.len() > 0 && p.len() <= b - lo && matches_at(v, p, b - p.len())
        invariant
            lo <= b <= hi <= v.len(),
            strip_suffixes(v@.subrange(lo as int, b as int), p@) == strip_suffixes(v@.subrange(lo as int, hi as int), p@),
        decreases b - lo,
    {
        let ghost t = v@.subrange(lo as int, b as int);
        assert(t.skip(t.len() - p.len()) =~= v@.subrange(b - p.len(), b as int));
        assert(t.take(t.len() - p.len()) =~= v@.subrange(lo as int, b - p.len()));
        b = b - p.len();
    }
    proof {
        let t = v@.subrange(lo as int, b as int);
        if p.len() > 0 && ends_with(t, p@) {
            assert(t.skip(t.len() - p.len()) =~= v@.subrange(b - p.len(), b as int));
            assert(occurs_at(v@, p@, b - p.len()));
        }
    }
    b
}

/// `s` with `p` replaced by `r` everywhere; with an empty `p`, `r` goes before each
/// character and at the end (`str::replace`).
pub open spec fn replace_spec(s: Seq<char>, p: Seq<char>, r: Seq<char>) -> Seq<char>
    decreases s.len(),
{
    if p.len() == 0 {
        if s.len() == 0 {
            r
        } else {
            r + seq![s[0]] + replace_spec(s.drop_first(), p, r)
        }
    } else if s.len() == 0 {
        seq![]
    } else if starts_with(s, p) {
        r + replace_spec(s.skip(p.len() as int), p, r)
    } else {
        seq![s[0]] + replace_spec(s.drop_first(), p, r)
    }
}

/// `str::replace`: every non-overlapping occurrence of `p`, from the left, replaced by `r`.
pub fn replace(s: &str, p: &str, r: &str) -> (out: String)
    ensures
        out@ == replace_spec(s@, p@, r@),
{
    let sv = chars_of(s);
    let pv = chars_of(p);
    let rv = chars_of(r);
    let mut out = String::new();
    let mut i: usize = 0;
    assert(sv@.skip(0) =~= sv@);
    while i < sv.len()
        invariant
            0 <= i <= sv.len(),
            out@ + replace_spec(sv@.skip(i as int), pv@, rv@) == replace_spec(sv@, pv@, rv@),
        decreases sv.len() - i,
    {
        let ghost t = sv@.skip(i as int);
        if pv.len() == 0 {
            push_all(&mut out, &rv);
            push_char(&mut out, sv[i]);
            assert(t.drop_first() =~= sv@.skip(i + 1));
            i = i + 1;
        } else if pv.len() <= sv.len() - i && matches_at(&sv, &pv, i) {
            assert(t.take(pv.len() as int) =~= sv@.subrange(i as int, i + pv.len()));
            assert(t.skip(pv.len() as int) =~= sv@.skip(i + pv.len()));
            push_all(&mut out, &rv);
            i = i + pv.len();
        } else {
            proof {
                if starts_with(t, pv@) {
                    assert(t.take(pv.len() as int) =~= sv@.subrange(i as int, i + pv.len()));
                }
            }
            push_char(&mut out, sv[i]);
            assert(t.drop_first() =~= sv@.skip(i + 1));
            i = i + 1;
        }
    }
    if pv.len() == 0 {
        push_all(&mut out, &rv);
    }
    assert(out@ =~= replace_spec(sv@, pv@, rv@));
    out
}

/// The value of a string of ASCII digits.
pub open spec fn digits_value(d: Seq<char>) -> int
    decreases d.len(),
{
    if d.len() == 0 {
        0
    } else {
        digits_value(d.drop_last()) * 10 + (d.last() as int - 48)
    }
}

/// Every character is an ASCII digit.
pub open spec fn all_digits(d: Seq<char>) -> bool {
    forall|i: int| 0 <= i < d.len() ==> '0' <= #[trigger] d[i] && d[i] <= '9'
}

/// `u32::from_str`: an optional `+`, then one or more ASCII digits, of value at most `u32::MAX`.
pub open spec fn parse_u32_spec(s: Seq<char>) -> Option<u32> {
    let d = if s.len() > 0 && s[0] == '+' {
        s.drop_first()
    } else {
        s
    };
    if d.len() > 0 && all_digits(d) && digits_value(d) <= u32::MAX {
        Some(digits_value(d) as u32)
    } else {
        None
    }
}

proof fn lemma_digits_value_grows(d: Seq<char>, k: int)
    requires
        all_digits(d),
        0 <= k <= d.len(),
    ensures
        digits_value(d.take(k)) <= digits_value(d),
        0 <= digits_value(d.take(k)),
    decreases d.len() - k,
{
    if k < d.len() {
        lemma_digits_value_grows(d, k + 1);
        assert(d.take(k + 1).drop_last() =~= d.take(k));
        assert(d.take(k + 1).last() == d[k]);
    } else {
        assert(d.take(k) =~= d);
        lemma_digits_value_nonneg(d);
    }
}

proof fn lemma_digits_value_nonneg(d: Seq<char>)
    requires
        all_digits(d),
    ensures
        digits_value(d) >= 0,
    decreases d.len(),
{
    if d.len() > 0 {
        assert(all_digits(d.drop_last())) by {
            assert forall|i: int| 0 <= i < d.drop_last().len() implies '0' <= #[trigger] d.drop_last()[i] && d.drop_last()[i] <= '9' by {
                assert(d.drop_last()[i] == d[i]);
            }
        }
        lemma_digits_value_nonneg(d.drop_last());
        assert(d.last() == d[d.len() - 1]);
    }
}

/// Parses `v[lo..hi]` as `u32::from_str` does.
pub fn parse_u32(v: &Vec<char>, lo: usize, hi: usize) -> (r: Option<u32>)
    requires
        lo <= hi <= v.len(),
    ensures
        r == parse_u32_spec(v@.subrange(lo as int, hi as int)),
{
    let ghost s = v@.subrange(lo as int, hi as int);
    let mut a = lo;
    if a < hi && v[a] == '+' {
        a = a + 1;
    }
    let ghost d = v@.subrange(a as int, hi as int);
    assert(d =~= (if s.len() > 0 && s[0] == '+' { s.drop_first() } else { s }));
    if a == hi {
        return None;
    }
    let mut acc: u32 = 0;
    let mut k = a;
    while k < hi
        invariant
            lo <= a <= k <= hi <= v.len(),
            d == v@.subrange(a as int, hi as int),
            s == v@.subrange(lo as int, hi as int),
            d == (if s.len() > 0 && s[0] == '+' { s.drop_first() } else { s }),
            d.len() > 0,
            all_digits(d.take(k - a)),
            acc == digits_value(d.take(k - a)),
        decreases hi - k,
    {
        let c = v[k];
        let ghost t1 = d.take(k - a + 1);
        assert(t1.drop_last() =~= d.take(k - a));
        assert(t1.last() == c);
        if c < '0' || c > '9' {
            assert(!all_digits(d)) by {
                assert(d[k - a] == c);
            }
            assert(parse_u32_spec(s) is None);
            return None;
        }
        let digit: u32 = (c as u32) - 48;
        assert(all_digits(t1)) by {
            assert forall|i: int| 0 <= i < t1.len() implies '0' <= #[trigger] t1[i] && t1[i] <= '9' by {
                if i < t1.len() - 1 {
                    assert(t1[i] == d.take(k - a)[i]);
                }
            }
        }
        if acc > 429496729 || (acc == 429496729 && digit > 5) {
            proof {
                assert(digits_value(t1) == acc * 10 + (c as int - 48));
                assert(acc * 10 + (c as int - 48) > u32::MAX) by (nonlinear_arith)
                    requires
                        acc > 429496729 || (acc == 429496729 && c as int - 48 > 5),
                        c as int - 48 >= 0,
                ;
                if all_digits(d) {
                    lemma_digits_value_grows(d, k - a + 1);
                }
                assert(parse_u32_spec(s) is None);
            }
            return None;
        }
        acc = acc * 10 + digit;
        k = k + 1;
    }
    assert(d.take(hi - a) =~= d);
    Some(acc)
}

/// Unicode lowercase mapping of a string, as `str::to_lowercase` computes it.
pub uninterp spec fn lowercase(s: Seq<char>) -> Seq<char>;

/// `str::to_lowercase`: the result is `lowercase` of the argument.
#[verifier::external_body]
pub(crate) fn to_lowercase(s: &str) -> (r: String)
    ensures
        r@ == lowercase(s@),
{
    s.to_lowercase()
}

} // verus!

verus! {

/// Index of the first `c` in `s`, or `s.len()` when there is none.
pub open spec fn first_index_of(s: Seq<char>, c: char) -> int
    decreases s.len(),
{
    if s.len() == 0 {
        0
    } else if s[0] == c {
        0
    } else {
        1 + first_index_of(s.drop_first(), c)
    }
}

/// What `first_index_of` says of `s`: the index is in range, no earlier character is
/// `c`, and the character there, if any, is `c`.
pub proof fn lemma_first_index_of_facts(s: Seq<char>, c: char)
    ensures
        0 <= first_index_of(s, c) <= s.len(),
        forall|m: int| 0 <= m < first_index_of(s, c) ==> s[m] != c,
        first_index_of(s, c) < s.len() ==> s[first_index_of(s, c)] == c,
    decreases s.len(),
{
    if s.len() > 0 && s[0] != c {
        lemma_first_index_of_facts(s.drop_first(), c);
        assert forall|m: int| 0 <= m < first_index_of(s, c) implies s[m] != c by {
            if m > 0 {
                assert(s[m] == s.drop_first()[m - 1]);
            }
        }
    }
}

pub proof fn lemma_first_index_of(s: Seq<char>, c: char, j: int)
    requires
        0 <= j <= s.len(),
        forall|m: int| 0 <= m < j ==> s[m] != c,
        j == s.len() || s[j] == c,
    ensures
        first_index_of(s, c) == j,
    decreases j,
{
    if j > 0 {
        lemma_first_index_of(s.drop_first(), c, j - 1);
    }
}

} // verus!

verus! {

/// Appends one character.
pub fn push_char_of(s: &mut String, c: char)
    ensures
        final(s)@ == old(s)@.push(c),
{
    push_char(s, c);
}

} // verus!

verus! {

/// Whether two strings are equal, character by character.
pub fn str_equals(a: &str, b: &str) -> (r: bool)
    ensures
        r == (a@ == b@),
{
    let av = chars_of(a);
    let bv = chars_of(b);
    if av.len() != bv.len() {
        assert(av@.len() != bv@.len());
        return false;
    }
    let mut i: usize = 0;
    while i < av.len()
        invariant
            0 <= i <= av.len(),
            av.len() == bv.len(),
            av@ == a@,
            bv@ == b@,
            forall|k: int| 0 <= k < i ==> av@[k] == bv@[k],
        decreases av.len() - i,
    {
        if av[i] != bv[i] {
            assert(av@[i as int] != bv@[i as int]);
            return false;
        }
        i = i + 1;
    }
    assert(av@ =~= bv@);
    true
}

/// `seq[0]`, `"\n"`, `seq[1]`, ... (`[String]::join("\n")`).
pub open spec fn join_lines(lines: Seq<Seq<char>>) -> Seq<char>
    decreases lines.len(),
{
    if lines.len() == 0 {
        seq![]
    } else if lines.len() == 1 {
        lines[0]
    } else {
        join_lines(lines.drop_last()) + "\n"@ + lines.last()
    }
}

/// The lines joined with newlines.
pub fn join_with_newlines(lines: &Vec<String>) -> (r: String)
    ensures
        r@ == join_lines(lines@.map_values(|s: String| s@)),
{
    let ghost views = lines@.map_values(|s: String| s@);
    let mut r = String::new();
    let mut i: usize = 0;
    while i < lines.len()
        invariant
            0 <= i <= lines.len(),
            views == lines@.map_values(|s: String| s@),
            r@ == join_lines(views.take(i as int)),
        decreases lines.len() - i,
    {
        if i > 0 {
            push_str(&mut r, "\n");
        }
        push_str(&mut r, lines[i].as_str());
        assert(views.take(i + 1).drop_last() =~= views.take(i as int));
        assert(views.take(i + 1).last() == lines@[i as int]@);
        if i == 0 {
            assert(views.take(1) =~= seq![lines@[0]@]);
        }
        i = i + 1;
    }
    assert(views.take(lines.len() as int) =~= views);
    r
}

} // verus!
