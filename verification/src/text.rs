//! Character-level text handling shared by the parsers and formatters.
use vstd::prelude::*;

verus! {

/// Appends one character to a string through std's `String::push`, which
/// adds the character at the end and changes nothing else.
#[verifier::external_body]
pub(crate) fn push_char(s: &mut String, c: char)
    ensures
        final(s)@ == old(s)@.push(c),
{
    s.push(c);
}

/// The characters of `s`, in order.
pub fn chars_of(s: &str) -> (v: Vec<char>)
    ensures
        v@ == s@,
{
    let mut v: Vec<char> = Vec::new();
    for c in it: s.chars()
        invariant
            v@ == it.seq().take(it.index() as int),
            it.seq() == s@,
    {
        v.push(c);
    }
    v
}

} // verus!

verus! {

/// The decimal digit character for `d` (0 to 9).
pub open spec fn digit_char(d: int) -> char {
    if d == 0 { '0' } else if d == 1 { '1' } else if d == 2 { '2' } else if d == 3 { '3' }
    else if d == 4 { '4' } else if d == 5 { '5' } else if d == 6 { '6' } else if d == 7 { '7' }
    else if d == 8 { '8' } else { '9' }
}

/// Decimal notation of a natural number, without leading zeros.
pub open spec fn dec_nat(n: nat) -> Seq<char>
    decreases n,
{
    if n < 10 {
        seq![digit_char(n as int)]
    } else {
        dec_nat(n / 10).push(digit_char((n % 10) as int))
    }
}

/// Decimal notation of an integer as `Display` writes it: a `-` before negatives.
pub open spec fn dec_int(i: int) -> Seq<char> {
    if i < 0 {
        seq!['-'] + dec_nat((-i) as nat)
    } else {
        dec_nat(i as nat)
    }
}

fn digit(d: u64) -> (c: char)
    requires
        d < 10,
    ensures
        c == digit_char(d as int),
{
    if d == 0 { '0' } else if d == 1 { '1' } else if d == 2 { '2' } else if d == 3 { '3' }
    else if d == 4 { '4' } else if d == 5 { '5' } else if d == 6 { '6' } else if d == 7 { '7' }
    else if d == 8 { '8' } else { '9' }
}

/// Appends the decimal notation of `n`.
pub fn push_u64(s: &mut String, n: u64)
    ensures
        final(s)@ == old(s)@ + dec_nat(n as nat),
    decreases n,
{
    if n >= 10 {
        push_u64(s, n / 10);
    }
    push_char(s, digit(n % 10));
    proof {
        if n >= 10 {
            assert(old(s)@ + dec_nat(n as nat) =~= (old(s)@ + dec_nat((n / 10) as nat)).push(
                digit_char((n % 10) as int),
            ));
        } else {
            assert(old(s)@ + dec_nat(n as nat) =~= old(s)@.push(digit_char((n % 10) as int)));
        }
    }
}

/// Appends the decimal notation of `n`, with a leading `-` when negative.
pub fn push_i64(s: &mut String, n: i64)
    ensures
        final(s)@ == old(s)@ + dec_int(n as int),
{
    if n < 0 {
        push_char(s, '-');
        let m: u64 = (0i128 - (n as i128)) as u64;
        push_u64(s, m);
        assert(old(s)@ + dec_int(n as int) =~= old(s)@.push('-') + dec_nat(m as nat));
    } else {
        push_u64(s, n as u64);
    }
}

/// A new string holding `s`.
pub fn string_of(s: &str) -> (r: String)
    ensures
        r@ == s@,
{
    String::from_str(s)
}

/// Appends `t` to `s`.
pub fn push_str(s: &mut String, t: &str)
    ensures
        final(s)@ == old(s)@ + t@,
{
    s.append(t);
}

} // verus!

verus! {

/// The first index at or after `i` where `c` stands in `s`, or `s.len()` when
/// there is none.
pub open spec fn find_from(s: Seq<char>, c: char, i: int) -> int
    decreases s.len() - i,
{
    if i < 0 || i >= s.len() {
        s.len() as int
    } else if s[i] == c {
        i
    } else {
        find_from(s, c, i + 1)
    }
}

/// The first index of `c` in `s`, or `s.len()` when there is none.
pub open spec fn find_char(s: Seq<char>, c: char) -> int {
    find_from(s, c, 0)
}

/// Where `find_from` lands: a match, or the end, with no match in between.
pub proof fn lemma_find_from(s: Seq<char>, c: char, i: int)
    requires
        0 <= i <= s.len(),
    ensures
        i <= find_from(s, c, i) <= s.len(),
        find_from(s, c, i) < s.len() ==> s[find_from(s, c, i)] == c,
        forall|j: int| i <= j < find_from(s, c, i) ==> s[j] != c,
    decreases s.len() - i,
{
    if i < s.len() && s[i] != c {
        lemma_find_from(s, c, i + 1);
    }
}

/// A match, or the end, with no match before it, is what `find_from` gives.
pub proof fn lemma_find_from_unique(s: Seq<char>, c: char, i: int, k: int)
    requires
        0 <= i <= k <= s.len(),
        k < s.len() ==> s[k] == c,
        forall|j: int| i <= j < k ==> s[j] != c,
    ensures
        find_from(s, c, i) == k,
    decreases k - i,
{
    if i < k {
        lemma_find_from_unique(s, c, i + 1, k);
    }
}

/// Searching a suffix is searching the whole from further on.
pub proof fn lemma_find_skip(s: Seq<char>, c: char, n: int)
    requires
        0 <= n <= s.len(),
    ensures
        find_char(s.skip(n), c) == find_from(s, c, n) - n,
{
    lemma_find_from(s, c, n);
    let k = find_from(s, c, n);
    assert forall|j: int| 0 <= j < k - n implies s.skip(n)[j] != c by {
        assert(s.skip(n)[j] == s[j + n]);
    }
    if k < s.len() {
        assert(s.skip(n)[k - n] == s[k]);
    }
    lemma_find_from_unique(s.skip(n), c, 0, k - n);
}

/// Every character is an ASCII digit.
pub open spec fn all_digits(s: Seq<char>) -> bool {
    forall|i: int| 0 <= i < s.len() ==> '0' <= #[trigger] s[i] && s[i] <= '9'
}

/// `p` is a prefix of `s`.
pub open spec fn has_prefix(s: Seq<char>, p: Seq<char>) -> bool {
    p.len() <= s.len() && s.take(p.len() as int) == p
}

/// The characters `v[lo..hi]` as a string.
pub fn string_from_chars(v: &Vec<char>, lo: usize, hi: usize) -> (s: String)
    requires
        lo <= hi <= v.len(),
    ensures
        s@ == v@.subrange(lo as int, hi as int),
{
    let mut s = String::new();
    let mut i = lo;
    while i < hi
        invariant
            lo <= i <= hi <= v.len(),
            s@ == v@.subrange(lo as int, i as int),
        decreases hi - i,
    {
        push_char(&mut s, v[i]);
        assert(v@.subrange(lo as int, i + 1) =~= v@.subrange(lo as int, i as int).push(v@[i as int]));
        i = i + 1;
    }
    s
}

/// The first index at or after `from` where `c` stands in `v`, or `v.len()`.
pub fn find_char_from(v: &Vec<char>, c: char, from: usize) -> (k: usize)
    requires
        from <= v.len(),
    ensures
        k == find_from(v@, c, from as int),
{
    let mut i = from;
    while i < v.len()
        invariant
            from <= i <= v.len(),
            forall|j: int| from <= j < i ==> v@[j] != c,
        decreases v.len() - i,
    {
        if v[i] == c {
            proof { lemma_find_from_unique(v@, c, from as int, i as int); }
            return i;
        }
        i = i + 1;
    }
    proof { lemma_find_from_unique(v@, c, from as int, i as int); }
    i
}

/// Whether `v[lo..hi]` holds only ASCII digits.
pub fn digits_only(v: &Vec<char>, lo: usize, hi: usize) -> (b: bool)
    requires
        lo <= hi <= v.len(),
    ensures
        b == all_digits(v@.subrange(lo as int, hi as int)),
{
    let mut i = lo;
    while i < hi
        invariant
            lo <= i <= hi <= v.len(),
            all_digits(v@.subrange(lo as int, i as int)),
        decreases hi - i,
    {
        if !('0' <= v[i] && v[i] <= '9') {
            assert(v@.subrange(lo as int, hi as int)[i - lo] == v@[i as int]);
            return false;
        }
        assert(all_digits(v@.subrange(lo as int, i + 1))) by {
            assert forall|j: int| 0 <= j < i + 1 - lo implies '0' <= #[trigger] v@.subrange(
                lo as int,
                i + 1,
            )[j] && v@.subrange(lo as int, i + 1)[j] <= '9' by {
                if j < i - lo {
                    assert(v@.subrange(lo as int, i + 1)[j] == v@.subrange(lo as int, i as int)[j]);
                }
            }
        }
        i = i + 1;
    }
    true
}

/// Whether `v` begins with the characters of `p`.
pub fn starts_with(v: &Vec<char>, p: &str) -> (b: bool)
    ensures
        b == has_prefix(v@, p@),
{
    let pv = chars_of(p);
    if pv.len() > v.len() {
        return false;
    }
    let mut i: usize = 0;
    while i < pv.len()
        invariant
            pv@ == p@,
            pv.len() <= v.len(),
            0 <= i <= pv.len(),
            forall|j: int| 0 <= j < i ==> v@[j] == pv@[j],
        decreases pv.len() - i,
    {
        if v[i] != pv[i] {
            assert(v@.take(pv.len() as int)[i as int] != pv@[i as int]);
            return false;
        }
        i = i + 1;
    }
    assert(v@.take(pv.len() as int) =~= pv@);
    true
}

} // verus!

verus! {

/// Unicode `White_Space`, which `char::is_whitespace` tests and `str::trim` strips.
pub open spec fn is_ws(c: char) -> bool {
    ('\u{9}' <= c && c <= '\u{d}') || c == ' ' || c == '\u{85}' || c == '\u{a0}' || c == '\u{1680}'
        || ('\u{2000}' <= c && c <= '\u{200a}') || c == '\u{2028}' || c == '\u{2029}' || c
        == '\u{202f}' || c == '\u{205f}' || c == '\u{3000}'
}

/// Whether `c` is whitespace.
pub fn is_whitespace(c: char) -> (b: bool)
    ensures
        b == is_ws(c),
{
    ('\u{9}' <= c && c <= '\u{d}') || c == ' ' || c == '\u{85}' || c == '\u{a0}' || c == '\u{1680}'
        || ('\u{2000}' <= c && c <= '\u{200a}') || c == '\u{2028}' || c == '\u{2029}' || c
        == '\u{202f}' || c == '\u{205f}' || c == '\u{3000}'
}

/// The first index at or after `i` that is not whitespace, or the length.
pub open spec fn lead_from(s: Seq<char>, i: int) -> int
    decreases s.len() - i,
{
    if i < 0 || i >= s.len() {
        s.len() as int
    } else if !is_ws(s[i]) {
        i
    } else {
        lead_from(s, i + 1)
    }
}

/// The end of `s[..j]` after dropping its trailing whitespace.
pub open spec fn trail_to(s: Seq<char>, j: int) -> int
    decreases j,
{
    if j <= 0 || j > s.len() {
        0
    } else if !is_ws(s[j - 1]) {
        j
    } else {
        trail_to(s, j - 1)
    }
}

/// `s` without leading and trailing whitespace, as `str::trim` gives it.
pub open spec fn trim(s: Seq<char>) -> Seq<char> {
    let a = lead_from(s, 0);
    if a >= s.len() {
        Seq::empty()
    } else {
        s.subrange(a, trail_to(s, s.len() as int))
    }
}

proof fn lemma_lead_unique(s: Seq<char>, i: int, k: int)
    requires
        0 <= i <= k <= s.len(),
        k < s.len() ==> !is_ws(s[k]),
        forall|j: int| i <= j < k ==> is_ws(s[j]),
    ensures
        lead_from(s, i) == k,
    decreases k - i,
{
    if i < k {
        lemma_lead_unique(s, i + 1, k);
    }
}

proof fn lemma_trail_unique(s: Seq<char>, j: int, k: int)
    requires
        0 <= k <= j <= s.len(),
        k > 0 ==> !is_ws(s[k - 1]),
        forall|m: int| k <= m < j ==> is_ws(s[m]),
    ensures
        trail_to(s, j) == k,
    decreases j,
{
    if k < j {
        lemma_trail_unique(s, j - 1, k);
    }
}

/// The bounds of `v[lo..hi]` trimmed: `v[a..b]` is `trim(v[lo..hi])`.
pub fn trim_range(v: &Vec<char>, lo: usize, hi: usize) -> (r: (usize, usize))
    requires
        lo <= hi <= v.len(),
    ensures
        lo <= r.0 <= r.1 <= hi,
        v@.subrange(r.0 as int, r.1 as int) == trim(v@.subrange(lo as int, hi as int)),
{
    let ghost t = v@.subrange(lo as int, hi as int);
    let mut a = lo;
    while a < hi && is_whitespace(v[a])
        invariant
            lo <= a <= hi <= v.len(),
            forall|j: int| lo <= j < a ==> is_ws(v@[j]),
        decreases hi - a,
    {
        a = a + 1;
    }
    proof {
        assert forall|j: int| 0 <= j < a - lo implies is_ws(t[j]) by {
            assert(t[j] == v@[j + lo]);
        }
        if a < hi {
            assert(t[a - lo] == v@[a as int]);
        }
        lemma_lead_unique(t, 0, a - lo);
    }
    if a == hi {
        return (hi, hi);
    }
    let mut b = hi;
    while b > a && is_whitespace(v[b - 1])
        invariant
            lo <= a < b <= hi <= v.len() || (lo <= a <= b <= hi <= v.len() && b == a),
            a < hi,
            !is_ws(v@[a as int]),
            forall|m: int| b <= m < hi ==> is_ws(v@[m]),
        decreases b - a,
    {
        b = b - 1;
    }
    proof {
        assert(b > a);
        assert forall|m: int| b - lo <= m < hi - lo implies is_ws(t[m]) by {
            assert(t[m] == v@[m + lo]);
        }
        assert(t[b - lo - 1] == v@[b - 1]);
        lemma_trail_unique(t, t.len() as int, b - lo);
        assert(t.subrange(a - lo, b - lo) =~= v@.subrange(a as int, b as int));
    }
    (a, b)
}

/// The first index of `c` in `v[lo..hi]`, counted from `lo`; `hi` when absent.
pub fn find_in(v: &Vec<char>, c: char, lo: usize, hi: usize) -> (k: usize)
    requires
        lo <= hi <= v.len(),
    ensures
        lo <= k <= hi,
        k - lo == find_char(v@.subrange(lo as int, hi as int), c),
{
    let ghost t = v@.subrange(lo as int, hi as int);
    let mut i = lo;
    while i < hi
        invariant
            lo <= i <= hi <= v.len(),
            t == v@.subrange(lo as int, hi as int),
            forall|j: int| lo <= j < i ==> v@[j] != c,
        decreases hi - i,
    {
        if v[i] == c {
            proof {
                assert forall|j: int| 0 <= j < i - lo implies t[j] != c by {
                    assert(t[j] == v@[j + lo]);
                }
                assert(t[i - lo] == v@[i as int]);
                lemma_find_from_unique(t, c, 0, i - lo);
            }
            return i;
        }
        i = i + 1;
    }
    proof {
        assert forall|j: int| 0 <= j < i - lo implies t[j] != c by {
            assert(t[j] == v@[j + lo]);
        }
        lemma_find_from_unique(t, c, 0, i - lo);
    }
    i
}

/// The pieces of `s` between the occurrences of `c`, as `str::split` gives them.
pub open spec fn split_char(s: Seq<char>, c: char) -> Seq<Seq<char>>
    decreases s.len(),
{
    let k = find_char(s, c);
    if 0 <= k < s.len() {
        seq![s.take(k)] + split_char(s.skip(k + 1), c)
    } else {
        seq![s]
    }
}

/// Pieces joined back with `c` between them.
pub open spec fn join_char(ps: Seq<Seq<char>>, c: char) -> Seq<char>
    decreases ps.len(),
{
    if ps.len() <= 1 {
        if ps.len() == 1 { ps[0] } else { Seq::empty() }
    } else {
        ps[0] + seq![c] + join_char(ps.skip(1), c)
    }
}

/// `s` holds no `c`.
pub open spec fn free_of(s: Seq<char>, c: char) -> bool {
    forall|i: int| 0 <= i < s.len() ==> s[i] != c
}

/// Splitting at `c` and joining with `c` gives the text back.
pub proof fn lemma_split_join(s: Seq<char>, c: char)
    ensures
        split_char(s, c).len() >= 1,
        join_char(split_char(s, c), c) == s,
    decreases s.len(),
{
    lemma_find_from(s, c, 0);
    let k = find_char(s, c);
    if 0 <= k < s.len() {
        let rest = s.skip(k + 1);
        lemma_split_join(rest, c);
        let ps = split_char(s, c);
        assert(ps == seq![s.take(k)] + split_char(rest, c));
        assert(ps.skip(1) =~= split_char(rest, c));
        assert(ps[0] == s.take(k));
        assert(s.take(k) + seq![c] + rest =~= s);
    }
}

/// A text without `c` is one piece.
pub proof fn lemma_split_single(s: Seq<char>, c: char)
    requires
        free_of(s, c),
    ensures
        split_char(s, c) == seq![s],
{
    lemma_find_from(s, c, 0);
}

/// A piece without `c` followed by `c` splits off first.
pub proof fn lemma_split_front(a: Seq<char>, c: char, rest: Seq<char>)
    requires
        free_of(a, c),
    ensures
        split_char(a + seq![c] + rest, c) == seq![a] + split_char(rest, c),
{
    let s = a + seq![c] + rest;
    assert(s[a.len() as int] == c);
    assert forall|j: int| 0 <= j < a.len() implies s[j] != c by {
        assert(s[j] == a[j]);
    }
    lemma_find_from_unique(s, c, 0, a.len() as int);
    assert(s.take(a.len() as int) =~= a);
    assert(s.skip(a.len() as int + 1) =~= rest);
}

/// `r` holds, in order, the bounds of the pieces `ps` of `v`.
pub open spec fn ranges_of(v: Seq<char>, r: Seq<(usize, usize)>, ps: Seq<Seq<char>>) -> bool {
    &&& r.len() == ps.len()
    &&& forall|i: int| 0 <= i < r.len() ==> (#[trigger] r[i]).0 <= r[i].1 <= v.len()
    &&& forall|i: int| 0 <= i < r.len() ==> v.subrange((#[trigger] r[i]).0 as int, r[i].1 as int) == ps[i]
}

/// The bounds of the pieces of `v` between the occurrences of `c`.
pub fn split_ranges(v: &Vec<char>, c: char) -> (r: Vec<(usize, usize)>)
    ensures
        ranges_of(v@, r@, split_char(v@, c)),
{
    let mut r: Vec<(usize, usize)> = Vec::new();
    let mut start: usize = 0;
    let ghost mut done: Seq<Seq<char>> = Seq::empty();
    assert(v@.skip(0) =~= v@);
    assert(done + split_char(v@.skip(0), c) =~= split_char(v@, c));
    loop
        invariant
            start <= v.len(),
            ranges_of(v@, r@, done),
            done + split_char(v@.skip(start as int), c) == split_char(v@, c),
        decreases v.len() - start,
    {
        let k = find_char_from(v, c, start);
        proof {
            lemma_find_from(v@, c, start as int);
            lemma_find_skip(v@, c, start as int);
        }
        let ghost rest = v@.skip(start as int);
        let ghost r0 = r@;
        let ghost d0 = done;
        r.push((start, k));
        if k == v.len() {
            proof {
                assert(split_char(rest, c) == seq![rest]);
                assert(v@.subrange(start as int, k as int) =~= rest);
                done = done.push(rest);
                assert(done =~= split_char(v@, c));
                assert forall|i: int| 0 <= i < r@.len() implies v@.subrange(
                    (#[trigger] r@[i]).0 as int,
                    r@[i].1 as int,
                ) == done[i] by {
                    if i < r0.len() {
                        assert(r@[i] == r0[i]);
                        assert(done[i] == d0[i]);
                    }
                }
            }
            return r;
        }
        proof {
            assert(rest.take(k - start) =~= v@.subrange(start as int, k as int));
            assert(rest.skip(k - start + 1) =~= v@.skip(k + 1));
            assert(split_char(rest, c) == seq![rest.take(k - start)] + split_char(
                rest.skip(k - start + 1),
                c,
            ));
            let piece = v@.subrange(start as int, k as int);
            assert(done.push(piece) + split_char(v@.skip(k + 1), c) =~= done + split_char(rest, c));
            done = done.push(piece);
            assert forall|i: int| 0 <= i < r@.len() implies v@.subrange(
                (#[trigger] r@[i]).0 as int,
                r@[i].1 as int,
            ) == done[i] by {
                if i < r0.len() {
                    assert(r@[i] == r0[i]);
                    assert(done[i] == d0[i]);
                }
            }
        }
        start = k + 1;
    }
}

} // verus!

verus! {

/// Whether `v[lo..hi]` spells `lit`.
pub fn range_eq(v: &Vec<char>, lo: usize, hi: usize, lit: &str) -> (b: bool)
    requires
        lo <= hi <= v.len(),
    ensures
        b == (v@.subrange(lo as int, hi as int) == lit@),
{
    let l = chars_of(lit);
    if hi - lo != l.len() {
        return false;
    }
    let mut i: usize = 0;
    while i < l.len()
        invariant
            l@ == lit@,
            hi - lo == l.len(),
            lo <= hi <= v.len(),
            0 <= i <= l.len(),
            forall|j: int| 0 <= j < i ==> v@[lo + j] == l@[j],
        decreases l.len() - i,
    {
        if v[lo + i] != l[i] {
            assert(v@.subrange(lo as int, hi as int)[i as int] != l@[i as int]);
            return false;
        }
        i = i + 1;
    }
    assert(v@.subrange(lo as int, hi as int) =~= l@);
    true
}

} // verus!

verus! {

/// The value of a string of decimal digits.
pub open spec fn digits_val(s: Seq<char>) -> int
    decreases s.len(),
{
    if s.len() == 0 {
        0
    } else {
        digits_val(s.drop_last()) * 10 + (s.last() as int - 48)
    }
}

/// What `str::parse` reads as an integer: an optional sign (`-` only when
/// `signed`), then at least one ASCII digit and nothing else.
pub open spec fn parse_int_spec(s: Seq<char>, signed: bool) -> Option<int> {
    if s.len() == 0 {
        None
    } else {
        let d = if s[0] == '-' || s[0] == '+' {
            s.drop_first()
        } else {
            s
        };
        if d.len() == 0 || !all_digits(d) || (s[0] == '-' && !signed) {
            None
        } else if s[0] == '-' {
            Some(-digits_val(d))
        } else {
            Some(digits_val(d))
        }
    }
}

/// `str::parse::<i64>`: the value when the syntax holds and it fits.
pub open spec fn parse_i64_spec(s: Seq<char>) -> Option<i64> {
    match parse_int_spec(s, true) {
        Some(v) => if i64::MIN <= v <= i64::MAX {
            Some(v as i64)
        } else {
            None
        },
        None => None,
    }
}

/// `str::parse::<u64>`: the value when the syntax holds and it fits.
pub open spec fn parse_u64_spec(s: Seq<char>) -> Option<u64> {
    match parse_int_spec(s, false) {
        Some(v) => if 0 <= v <= u64::MAX {
            Some(v as u64)
        } else {
            None
        },
        None => None,
    }
}

proof fn lemma_digits_nonneg(s: Seq<char>)
    requires
        all_digits(s),
    ensures
        digits_val(s) >= 0,
    decreases s.len(),
{
    if s.len() > 0 {
        assert(s.drop_last()[0] == s[0] || s.drop_last().len() == 0);
        assert(all_digits(s.drop_last())) by {
            assert forall|i: int| 0 <= i < s.drop_last().len() implies '0' <= #[trigger] s.drop_last()[i]
                && s.drop_last()[i] <= '9' by {
                assert(s.drop_last()[i] == s[i]);
            }
        }
        lemma_digits_nonneg(s.drop_last());
        assert('0' <= s[s.len() - 1]);
    }
}

proof fn lemma_digits_mono(s: Seq<char>, i: int)
    requires
        all_digits(s),
        0 <= i <= s.len(),
    ensures
        digits_val(s.take(i)) <= digits_val(s),
    decreases s.len(),
{
    if i < s.len() {
        let d = s.drop_last();
        assert(all_digits(d)) by {
            assert forall|j: int| 0 <= j < d.len() implies '0' <= #[trigger] d[j] && d[j] <= '9' by {
                assert(d[j] == s[j]);
            }
        }
        lemma_digits_mono(d, i);
        assert(d.take(i) =~= s.take(i));
        lemma_digits_nonneg(d);
        assert('0' <= s[s.len() - 1]);
    } else {
        assert(s.take(i) =~= s);
    }
}

proof fn lemma_digit_char(d: int)
    requires
        0 <= d <= 9,
    ensures
        digit_char(d) as int == 48 + d,
        '0' <= digit_char(d) <= '9',
{
}

/// Decimal notation is digits without a leading zero, reads back as the number,
/// and has one character per decimal place.
pub proof fn lemma_dec_nat(n: nat)
    ensures
        all_digits(dec_nat(n)),
        dec_nat(n).len() >= 1,
        digits_val(dec_nat(n)) == n,
        n >= 1 ==> dec_nat(n)[0] != '0',
        n < 10 ==> dec_nat(n).len() == 1,
        n < 100 ==> dec_nat(n).len() <= 2,
        n < 1000 ==> dec_nat(n).len() <= 3,
    decreases n,
{
    if n < 10 {
        lemma_digit_char(n as int);
        assert(dec_nat(n).drop_last() =~= Seq::<char>::empty());
        assert(digits_val(dec_nat(n).drop_last()) == 0);
        assert(dec_nat(n).last() == digit_char(n as int));
    } else {
        let q = (n / 10) as nat;
        lemma_dec_nat(q);
        lemma_digit_char((n % 10) as int);
        let s = dec_nat(n);
        assert(s == dec_nat(q).push(digit_char((n % 10) as int)));
        assert(s.drop_last() =~= dec_nat(q));
        assert(all_digits(s)) by {
            assert forall|i: int| 0 <= i < s.len() implies '0' <= #[trigger] s[i] && s[i] <= '9' by {
                if i < s.len() - 1 {
                    assert(s[i] == dec_nat(q)[i]);
                }
            }
        }
        assert(s[0] == dec_nat(q)[0]);
        assert(s.last() == digit_char((n % 10) as int));
        assert(digits_val(s) == digits_val(dec_nat(q)) * 10 + (s.last() as int - 48));
        assert(n == q * 10 + n % 10);
    }
}

proof fn lemma_digits_positive(p: Seq<char>)
    requires
        all_digits(p),
        p.len() >= 1,
        p[0] != '0',
    ensures
        digits_val(p) >= 1,
    decreases p.len(),
{
    if p.len() == 1 {
        assert(p.drop_last() =~= Seq::<char>::empty());
        assert(digits_val(p.drop_last()) == 0);
        assert(p.last() == p[0]);
    } else {
        let q = p.drop_last();
        assert(q[0] == p[0]);
        assert(all_digits(q)) by {
            assert forall|i: int| 0 <= i < q.len() implies '0' <= #[trigger] q[i] && q[i] <= '9' by {
                assert(q[i] == p[i]);
            }
        }
        lemma_digits_positive(q);
        assert('0' <= p[p.len() - 1]);
    }
}

/// Digits without a leading zero are the decimal notation of their value.
pub proof fn lemma_dec_nat_unique(p: Seq<char>)
    requires
        all_digits(p),
        p.len() >= 1,
        p.len() == 1 || p[0] != '0',
    ensures
        digits_val(p) >= 0,
        dec_nat(digits_val(p) as nat) == p,
    decreases p.len(),
{
    lemma_digits_nonneg(p);
    let c = p[p.len() - 1];
    assert('0' <= c <= '9');
    let d = c as int - 48;
    assert(digit_char(d) == c) by {
        lemma_digit_char(d);
    }
    if p.len() == 1 {
        assert(p.drop_last() =~= Seq::<char>::empty());
        assert(digits_val(p.drop_last()) == 0);
        assert(digits_val(p) == d);
        assert(dec_nat(d as nat) == seq![digit_char(d)]);
        assert(dec_nat(digits_val(p) as nat) =~= p);
    } else {
        let q = p.drop_last();
        assert(q[0] == p[0]);
        assert(all_digits(q)) by {
            assert forall|i: int| 0 <= i < q.len() implies '0' <= #[trigger] q[i] && q[i] <= '9' by {
                assert(q[i] == p[i]);
            }
        }
        lemma_dec_nat_unique(q);
        lemma_digits_positive(q);
        let v = digits_val(p);
        assert(v == digits_val(q) * 10 + d);
        assert(v >= 10);
        assert(v / 10 == digits_val(q));
        assert(v % 10 == d);
        assert(dec_nat(v as nat) == dec_nat((v as nat / 10) as nat).push(digit_char((v as nat % 10) as int)));
        assert(dec_nat(v as nat) =~= q.push(c));
        assert(q.push(c) =~= p);
    }
}

/// Reads `v[lo..hi]` as an integer: the sign and the magnitude when the syntax
/// holds and the magnitude fits in a `u64`; `None` when the syntax fails or the
/// magnitude is larger.
pub fn parse_int_range(v: &Vec<char>, lo: usize, hi: usize, signed: bool) -> (r: Option<(bool, u64)>)
    requires
        lo <= hi <= v.len(),
    ensures
        r matches Some((neg, m)) ==> parse_int_spec(v@.subrange(lo as int, hi as int), signed) == Some(
            if neg {
                -(m as int)
            } else {
                m as int
            },
        ),
        r is None ==> (parse_int_spec(v@.subrange(lo as int, hi as int), signed) matches Some(x) ==> (x
            > u64::MAX || x < -u64::MAX)),
        r matches Some((neg, _)) ==> (neg ==> signed),
{
    let ghost s = v@.subrange(lo as int, hi as int);
    if lo == hi {
        return None;
    }
    let first = v[lo];
    let neg = first == '-';
    let start = if first == '-' || first == '+' { lo + 1 } else { lo };
    let ghost d = v@.subrange(start as int, hi as int);
    assert(d =~= if s[0] == '-' || s[0] == '+' { s.drop_first() } else { s });
    if start == hi || (neg && !signed) {
        return None;
    }
    let mut acc: u64 = 0;
    let mut i = start;
    while i < hi
        invariant
            lo <= start <= i <= hi <= v.len(),
            d == v@.subrange(start as int, hi as int),
            s == v@.subrange(lo as int, hi as int),
            s.len() > 0,
            d == (if s[0] == '-' || s[0] == '+' { s.drop_first() } else { s }),
            neg == (s[0] == '-'),
            !(neg && !signed),
            d.len() > 0,
            all_digits(d.take(i - start)),
            acc == digits_val(d.take(i - start)),
        decreases hi - i,
    {
        let c = v[i];
        assert(d[i - start] == c);
        if !('0' <= c && c <= '9') {
            assert(!all_digits(d)) by {
                assert(!('0' <= d[i - start] && d[i - start] <= '9'));
            }
            return None;
        }
        let dig = (c as u32 - 48) as u64;
        let ghost t = d.take(i - start + 1);
        assert(t.drop_last() =~= d.take(i - start));
        assert(t.last() == c);
        assert(all_digits(t)) by {
            assert forall|j: int| 0 <= j < t.len() implies '0' <= #[trigger] t[j] && t[j] <= '9' by {
                if j < t.len() - 1 {
                    assert(t[j] == d.take(i - start)[j]);
                }
            }
        }
        if acc > (u64::MAX - dig) / 10 {
            proof {
                assert(digits_val(t) > u64::MAX) by (nonlinear_arith)
                    requires
                        digits_val(t) == acc * 10 + dig,
                        acc > (u64::MAX - dig) / 10,
                        dig <= 9,
                ;
                if all_digits(d) {
                    lemma_digits_mono(d, i - start + 1);
                }
            }
            return None;
        }
        acc = acc * 10 + dig;
        i = i + 1;
    }
    assert(d.take(hi - start) =~= d);
    Some((neg, acc))
}

/// `str::parse::<i64>` on `v[lo..hi]`.
pub fn parse_i64_range(v: &Vec<char>, lo: usize, hi: usize) -> (r: Option<i64>)
    requires
        lo <= hi <= v.len(),
    ensures
        r == parse_i64_spec(v@.subrange(lo as int, hi as int)),
{
    match parse_int_range(v, lo, hi, true) {
        Some((neg, m)) => {
            if neg {
                if m <= 9223372036854775808 {
                    Some((0i128 - m as i128) as i64)
                } else {
                    None
                }
            } else if m <= 9223372036854775807 {
                Some(m as i64)
            } else {
                None
            }
        },
        None => None,
    }
}

/// `str::parse::<u64>` on `v[lo..hi]`.
pub fn parse_u64_range(v: &Vec<char>, lo: usize, hi: usize) -> (r: Option<u64>)
    requires
        lo <= hi <= v.len(),
    ensures
        r == parse_u64_spec(v@.subrange(lo as int, hi as int)),
{
    match parse_int_range(v, lo, hi, false) {
        Some((neg, m)) => {
            if neg {
                None
            } else {
                Some(m)
            }
        },
        None => None,
    }
}

} // verus!

verus! {

/// `pat` stands in `s` at index `i`.
pub open spec fn occurs_at(s: Seq<char>, pat: Seq<char>, i: int) -> bool {
    0 <= i && i + pat.len() <= s.len() && s.subrange(i, i + pat.len()) == pat
}

/// The first index of `pat` in `v`, as `str::find` gives it (counted in characters).
pub fn find_str(v: &Vec<char>, pat: &str) -> (r: Option<usize>)
    ensures
        r matches Some(k) ==> occurs_at(v@, pat@, k as int) && forall|j: int|
            0 <= j < k ==> !occurs_at(v@, pat@, j),
        r is None ==> forall|j: int| !occurs_at(v@, pat@, j),
{
    let p = chars_of(pat);
    if p.len() > v.len() {
        return None;
    }
    let last = v.len() - p.len();
    let mut i: usize = 0;
    while i <= last
        invariant
            p@ == pat@,
            last + p.len() == v.len(),
            0 <= i <= last + 1,
            forall|j: int| 0 <= j < i ==> !occurs_at(v@, pat@, j),
        decreases last + 1 - i,
    {
        let mut j: usize = 0;
        let mut same = true;
        while j < p.len()
            invariant
                p@ == pat@,
                last + p.len() == v.len(),
                i <= last,
                0 <= j <= p.len(),
                same == forall|m: int| 0 <= m < j ==> v@[i + m] == p@[m],
            decreases p.len() - j,
        {
            if v[i + j] != p[j] {
                same = false;
            }
            j = j + 1;
        }
        if same {
            assert(v@.subrange(i as int, i + p.len()) =~= p@);
            return Some(i);
        } else {
            assert(!occurs_at(v@, pat@, i as int)) by {
                let m = choose|m: int| 0 <= m < p.len() && v@[i + m] != p@[m];
                if occurs_at(v@, pat@, i as int) {
                    assert(v@.subrange(i as int, i + p.len())[m] == v@[i + m]);
                }
            }
        }
        i = i + 1;
    }
    assert forall|j: int| !occurs_at(v@, pat@, j) by {
        if j > last {
            assert(j + pat@.len() > v@.len());
        }
    }
    None
}

} // verus!

verus! {

/// ASCII lowercase of a character; other characters stay.
pub open spec fn ascii_lower(c: char) -> char {
    if 'A' <= c && c <= 'Z' {
        ((c as int) + 32) as char
    } else {
        c
    }
}

/// `s` equals the lowercase word `w` up to ASCII case.
pub open spec fn eq_ignore_case(s: Seq<char>, w: Seq<char>) -> bool {
    s.len() == w.len() && forall|i: int| 0 <= i < s.len() ==> ascii_lower(#[trigger] s[i]) == w[i]
}

fn lower(c: char) -> (r: char)
    ensures
        r == ascii_lower(c),
{
    if 'A' <= c && c <= 'Z' {
        ((c as u8) + 32) as char
    } else {
        c
    }
}

/// Whether `v` equals the lowercase word `w` up to ASCII case.
pub fn equals_ignore_case(v: &Vec<char>, w: &str) -> (b: bool)
    ensures
        b == eq_ignore_case(v@, w@),
{
    let wv = chars_of(w);
    if v.len() != wv.len() {
        return false;
    }
    let mut i: usize = 0;
    while i < v.len()
        invariant
            wv@ == w@,
            v.len() == wv.len(),
            0 <= i <= v.len(),
            forall|j: int| 0 <= j < i ==> ascii_lower(#[trigger] v@[j]) == wv@[j],
        decreases v.len() - i,
    {
        if lower(v[i]) != wv[i] {
            return false;
        }
        i = i + 1;
    }
    true
}

} // verus!

verus! {

/// The first index at or after `i` that is not `c`, or the length.
pub open spec fn lead_not(s: Seq<char>, c: char, i: int) -> int
    decreases s.len() - i,
{
    if i < 0 || i >= s.len() {
        s.len() as int
    } else if s[i] != c {
        i
    } else {
        lead_not(s, c, i + 1)
    }
}

/// The end of `s[..j]` after dropping its trailing `c`s.
pub open spec fn trail_not(s: Seq<char>, c: char, j: int) -> int
    decreases j,
{
    if j <= 0 || j > s.len() {
        0
    } else if s[j - 1] != c {
        j
    } else {
        trail_not(s, c, j - 1)
    }
}

/// `s` without leading and trailing `c`s, as `str::trim_matches(c)` gives it.
pub open spec fn strip_char(s: Seq<char>, c: char) -> Seq<char> {
    let a = lead_not(s, c, 0);
    if a >= s.len() {
        Seq::empty()
    } else {
        s.subrange(a, trail_not(s, c, s.len() as int))
    }
}

proof fn lemma_lead_not_unique(s: Seq<char>, c: char, i: int, k: int)
    requires
        0 <= i <= k <= s.len(),
        k < s.len() ==> s[k] != c,
        forall|j: int| i <= j < k ==> s[j] == c,
    ensures
        lead_not(s, c, i) == k,
    decreases k - i,
{
    if i < k {
        lemma_lead_not_unique(s, c, i + 1, k);
    }
}

proof fn lemma_trail_not_unique(s: Seq<char>, c: char, j: int, k: int)
    requires
        0 <= k <= j <= s.len(),
        k > 0 ==> s[k - 1] != c,
        forall|m: int| k <= m < j ==> s[m] == c,
    ensures
        trail_not(s, c, j) == k,
    decreases j,
{
    if k < j {
        lemma_trail_not_unique(s, c, j - 1, k);
    }
}

/// The bounds of `v[lo..hi]` without its leading and trailing `c`s.
pub fn strip_range(v: &Vec<char>, c: char, lo: usize, hi: usize) -> (r: (usize, usize))
    requires
        lo <= hi <= v.len(),
    ensures
        lo <= r.0 <= r.1 <= hi,
        v@.subrange(r.0 as int, r.1 as int) == strip_char(v@.subrange(lo as int, hi as int), c),
{
    let ghost t = v@.subrange(lo as int, hi as int);
    let mut a = lo;
    while a < hi && v[a] == c
        invariant
            lo <= a <= hi <= v.len(),
            forall|j: int| lo <= j < a ==> v@[j] == c,
        decreases hi - a,
    {
        a = a + 1;
    }
    proof {
        assert forall|j: int| 0 <= j < a - lo implies t[j] == c by {
            assert(t[j] == v@[j + lo]);
        }
        if a < hi {
            assert(t[a - lo] == v@[a as int]);
        }
        lemma_lead_not_unique(t, c, 0, a - lo);
    }
    if a == hi {
        return (hi, hi);
    }
    let mut b = hi;
    while b > a && v[b - 1] == c
        invariant
            lo <= a < b <= hi <= v.len() || (lo <= a <= b <= hi <= v.len() && b == a),
            a < hi,
            v@[a as int] != c,
            forall|m: int| b <= m < hi ==> v@[m] == c,
        decreases b - a,
    {
        b = b - 1;
    }
    proof {
        assert(b > a);
        assert forall|m: int| b - lo <= m < hi - lo implies t[m] == c by {
            assert(t[m] == v@[m + lo]);
        }
        assert(t[b - lo - 1] == v@[b - 1]);
        lemma_trail_not_unique(t, c, t.len() as int, b - lo);
        assert(t.subrange(a - lo, b - lo) =~= v@.subrange(a as int, b as int));
    }
    (a, b)
}

/// Whether `v[lo..hi]` begins with `p`.
pub fn range_starts_with(v: &Vec<char>, lo: usize, hi: usize, p: &str) -> (b: bool)
    requires
        lo <= hi <= v.len(),
    ensures
        b == has_prefix(v@.subrange(lo as int, hi as int), p@),
{
    let pv = chars_of(p);
    if pv.len() > hi - lo {
        return false;
    }
    let mut i: usize = 0;
    while i < pv.len()
        invariant
            pv@ == p@,
            pv.len() <= hi - lo,
            lo <= hi <= v.len(),
            0 <= i <= pv.len(),
            forall|j: int| 0 <= j < i ==> v@[lo + j] == pv@[j],
        decreases pv.len() - i,
    {
        if v[lo + i] != pv[i] {
            assert(v@.subrange(lo as int, hi as int).take(pv.len() as int)[i as int] != pv@[i as int]);
            return false;
        }
        i = i + 1;
    }
    assert(v@.subrange(lo as int, hi as int).take(pv.len() as int) =~= pv@);
    true
}

} // verus!

verus! {

/// The first index at or after `i` where `pat` stands in `s`, or `s.len()`.
pub open spec fn find_str_from(s: Seq<char>, pat: Seq<char>, i: int) -> int
    decreases s.len() - i,
{
    if i < 0 || i >= s.len() || i + pat.len() > s.len() {
        s.len() as int
    } else if occurs_at(s, pat, i) {
        i
    } else {
        find_str_from(s, pat, i + 1)
    }
}

proof fn lemma_find_str_skip(s: Seq<char>, pat: Seq<char>, n: int, i: int)
    requires
        0 <= n <= s.len(),
        0 <= i,
    ensures
        find_str_from(s.skip(n), pat, i) == find_str_from(s, pat, i + n) - n,
    decreases s.len() - n - i,
{
    let t = s.skip(n);
    if i >= t.len() || i + pat.len() > t.len() {
    } else {
        assert(occurs_at(t, pat, i) == occurs_at(s, pat, i + n)) by {
            assert(t.subrange(i, i + pat.len()) =~= s.subrange(i + n, i + n + pat.len()));
        }
        if !occurs_at(t, pat, i) {
            lemma_find_str_skip(s, pat, n, i + 1);
        }
    }
}

/// The pieces of `s` between the occurrences of the non-empty `pat`.
pub open spec fn split_str(s: Seq<char>, pat: Seq<char>) -> Seq<Seq<char>>
    decreases s.len(),
{
    let k = find_str_from(s, pat, 0);
    if pat.len() > 0 && 0 <= k < s.len() && k + pat.len() <= s.len() {
        seq![s.take(k)] + split_str(s.skip(k + pat.len()), pat)
    } else {
        seq![s]
    }
}

/// The first index at or after `from` where `pat` stands in `v`, or `v.len()`.
pub fn find_str_from_exec(v: &Vec<char>, pat: &Vec<char>, from: usize) -> (k: usize)
    requires
        from <= v.len(),
    ensures
        k == find_str_from(v@, pat@, from as int),
    decreases v.len() - from,
{
    if from >= v.len() || pat.len() > v.len() - from {
        return v.len();
    }
    let mut j: usize = 0;
    while j < pat.len()
        invariant
            from + pat.len() <= v.len(),
            0 <= j <= pat.len(),
            forall|m: int| 0 <= m < j ==> v@[from + m] == pat@[m],
        decreases pat.len() - j,
    {
        if v[from + j] != pat[j] {
            proof {
                assert(!occurs_at(v@, pat@, from as int)) by {
                    if occurs_at(v@, pat@, from as int) {
                        assert(v@.subrange(from as int, from + pat.len())[j as int] == v@[from + j]);
                    }
                }
            }
            return find_str_from_exec(v, pat, from + 1);
        }
        j = j + 1;
    }
    assert(v@.subrange(from as int, from + pat.len()) =~= pat@);
    from
}

/// The bounds of the pieces of `v` between the occurrences of the non-empty `pat`.
pub fn split_str_ranges(v: &Vec<char>, pat: &str) -> (r: Vec<(usize, usize)>)
    requires
        pat@.len() > 0,
    ensures
        ranges_of(v@, r@, split_str(v@, pat@)),
{
    let p = chars_of(pat);
    let mut r: Vec<(usize, usize)> = Vec::new();
    let mut start: usize = 0;
    let ghost mut done: Seq<Seq<char>> = Seq::empty();
    assert(v@.skip(0) =~= v@);
    assert(done + split_str(v@.skip(0), pat@) =~= split_str(v@, pat@));
    loop
        invariant
            p@ == pat@,
            p.len() > 0,
            start <= v.len(),
            ranges_of(v@, r@, done),
            done + split_str(v@.skip(start as int), pat@) == split_str(v@, pat@),
        decreases v.len() - start,
    {
        let k = find_str_from_exec(v, &p, start);
        proof {
            lemma_find_str_skip(v@, pat@, start as int, 0);
            lemma_find_str_from_bounds(v@, pat@, start as int);
        }
        let ghost rest = v@.skip(start as int);
        let ghost r0 = r@;
        let ghost d0 = done;
        if k == v.len() || p.len() > v.len() - k {
            r.push((start, v.len()));
            proof {
                assert(find_str_from(rest, pat@, 0) == k - start);
                assert(split_str(rest, pat@) == seq![rest]);
                assert(v@.subrange(start as int, v.len() as int) =~= rest);
                done = done.push(rest);
                assert(done =~= split_str(v@, pat@));
                assert forall|i: int| 0 <= i < r@.len() implies v@.subrange(
                    (#[trigger] r@[i]).0 as int,
                    r@[i].1 as int,
                ) == done[i] by {
                    if i < r0.len() {
                        assert(r@[i] == r0[i]);
                        assert(done[i] == d0[i]);
                    }
                }
            }
            return r;
        }
        r.push((start, k));
        proof {
            let kk = k - start;
            assert(find_str_from(rest, pat@, 0) == kk);
            assert(rest.take(kk) =~= v@.subrange(start as int, k as int));
            assert(rest.skip(kk + pat@.len()) =~= v@.skip(k + p.len()));
            assert(split_str(rest, pat@) == seq![rest.take(kk)] + split_str(
                rest.skip(kk + pat@.len()),
                pat@,
            ));
            let piece = v@.subrange(start as int, k as int);
            assert(done.push(piece) + split_str(v@.skip(k + p.len()), pat@) =~= done + split_str(
                rest,
                pat@,
            ));
            done = done.push(piece);
            assert forall|i: int| 0 <= i < r@.len() implies v@.subrange(
                (#[trigger] r@[i]).0 as int,
                r@[i].1 as int,
            ) == done[i] by {
                if i < r0.len() {
                    assert(r@[i] == r0[i]);
                    assert(done[i] == d0[i]);
                }
            }
        }
        start = k + p.len();
    }
}

proof fn lemma_find_str_from_bounds(s: Seq<char>, pat: Seq<char>, i: int)
    requires
        0 <= i <= s.len(),
    ensures
        i <= find_str_from(s, pat, i) <= s.len(),
    decreases s.len() - i,
{
    if i < s.len() && i + pat.len() <= s.len() && !occurs_at(s, pat, i) {
        lemma_find_str_from_bounds(s, pat, i + 1);
    }
}

} // verus!

verus! {

/// The first whitespace index at or after `i`, or the length.
pub open spec fn ws_from(s: Seq<char>, i: int) -> int
    decreases s.len() - i,
{
    if i < 0 || i >= s.len() {
        s.len() as int
    } else if is_ws(s[i]) {
        i
    } else {
        ws_from(s, i + 1)
    }
}

proof fn lemma_ws_unique(s: Seq<char>, i: int, k: int)
    requires
        0 <= i <= k <= s.len(),
        k < s.len() ==> is_ws(s[k]),
        forall|j: int| i <= j < k ==> !is_ws(s[j]),
    ensures
        ws_from(s, i) == k,
    decreases k - i,
{
    if i < k {
        lemma_ws_unique(s, i + 1, k);
    }
}

/// Within `v[..hi]`: the first non-whitespace index at or after `from`, and the
/// first whitespace index after that (both `hi` when absent).
pub fn token_at(v: &Vec<char>, from: usize, hi: usize) -> (r: (usize, usize))
    requires
        from <= hi <= v.len(),
    ensures
        from <= r.0 <= r.1 <= hi,
        r.0 == lead_from(v@.subrange(0, hi as int), from as int),
        r.1 == ws_from(v@.subrange(0, hi as int), r.0 as int),
{
    let ghost s = v@.subrange(0, hi as int);
    let mut a = from;
    while a < hi && is_whitespace(v[a])
        invariant
            from <= a <= hi <= v.len(),
            s == v@.subrange(0, hi as int),
            forall|j: int| from <= j < a ==> is_ws(s[j]),
        decreases hi - a,
    {
        a = a + 1;
    }
    proof {
        lemma_lead_unique(s, from as int, a as int);
    }
    let mut b = a;
    while b < hi && !is_whitespace(v[b])
        invariant
            a <= b <= hi <= v.len(),
            s == v@.subrange(0, hi as int),
            forall|j: int| a <= j < b ==> !is_ws(s[j]),
        decreases hi - b,
    {
        b = b + 1;
    }
    proof {
        lemma_ws_unique(s, a as int, b as int);
    }
    (a, b)
}

/// The pieces joined with `sep` between them.
pub open spec fn join_with(ps: Seq<Seq<char>>, sep: Seq<char>) -> Seq<char>
    decreases ps.len(),
{
    if ps.len() == 0 {
        Seq::empty()
    } else if ps.len() == 1 {
        ps[0]
    } else {
        join_with(ps.drop_last(), sep) + sep + ps.last()
    }
}

/// Appends the pieces `v[r[i]]` joined with `sep`.
pub(crate) fn push_joined(s: &mut String, v: &Vec<char>, r: &Vec<(usize, usize)>, sep: &str, ps: Ghost<Seq<Seq<char>>>)
    requires
        ranges_of(v@, r@, ps@),
    ensures
        final(s)@ == old(s)@ + join_with(ps@, sep@),
{
    let mut i: usize = 0;
    assert(old(s)@ + join_with(ps@.take(0), sep@) =~= old(s)@);
    while i < r.len()
        invariant
            ranges_of(v@, r@, ps@),
            0 <= i <= r.len(),
            s@ == old(s)@ + join_with(ps@.take(i as int), sep@),
        decreases r.len() - i,
    {
        let ghost before = s@;
        assert(ps@.take(i + 1).drop_last() =~= ps@.take(i as int));
        assert(ps@.take(i + 1).last() == ps@[i as int]);
        if i > 0 {
            push_str(s, sep);
        }
        let piece = string_from_chars(v, r[i].0, r[i].1);
        push_str(s, piece.as_str());
        proof {
            assert(piece@ == ps@[i as int]);
            if i == 0 {
                assert(ps@.take(1)[0] == ps@[0]);
                assert(s@ =~= old(s)@ + join_with(ps@.take(1), sep@));
            } else {
                assert(s@ =~= old(s)@ + join_with(ps@.take(i + 1), sep@));
            }
        }
        i = i + 1;
    }
    assert(ps@.take(i as int) =~= ps@);
}

} // verus!

verus! {

/// `s` ends with `p`.
pub open spec fn has_suffix(s: Seq<char>, p: Seq<char>) -> bool {
    p.len() <= s.len() && s.skip(s.len() - p.len()) == p
}

/// Whether `v[lo..hi]` ends with the characters of `p`.
pub fn range_ends_with(v: &Vec<char>, lo: usize, hi: usize, p: &Vec<char>) -> (b: bool)
    requires
        lo <= hi <= v.len(),
    ensures
        b == has_suffix(v@.subrange(lo as int, hi as int), p@),
{
    if p.len() > hi - lo {
        return false;
    }
    let start = hi - p.len();
    let mut i: usize = 0;
    while i < p.len()
        invariant
            start + p.len() == hi,
            lo <= start,
            hi <= v.len(),
            0 <= i <= p.len(),
            forall|j: int| 0 <= j < i ==> v@[start + j] == p@[j],
        decreases p.len() - i,
    {
        if v[start + i] != p[i] {
            assert(v@.subrange(lo as int, hi as int).skip(start - lo)[i as int] != p@[i as int]);
            return false;
        }
        i = i + 1;
    }
    assert(v@.subrange(lo as int, hi as int).skip(start - lo) =~= p@);
    true
}

/// Whether `v[lo..hi]` equals `w`.
pub fn range_eq_chars(v: &Vec<char>, lo: usize, hi: usize, w: &Vec<char>) -> (b: bool)
    requires
        lo <= hi <= v.len(),
    ensures
        b == (v@.subrange(lo as int, hi as int) == w@),
{
    if hi - lo != w.len() {
        return false;
    }
    let mut i: usize = 0;
    while i < w.len()
        invariant
            hi - lo == w.len(),
            lo <= hi <= v.len(),
            0 <= i <= w.len(),
            forall|j: int| 0 <= j < i ==> v@[lo + j] == w@[j],
        decreases w.len() - i,
    {
        if v[lo + i] != w[i] {
            assert(v@.subrange(lo as int, hi as int)[i as int] != w@[i as int]);
            return false;
        }
        i = i + 1;
    }
    assert(v@.subrange(lo as int, hi as int) =~= w@);
    true
}

/// The end of `v[lo..hi]` without its trailing `c`s: `v[lo..e]` is that prefix.
pub fn trim_end_char(v: &Vec<char>, c: char, lo: usize, hi: usize) -> (e: usize)
    requires
        lo <= hi <= v.len(),
    ensures
        lo <= e <= hi,
        e - lo == trail_not(v@.subrange(lo as int, hi as int), c, (hi - lo) as int),
{
    let ghost t = v@.subrange(lo as int, hi as int);
    let mut b = hi;
    while b > lo && v[b - 1] == c
        invariant
            lo <= b <= hi <= v.len(),
            forall|m: int| b <= m < hi ==> v@[m] == c,
        decreases b - lo,
    {
        b = b - 1;
    }
    proof {
        assert forall|m: int| b - lo <= m < hi - lo implies t[m] == c by {
            assert(t[m] == v@[m + lo]);
        }
        if b > lo {
            assert(t[b - lo - 1] == v@[b - 1]);
        }
        lemma_trail_not_unique(t, c, t.len() as int, b - lo);
    }
    b
}

} // verus!
