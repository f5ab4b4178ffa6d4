//! Character-level utilities shared by the request decoder, the response
//! builder and the dispatch planner: first-match scanning, prefix tests,
//! subsequence extraction, decimal rendering and UTF-8 byte lengths.

use vstd::prelude::*;

verus! {

/// First index at or after `i` whose character satisfies `p`, or the length
/// of `s` when no such character follows.
pub open spec fn scan(s: Seq<char>, i: int, p: spec_fn(char) -> bool) -> int
    decreases s.len() - i,
{
    if i < 0 || i >= s.len() {
        s.len() as int
    } else if p(s[i]) {
        i
    } else {
        scan(s, i + 1, p)
    }
}

pub open spec fn char_pred(c: char) -> spec_fn(char) -> bool {
    |x: char| x == c
}

pub open spec fn break_pred() -> spec_fn(char) -> bool {
    |x: char| x == '\r' || x == '\n'
}

pub open spec fn blank_pred() -> spec_fn(char) -> bool {
    |x: char| x == ' ' || x == '\t'
}

pub open spec fn nonblank_pred() -> spec_fn(char) -> bool {
    |x: char| !(x == ' ' || x == '\t')
}

pub proof fn lemma_scan_bounds(s: Seq<char>, i: int, p: spec_fn(char) -> bool)
    requires
        0 <= i <= s.len(),
    ensures
        i <= scan(s, i, p) <= s.len(),
    decreases s.len() - i,
{
    if i < s.len() && !p(s[i]) {
        lemma_scan_bounds(s, i + 1, p);
    }
}

/// `scan` returns exactly the first matching index: no character before it
/// matches, and the index itself matches unless it is the length.
pub proof fn lemma_scan_value(s: Seq<char>, i: int, j: int, p: spec_fn(char) -> bool)
    requires
        0 <= i <= j <= s.len(),
        forall|k: int| i <= k < j ==> !p(s[k]),
        j < s.len() ==> p(s[j]),
    ensures
        scan(s, i, p) == j,
    decreases j - i,
{
    if i < j {
        lemma_scan_value(s, i + 1, j, p);
    }
}

pub fn scan_to_char(s: &Vec<char>, from: usize, c: char) -> (r: usize)
    requires
        from <= s@.len(),
    ensures
        from <= r <= s@.len(),
        r as int == scan(s@, from as int, char_pred(c)),
{
    let n = s.len();
    let mut j = from;
    while j < n && s[j] != c
        invariant
            from <= j <= n,
            n == s@.len(),
            forall|k: int| from <= k < j ==> s@[k] != c,
        decreases n - j,
    {
        j += 1;
    }
    proof {
        lemma_scan_value(s@, from as int, j as int, char_pred(c));
    }
    j
}

pub fn scan_to_break(s: &Vec<char>, from: usize) -> (r: usize)
    requires
        from <= s@.len(),
    ensures
        from <= r <= s@.len(),
        r as int == scan(s@, from as int, break_pred()),
{
    let n = s.len();
    let mut j = from;
    while j < n && s[j] != '\r' && s[j] != '\n'
        invariant
            from <= j <= n,
            n == s@.len(),
            forall|k: int| from <= k < j ==> !(s@[k] == '\r' || s@[k] == '\n'),
        decreases n - j,
    {
        j += 1;
    }
    proof {
        lemma_scan_value(s@, from as int, j as int, break_pred());
    }
    j
}

pub fn scan_to_blank(s: &Vec<char>, from: usize) -> (r: usize)
    requires
        from <= s@.len(),
    ensures
        from <= r <= s@.len(),
        r as int == scan(s@, from as int, blank_pred()),
{
    let n = s.len();
    let mut j = from;
    while j < n && s[j] != ' ' && s[j] != '\t'
        invariant
            from <= j <= n,
            n == s@.len(),
            forall|k: int| from <= k < j ==> !(s@[k] == ' ' || s@[k] == '\t'),
        decreases n - j,
    {
        j += 1;
    }
    proof {
        lemma_scan_value(s@, from as int, j as int, blank_pred());
    }
    j
}

pub fn scan_to_nonblank(s: &Vec<char>, from: usize) -> (r: usize)
    requires
        from <= s@.len(),
    ensures
        from <= r <= s@.len(),
        r as int == scan(s@, from as int, nonblank_pred()),
{
    let n = s.len();
    let mut j = from;
    while j < n && (s[j] == ' ' || s[j] == '\t')
        invariant
            from <= j <= n,
            n == s@.len(),
            forall|k: int| from <= k < j ==> (s@[k] == ' ' || s@[k] == '\t'),
        decreases n - j,
    {
        j += 1;
    }
    proof {
        lemma_scan_value(s@, from as int, j as int, nonblank_pred());
    }
    j
}

/// The characters of `p` occur in `s` starting at index `i`.
pub open spec fn has_prefix_at(s: Seq<char>, i: int, p: Seq<char>) -> bool {
    0 <= i && i + p.len() <= s.len() && s.subrange(i, i + p.len() as int) == p
}

pub fn starts_with_at(s: &Vec<char>, from: usize, p: &str) -> (r: bool)
    requires
        from <= s@.len(),
    ensures
        r == has_prefix_at(s@, from as int, p@),
{
    let pn = p.unicode_len();
    let n = s.len();
    if n - from < pn {
        return false;
    }
    let mut k: usize = 0;
    while k < pn
        invariant
            n == s@.len(),
            from + pn <= n,
            k <= pn,
            pn == p@.len(),
            forall|m: int| 0 <= m < k ==> s@[from + m] == p@[m],
        decreases pn - k,
    {
        if s[from + k] != p.get_char(k) {
            proof {
                assert(s@.subrange(from as int, from as int + p@.len() as int)[k as int]
                    == s@[from + k]);
            }
            return false;
        }
        k += 1;
    }
    proof {
        assert(s@.subrange(from as int, from as int + p@.len() as int) =~= p@);
    }
    true
}

pub fn subvec(s: &Vec<char>, from: usize, to: usize) -> (r: Vec<char>)
    requires
        from <= to <= s@.len(),
    ensures
        r@ == s@.subrange(from as int, to as int),
{
    let mut r: Vec<char> = Vec::new();
    let mut j = from;
    while j < to
        invariant
            from <= j <= to <= s@.len(),
            r@ == s@.subrange(from as int, j as int),
        decreases to - j,
    {
        r.push(s[j]);
        j += 1;
        proof {
            assert(r@ =~= s@.subrange(from as int, j as int));
        }
    }
    r
}

pub fn chars_of(s: &str) -> (v: Vec<char>)
    ensures
        v@ == s@,
{
    let n = s.unicode_len();
    let mut v: Vec<char> = Vec::new();
    let mut j: usize = 0;
    while j < n
        invariant
            j <= n,
            n == s@.len(),
            v@ == s@.subrange(0, j as int),
        decreases n - j,
    {
        v.push(s.get_char(j));
        j += 1;
        proof {
            assert(v@ =~= s@.subrange(0, j as int));
        }
    }
    proof {
        assert(s@.subrange(0, n as int) =~= s@);
    }
    v
}

/// Relies on `String`'s `FromIterator<char>` implementation: collecting an
/// in-order character iterator yields the string of exactly those characters.
#[verifier::external_body]
pub fn string_from_chars(v: &Vec<char>) -> (s: String)
    ensures
        s@ == v@,
{
    v.iter().collect()
}

pub open spec fn digit_char(d: int) -> char {
    (48 + d) as char
}

/// Decimal digits of `n`, most significant first.
pub open spec fn dec_digits(n: int) -> Seq<char>
    decreases n,
{
    if n < 10 {
        seq![digit_char(n)]
    } else {
        dec_digits(n / 10) + seq![digit_char(n % 10)]
    }
}

pub fn dec_chars(n: u128) -> (v: Vec<char>)
    ensures
        v@ == dec_digits(n as int),
    decreases n,
{
    if n < 10 {
        let d: u8 = 48 + (n as u8);
        let mut v: Vec<char> = Vec::new();
        v.push(d as char);
        proof {
            assert(v@ =~= seq![digit_char(n as int)]);
        }
        v
    } else {
        let mut v = dec_chars(n / 10);
        let d: u8 = 48 + ((n % 10) as u8);
        v.push(d as char);
        proof {
            assert(v@ =~= dec_digits(n as int));
        }
        v
    }
}

/// Number of bytes of the UTF-8 encoding of `c`.
pub open spec fn char_utf8_len(c: char) -> int {
    if (c as u32) < 0x80 {
        1
    } else if (c as u32) < 0x800 {
        2
    } else if (c as u32) < 0x10000 {
        3
    } else {
        4
    }
}

pub open spec fn utf8_len_from(s: Seq<char>, i: int) -> int
    decreases s.len() - i,
{
    if i < 0 || i >= s.len() {
        0
    } else {
        char_utf8_len(s[i]) + utf8_len_from(s, i + 1)
    }
}

/// Number of bytes of the UTF-8 encoding of `s`.
pub open spec fn utf8_len(s: Seq<char>) -> int {
    utf8_len_from(s, 0)
}

pub fn utf8_length(v: &Vec<char>) -> (n: u128)
    ensures
        n as int == utf8_len(v@),
{
    let len = v.len();
    let mut acc: u128 = 0;
    let mut j: usize = 0;
    while j < len
        invariant
            j <= len,
            len == v@.len(),
            acc as int <= 4 * j as int,
            utf8_len(v@) == acc as int + utf8_len_from(v@, j as int),
        decreases len - j,
    {
        let u = v[j] as u32;
        let step: u128 = if u < 0x80 {
            1
        } else if u < 0x800 {
            2
        } else if u < 0x10000 {
            3
        } else {
            4
        };
        acc = acc + step;
        j += 1;
    }
    acc
}

} // verus!
