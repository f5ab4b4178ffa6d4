//! Percent-decoding for query-parameter values.
//!
//! `%XX` hex escapes become the single character with that code point, `+`
//! becomes a space, and everything else passes through unchanged.  A
//! malformed escape — a `%` whose next two characters are not both hex
//! digits, or a `%` with fewer than two characters after it — is preserved
//! verbatim rather than rejected.

use vstd::prelude::*;

verus! {

pub open spec fn is_hex_digit(c: char) -> bool {
    ('0' as u32 <= c as u32 && c as u32 <= '9' as u32) || ('a' as u32 <= c as u32 && c as u32
        <= 'f' as u32) || ('A' as u32 <= c as u32 && c as u32 <= 'F' as u32)
}

pub open spec fn hex_val(c: char) -> int {
    if '0' as u32 <= c as u32 && c as u32 <= '9' as u32 {
        c as u32 - '0' as u32
    } else if 'a' as u32 <= c as u32 && c as u32 <= 'f' as u32 {
        c as u32 - 'a' as u32 + 10
    } else {
        c as u32 - 'A' as u32 + 10
    }
}

/// The character encoded by the two hex digits `hi`, `lo`, read as one byte.
pub open spec fn hex_pair_char(hi: char, lo: char) -> char {
    ((hex_val(hi) * 16 + hex_val(lo)) as u8) as char
}

/// Decoding of `s` from index `i` on.
pub open spec fn decode_from(s: Seq<char>, i: int) -> Seq<char>
    decreases s.len() - i,
{
    if i < 0 || i >= s.len() {
        Seq::empty()
    } else if s[i] == '%' {
        if i + 2 < s.len() {
            if is_hex_digit(s[i + 1]) && is_hex_digit(s[i + 2]) {
                seq![hex_pair_char(s[i + 1], s[i + 2])] + decode_from(s, i + 3)
            } else {
                seq![s[i], s[i + 1], s[i + 2]] + decode_from(s, i + 3)
            }
        } else {
            s.subrange(i, s.len() as int)
        }
    } else if s[i] == '+' {
        seq![' '] + decode_from(s, i + 1)
    } else {
        seq![s[i]] + decode_from(s, i + 1)
    }
}

pub open spec fn decode_spec(s: Seq<char>) -> Seq<char> {
    decode_from(s, 0)
}

fn hex_digit_value(c: char) -> (r: Option<u8>)
    ensures
        r is Some <==> is_hex_digit(c),
        r is Some ==> r->0 as int == hex_val(c),
{
    let u = c as u32;
    if 48 <= u && u <= 57 {
        Some((u - 48) as u8)
    } else if 97 <= u && u <= 102 {
        Some((u - 97 + 10) as u8)
    } else if 65 <= u && u <= 70 {
        Some((u - 65 + 10) as u8)
    } else {
        None
    }
}

pub fn decode_chars(s: &Vec<char>) -> (out: Vec<char>)
    ensures
        out@ == decode_spec(s@),
{
    let n = s.len();
    let mut out: Vec<char> = Vec::new();
    let mut i: usize = 0;
    while i < n
        invariant
            i <= n,
            n == s@.len(),
            decode_spec(s@) == out@ + decode_from(s@, i as int),
        decreases n - i,
    {
        let ghost prev = out@;
        let ghost i0 = i as int;
        let c = s[i];
        if c == '%' {
            if n - i > 2 {
                let hi = s[i + 1];
                let lo = s[i + 2];
                match (hex_digit_value(hi), hex_digit_value(lo)) {
                    (Some(h), Some(l)) => {
                        let b: u8 = h * 16 + l;
                        out.push(b as char);
                        proof {
                            assert(out@ =~= prev + seq![hex_pair_char(hi, lo)]);
                        }
                    },
                    _ => {
                        out.push(c);
                        out.push(hi);
                        out.push(lo);
                        proof {
                            assert(out@ =~= prev + seq![c, hi, lo]);
                        }
                    },
                }
                i += 3;
            } else {
                out.push(c);
                if i + 1 < n {
                    out.push(s[i + 1]);
                }
                proof {
                    assert(out@ =~= prev + s@.subrange(i as int, n as int));
                }
                i = n;
            }
        } else if c == '+' {
            out.push(' ');
            proof {
                assert(out@ =~= prev + seq![' ']);
            }
            i += 1;
        } else {
            out.push(c);
            proof {
                assert(out@ =~= prev + seq![c]);
            }
            i += 1;
        }
        proof {
            assert(out@ + decode_from(s@, i as int) =~= prev + decode_from(s@, i0));
        }
    }
    out
}

/// Decode a query-parameter value: `%XX` escapes become single characters,
/// `+` becomes a space, malformed escapes are preserved verbatim.
pub fn simple_percent_decode(input: &str) -> (out: String)
    ensures
        out@ == decode_spec(input@),
{
    let v = crate::text::chars_of(input);
    let decoded = decode_chars(&v);
    crate::text::string_from_chars(&decoded)
}

} // verus!
