//! The textual codec: decimal strings to 64-bit integers and back.
//!
//! The grammar accepted by the decoders is exactly the one the encoders
//! never leave: an optional leading sign (`+` or `-` for the signed type,
//! `+` alone for the unsigned one) followed by one or more ASCII digits,
//! with the whole in range of the target type.  No whitespace, no
//! separators.

use vstd::prelude::*;

verus! {

/// The text was not a valid in-range decimal integer; carries the
/// offending input for diagnostics.
#[derive(Debug, PartialEq, Eq)]
pub struct FormatError {
    pub input: String,
}

/// An ASCII decimal digit.
pub open spec fn is_digit_char(c: char) -> bool {
    48 <= c as u32 && c as u32 <= 57
}

/// Numeric value of a single decimal digit character.
pub open spec fn digit_val(c: char) -> nat
    recommends
        is_digit_char(c),
{
    (c as u32 - 48) as nat
}

/// The decimal digit character for a value below ten.
pub open spec fn digit_char(d: nat) -> char
    recommends
        d < 10,
{
    if d == 0 {
        '0'
    } else if d == 1 {
        '1'
    } else if d == 2 {
        '2'
    } else if d == 3 {
        '3'
    } else if d == 4 {
        '4'
    } else if d == 5 {
        '5'
    } else if d == 6 {
        '6'
    } else if d == 7 {
        '7'
    } else if d == 8 {
        '8'
    } else {
        '9'
    }
}

/// Every character of `s` is a decimal digit.
pub open spec fn all_digits(s: Seq<char>) -> bool {
    forall|i: int| 0 <= i < s.len() ==> is_digit_char(#[trigger] s[i])
}

/// Numeric value of a digit string read most-significant-first.
pub open spec fn digits_val(s: Seq<char>) -> nat
    decreases s.len(),
{
    if s.len() == 0 {
        0
    } else {
        digits_val(s.drop_last()) * 10 + digit_val(s.last())
    }
}

/// Canonical decimal form of a natural number: no leading zeros, no sign.
pub open spec fn dec_digits(n: nat) -> Seq<char>
    decreases n,
{
    if n < 10 {
        seq![digit_char(n)]
    } else {
        dec_digits(n / 10).push(digit_char(n % 10))
    }
}

/// The exact text `encode_u64` produces.
pub open spec fn spec_encode_u64(v: u64) -> Seq<char> {
    dec_digits(v as nat)
}

/// The exact text `encode_i64` produces: a `-` before the magnitude for
/// negative values, the bare magnitude otherwise.
pub open spec fn spec_encode_i64(v: i64) -> Seq<char> {
    if v >= 0 {
        dec_digits(v as nat)
    } else {
        seq!['-'] + dec_digits((-(v as int)) as nat)
    }
}

/// What `decode_u64` accepts and returns: an optional leading `+`, then
/// one or more digits, whose value fits in a `u64`.
pub open spec fn spec_parse_u64(s: Seq<char>) -> Option<u64> {
    let digits = if s.len() > 0 && s[0] == '+' {
        s.drop_first()
    } else {
        s
    };
    if digits.len() == 0 || !all_digits(digits) {
        None
    } else if digits_val(digits) > u64::MAX {
        None
    } else {
        Some(digits_val(digits) as u64)
    }
}

/// What `decode_i64` accepts and returns: an optional leading `+` or `-`,
/// then one or more digits, whose signed value fits in an `i64`.
pub open spec fn spec_parse_i64(s: Seq<char>) -> Option<i64> {
    let signed = s.len() > 0 && (s[0] == '+' || s[0] == '-');
    let neg = s.len() > 0 && s[0] == '-';
    let digits = if signed {
        s.drop_first()
    } else {
        s
    };
    if digits.len() == 0 || !all_digits(digits) {
        None
    } else {
        let m = digits_val(digits);
        if neg {
            if m <= 0x8000_0000_0000_0000 {
                Some((-(m as int)) as i64)
            } else {
                None
            }
        } else {
            if m <= i64::MAX {
                Some(m as i64)
            } else {
                None
            }
        }
    }
}

/// The canonical decimal form of a number is a nonempty digit string that
/// reads back as that number.
pub proof fn lemma_dec_digits(n: nat)
    ensures
        dec_digits(n).len() >= 1,
        all_digits(dec_digits(n)),
        digits_val(dec_digits(n)) == n,
    decreases n,
{
    if n < 10 {
        let s = seq![digit_char(n)];
        assert(s.len() == 1);
        assert(s.last() == digit_char(n));
        assert(s.drop_last() =~= Seq::<char>::empty());
        assert(digits_val(Seq::<char>::empty()) == 0);
        assert(digits_val(s) == digit_val(digit_char(n)));
        assert(digit_val(digit_char(n)) == n);
        assert(is_digit_char(digit_char(n)));
    } else {
        lemma_dec_digits(n / 10);
        let a = dec_digits(n / 10);
        let c = digit_char(n % 10);
        let s = a.push(c);
        assert(s.drop_last() =~= a);
        assert(s.last() == c);
        assert(digits_val(s) == digits_val(a) * 10 + digit_val(c));
        assert(digit_val(c) == n % 10);
        vstd::arithmetic::div_mod::lemma_fundamental_div_mod(n as int, 10);
        assert(digits_val(s) == n);
        assert forall|i: int| 0 <= i < s.len() implies is_digit_char(#[trigger] s[i]) by {
            if i < a.len() {
                assert(s[i] == a[i]);
            } else {
                assert(s[i] == c);
            }
        }
    }
}

/// Round trip for the unsigned codec: every `u64` decodes back from its
/// own encoding, stated over the spec-level codec that the executable
/// `encode_u64` and `decode_u64` are proved against.
pub proof fn lemma_u64_round_trip(v: u64)
    ensures
        spec_parse_u64(spec_encode_u64(v)) == Some(v),
{
    lemma_dec_digits(v as nat);
    let s = dec_digits(v as nat);
    assert(is_digit_char(s[0]));
    assert(s[0] != '+');
}

/// Round trip for the signed codec: every `i64` decodes back from its own
/// encoding, stated over the spec-level codec that the executable
/// `encode_i64` and `decode_i64` are proved against.
pub proof fn lemma_i64_round_trip(v: i64)
    ensures
        spec_parse_i64(spec_encode_i64(v)) == Some(v),
{
    if v >= 0 {
        lemma_dec_digits(v as nat);
        let s = dec_digits(v as nat);
        assert(is_digit_char(s[0]));
        assert(s[0] != '+' && s[0] != '-');
    } else {
        let m = (-(v as int)) as nat;
        lemma_dec_digits(m);
        let d = dec_digits(m);
        let s = seq!['-'] + d;
        assert(s[0] == '-');
        assert(s.drop_first() =~= d);
        assert(m <= 0x8000_0000_0000_0000);
        assert(spec_parse_i64(s) == Some(v));
    }
}

/// Appending characters to a digit string never lowers its value.
proof fn lemma_digits_val_extend(p: Seq<char>, t: Seq<char>)
    ensures
        digits_val(p) <= digits_val(p + t),
    decreases t.len(),
{
    if t.len() == 0 {
        assert(p + t =~= p);
    } else {
        lemma_digits_val_extend(p, t.drop_last());
        assert((p + t).drop_last() =~= p + t.drop_last());
        assert((p + t).last() == t.last());
        assert(digits_val(p + t) == digits_val(p + t.drop_last()) * 10 + digit_val(t.last()));
    }
}

/// Reads the digit run of `s` that starts at `start`, accumulating its
/// value.  Fails when the run is empty, when a non-digit appears, or when
/// the value exceeds `u64::MAX`; both decoders share this loop.
fn digits_to_u64(s: &str, start: usize) -> (r: Result<u64, FormatError>)
    requires
        start as int <= s@.len(),
    ensures
        match r {
            Ok(v) => {
                let digits = s@.subrange(start as int, s@.len() as int);
                digits.len() >= 1 && all_digits(digits) && digits_val(digits) == v
            },
            Err(e) => {
                let digits = s@.subrange(start as int, s@.len() as int);
                (digits.len() == 0 || !all_digits(digits) || digits_val(digits) > u64::MAX)
                    && e.input@ == s@
            },
        },
{
    let n = s.unicode_len();
    let ghost digits = s@.subrange(start as int, n as int);
    if start >= n {
        return Err(FormatError { input: s.to_owned() });
    }
    let mut acc: u64 = 0;
    let mut i: usize = start;
    while i < n
        invariant
            start <= i <= n,
            n == s@.len(),
            start < n,
            digits == s@.subrange(start as int, n as int),
            all_digits(s@.subrange(start as int, i as int)),
            acc == digits_val(s@.subrange(start as int, i as int)),
        decreases n - i,
    {
        let c = s.get_char(i);
        let u: u32 = c as u32;
        if u < 48 || u > 57 {
            proof {
                assert(digits[i - start] == s@[i as int]);
                assert(!is_digit_char(digits[i - start]));
            }
            return Err(FormatError { input: s.to_owned() });
        }
        let d: u64 = (u - 48) as u64;
        let ghost pre = s@.subrange(start as int, i as int);
        let ghost ext = s@.subrange(start as int, (i + 1) as int);
        proof {
            assert(ext.drop_last() =~= pre);
            assert(ext.last() == s@[i as int]);
            assert(digits_val(ext) == digits_val(pre) * 10 + digit_val(s@[i as int]));
        }
        let mul = acc.checked_mul(10);
        let step: Option<u64> = match mul {
            Some(m) => m.checked_add(d),
            None => None,
        };
        match step {
            Some(a2) => {
                acc = a2;
                proof {
                    assert(all_digits(ext));
                }
            },
            None => {
                proof {
                    assert(digits_val(ext) > u64::MAX);
                    lemma_digits_val_extend(ext, s@.subrange((i + 1) as int, n as int));
                    assert(ext + s@.subrange((i + 1) as int, n as int) =~= digits);
                }
                return Err(FormatError { input: s.to_owned() });
            },
        }
        i = i + 1;
    }
    proof {
        assert(s@.subrange(start as int, i as int) == digits);
    }
    Ok(acc)
}

/// Decode a decimal string into a `u64`, accepting exactly what
/// `spec_parse_u64` accepts: an optional leading `+` and one or more
/// digits, in range.
pub fn decode_u64(s: &str) -> (r: Result<u64, FormatError>)
    ensures
        match r {
            Ok(v) => spec_parse_u64(s@) == Some(v),
            Err(e) => spec_parse_u64(s@) is None && e.input@ == s@,
        },
{
    let n = s.unicode_len();
    let start: usize = if n > 0 && s.get_char(0) == '+' {
        1
    } else {
        0
    };
    proof {
        if start == 1 {
            assert(s@.subrange(1, s@.len() as int) =~= s@.drop_first());
        } else {
            assert(s@.subrange(0, s@.len() as int) =~= s@);
        }
    }
    match digits_to_u64(s, start) {
        Ok(v) => Ok(v),
        Err(e) => Err(e),
    }
}

/// Decode a decimal string into an `i64`, accepting exactly what
/// `spec_parse_i64` accepts: an optional leading sign and one or more
/// digits, in range.
pub fn decode_i64(s: &str) -> (r: Result<i64, FormatError>)
    ensures
        match r {
            Ok(v) => spec_parse_i64(s@) == Some(v),
            Err(e) => spec_parse_i64(s@) is None && e.input@ == s@,
        },
{
    let n = s.unicode_len();
    let mut neg = false;
    let mut start: usize = 0;
    if n > 0 {
        let c0 = s.get_char(0);
        if c0 == '+' {
            start = 1;
        } else if c0 == '-' {
            start = 1;
            neg = true;
        }
    }
    proof {
        if start == 1 {
            assert(s@.subrange(1, s@.len() as int) =~= s@.drop_first());
        } else {
            assert(s@.subrange(0, s@.len() as int) =~= s@);
        }
    }
    match digits_to_u64(s, start) {
        Ok(m) => {
            if neg {
                if m > 0x8000_0000_0000_0000u64 {
                    Err(FormatError { input: s.to_owned() })
                } else if m == 0x8000_0000_0000_0000u64 {
                    Ok(i64::MIN)
                } else {
                    Ok(-(m as i64))
                }
            } else {
                if m > 0x7FFF_FFFF_FFFF_FFFFu64 {
                    Err(FormatError { input: s.to_owned() })
                } else {
                    Ok(m as i64)
                }
            }
        },
        Err(e) => Err(e),
    }
}

/// The one-character string for a decimal digit value.
fn digit_str(d: u64) -> (r: &'static str)
    requires
        d < 10,
    ensures
        r@.len() == 1,
        r@[0] == digit_char(d as nat),
{
    if d == 0 {
        proof {
            reveal_strlit("0");
        }
        "0"
    } else if d == 1 {
        proof {
            reveal_strlit("1");
        }
        "1"
    } else if d == 2 {
        proof {
            reveal_strlit("2");
        }
        "2"
    } else if d == 3 {
        proof {
            reveal_strlit("3");
        }
        "3"
    } else if d == 4 {
        proof {
            reveal_strlit("4");
        }
        "4"
    } else if d == 5 {
        proof {
            reveal_strlit("5");
        }
        "5"
    } else if d == 6 {
        proof {
            reveal_strlit("6");
        }
        "6"
    } else if d == 7 {
        proof {
            reveal_strlit("7");
        }
        "7"
    } else if d == 8 {
        proof {
            reveal_strlit("8");
        }
        "8"
    } else {
        proof {
            reveal_strlit("9");
        }
        "9"
    }
}

/// Encode an unsigned 64-bit integer as its canonical decimal string.
pub fn encode_u64(v: u64) -> (r: String)
    ensures
        r@ == spec_encode_u64(v),
{
    let mut s: String = String::from_str(digit_str(v % 10));
    let mut rem: u64 = v / 10;
    proof {
        if v < 10 {
            assert(s@ =~= dec_digits(v as nat));
        } else {
            assert(dec_digits(v as nat) =~= dec_digits((v / 10) as nat) + s@);
        }
    }
    while rem > 0
        invariant
            rem > 0 ==> dec_digits(v as nat) == dec_digits(rem as nat) + s@,
            rem == 0 ==> dec_digits(v as nat) == s@,
        decreases rem,
    {
        let t: String = String::from_str(digit_str(rem % 10));
        let next: u64 = rem / 10;
        proof {
            if next == 0 {
                assert(dec_digits(rem as nat) =~= t@);
                assert(dec_digits(rem as nat) + s@ =~= t@ + s@);
            } else {
                assert(dec_digits(rem as nat) =~= dec_digits(next as nat) + t@);
                assert(dec_digits(rem as nat) + s@ =~= dec_digits(next as nat) + (t@ + s@));
            }
        }
        s = t.concat(s.as_str());
        rem = next;
    }
    s
}

/// Encode a signed 64-bit integer as its canonical decimal string.
pub fn encode_i64(v: i64) -> (r: String)
    ensures
        r@ == spec_encode_i64(v),
{
    if v >= 0 {
        encode_u64(v as u64)
    } else {
        let m: u64 = if v == i64::MIN {
            9223372036854775808u64
        } else {
            (-v) as u64
        };
        proof {
            reveal_strlit("-");
        }
        let sign: String = String::from_str("-");
        let r = sign.concat(encode_u64(m).as_str());
        proof {
            assert(r@ =~= spec_encode_i64(v));
        }
        r
    }
}

} // verus!
