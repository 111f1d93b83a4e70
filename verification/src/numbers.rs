//! Decimal text for version numbers: rendering an integer as the digits that
//! stand in a download URL, and parsing the body of a version response.

use vstd::prelude::*;
use crate::errors::UpdateError;

verus! {

/// Whether a character is a decimal digit.
pub open spec fn is_dec_digit(c: char) -> bool {
    48 <= c as u32 && c as u32 <= 57
}

/// The numeric value of a decimal digit character.
pub open spec fn digit_val(c: char) -> int {
    c as u32 - 48
}

/// The character for one decimal digit.
pub open spec fn digit_char(d: int) -> char {
    if d == 0 {
        '0'
    } else if d == 1 {
        '1'
    } else if d == 2 {
        '2'
    } else if d == 3 {
        '3'
    } else if d == 4 {
        '4'
    } else if d == 5 {
        '5'
    } else if d == 6 {
        '6'
    } else if d == 7 {
        '7'
    } else if d == 8 {
        '8'
    } else {
        '9'
    }
}

/// The decimal digits of a nonnegative integer, most significant first.
pub open spec fn udec_chars(n: nat) -> Seq<char>
    decreases n,
{
    if n < 10 {
        seq![digit_char(n as int)]
    } else {
        udec_chars(n / 10) + seq![digit_char((n % 10) as int)]
    }
}

/// The decimal text of an integer: a minus sign for negative values,
/// then the digits of the magnitude.
pub open spec fn dec_chars(v: int) -> Seq<char> {
    if v < 0 {
        seq!['-'] + udec_chars((-v) as nat)
    } else {
        udec_chars(v as nat)
    }
}

/// Whether every character of a text is a decimal digit.
pub open spec fn all_digits(s: Seq<char>) -> bool {
    forall|i: int| 0 <= i < s.len() ==> is_dec_digit(#[trigger] s[i])
}

/// The value of a digit string, most significant digit first.
pub open spec fn digits_val(s: Seq<char>) -> int
    decreases s.len(),
{
    if s.len() == 0 {
        0
    } else {
        digits_val(s.drop_last()) * 10 + digit_val(s.last())
    }
}

/// The text with a single leading sign character removed, if one is there.
pub open spec fn unsigned_part(s: Seq<char>) -> Seq<char> {
    if s.len() > 0 && (s[0] == '-' || s[0] == '+') {
        s.drop_first()
    } else {
        s
    }
}

/// Whether the text denotes a negative number.
pub open spec fn negative_text(s: Seq<char>) -> bool {
    s.len() > 0 && s[0] == '-'
}

/// Whether the text has the shape of a signed decimal integer: an optional
/// sign followed by at least one digit and nothing else.
pub open spec fn version_text_shape_ok(s: Seq<char>) -> bool {
    unsigned_part(s).len() > 0 && all_digits(unsigned_part(s))
}

/// The signed value a well-shaped decimal text denotes.
pub open spec fn version_text_value(s: Seq<char>) -> int {
    if negative_text(s) {
        -digits_val(unsigned_part(s))
    } else {
        digits_val(unsigned_part(s))
    }
}

/// Whether the text is a well-shaped decimal integer whose value fits a
/// 32-bit signed integer.
pub open spec fn valid_version_text(s: Seq<char>) -> bool {
    version_text_shape_ok(s) && -2147483648 <= version_text_value(s) <= 2147483647
}

proof fn lemma_all_digits_drop_last(s: Seq<char>)
    requires
        all_digits(s),
        s.len() > 0,
    ensures
        all_digits(s.drop_last()),
{
    assert forall|i: int| 0 <= i < s.drop_last().len() implies is_dec_digit(
        #[trigger] s.drop_last()[i],
    ) by {
        assert(s.drop_last()[i] == s[i]);
    }
}

/// A digit string never denotes a negative value.
pub proof fn lemma_digits_val_nonneg(s: Seq<char>)
    requires
        all_digits(s),
    ensures
        digits_val(s) >= 0,
    decreases s.len(),
{
    if s.len() > 0 {
        lemma_all_digits_drop_last(s);
        lemma_digits_val_nonneg(s.drop_last());
        assert(is_dec_digit(s[s.len() - 1]));
    }
}

/// Appending further digits never lowers the value of a digit string.
pub proof fn lemma_digits_val_extend(s: Seq<char>, t: Seq<char>)
    requires
        all_digits(s),
        all_digits(t),
    ensures
        digits_val(s + t) >= digits_val(s),
    decreases t.len(),
{
    if t.len() == 0 {
        assert(s + t =~= s);
    } else {
        let t0 = t.drop_last();
        lemma_all_digits_drop_last(t);
        lemma_digits_val_extend(s, t0);
        assert((s + t).drop_last() =~= s + t0);
        assert((s + t).last() == t[t.len() - 1]);
        assert(is_dec_digit(t[t.len() - 1]));
        lemma_digits_val_nonneg(s);
        assert(digits_val(s + t) == digits_val(s + t0) * 10 + digit_val(t.last()));
    }
}

/// Each digit character denotes its own digit.
pub proof fn lemma_digit_char_val(d: int)
    requires
        0 <= d < 10,
    ensures
        is_dec_digit(digit_char(d)),
        digit_val(digit_char(d)) == d,
{
    assert('0' as u32 == 48 && '1' as u32 == 49 && '2' as u32 == 50 && '3' as u32 == 51
        && '4' as u32 == 52 && '5' as u32 == 53 && '6' as u32 == 54 && '7' as u32 == 55
        && '8' as u32 == 56 && '9' as u32 == 57);
}

/// The rendered digits of a nonnegative integer are digits throughout.
pub proof fn lemma_udec_all_digits(n: nat)
    ensures
        all_digits(udec_chars(n)),
        udec_chars(n).len() >= 1,
    decreases n,
{
    if n >= 10 {
        lemma_udec_all_digits(n / 10);
        let front = udec_chars(n / 10);
        let s = udec_chars(n);
        assert(s == front + seq![digit_char((n % 10) as int)]);
        assert forall|i: int| 0 <= i < s.len() implies is_dec_digit(#[trigger] s[i]) by {
            if i < front.len() {
                assert(s[i] == front[i]);
            } else {
                assert(s[i] == digit_char((n % 10) as int));
            }
        }
    }
}

/// The rendered digits of a nonnegative integer denote that integer.
pub proof fn lemma_udec_val(n: nat)
    ensures
        digits_val(udec_chars(n)) == n,
    decreases n,
{
    if n < 10 {
        let s = udec_chars(n);
        lemma_digit_char_val(n as int);
        assert(s.drop_last() =~= Seq::<char>::empty());
        assert(digits_val(Seq::<char>::empty()) == 0);
        assert(s.last() == digit_char(n as int));
        assert(digits_val(s) == digits_val(s.drop_last()) * 10 + digit_val(s.last()));
    } else {
        lemma_udec_val(n / 10);
        lemma_digit_char_val((n % 10) as int);
        let front = udec_chars(n / 10);
        let s = udec_chars(n);
        assert(s.drop_last() =~= front);
        assert(s.last() == digit_char((n % 10) as int));
    }
}

/// Law: rendering a version number and parsing it back round-trips.  The
/// decimal text of any 32-bit value is valid version text and denotes the
/// value it was rendered from.
pub proof fn lemma_format_parse_round_trip(v: i32)
    ensures
        valid_version_text(dec_chars(v as int)),
        version_text_value(dec_chars(v as int)) == v as int,
{
    let s = dec_chars(v as int);
    if v < 0 {
        let mag = (-(v as int)) as nat;
        lemma_udec_all_digits(mag);
        lemma_udec_val(mag);
        assert(s[0] == '-');
        assert(unsigned_part(s) =~= udec_chars(mag));
    } else {
        lemma_udec_all_digits(v as nat);
        lemma_udec_val(v as nat);
        assert(s == udec_chars(v as nat));
        assert(is_dec_digit(s[0]));
        assert(s[0] != '-' && s[0] != '+');
        assert(unsigned_part(s) == s);
        assert(!negative_text(s));
    }
}

/// The string of one digit.
fn digit_str(d: u8) -> (r: &'static str)
    requires
        d < 10,
    ensures
        r@ == seq![digit_char(d as int)],
{
    let r: &'static str = match d {
        0 => "0",
        1 => "1",
        2 => "2",
        3 => "3",
        4 => "4",
        5 => "5",
        6 => "6",
        7 => "7",
        8 => "8",
        _ => "9",
    };
    proof {
        reveal_strlit("0");
        reveal_strlit("1");
        reveal_strlit("2");
        reveal_strlit("3");
        reveal_strlit("4");
        reveal_strlit("5");
        reveal_strlit("6");
        reveal_strlit("7");
        reveal_strlit("8");
        reveal_strlit("9");
        assert(r@ =~= seq![digit_char(d as int)]);
    }
    r
}

fn udec_string(n: u32) -> (r: String)
    ensures
        r@ == udec_chars(n as nat),
    decreases n,
{
    if n < 10 {
        String::from_str(digit_str(n as u8))
    } else {
        let front = udec_string(n / 10);
        let r = front.concat(digit_str((n % 10) as u8));
        proof {
            assert((n as nat) / 10 == (n / 10) as nat);
            assert((n as nat) % 10 == (n % 10) as nat);
        }
        r
    }
}

/// Renders a version number as the decimal text that stands in a URL.
pub fn format_version(v: i32) -> (r: String)
    ensures
        r@ == dec_chars(v as int),
{
    if v < 0 {
        let m64: i64 = -(v as i64);
        let mag: u32 = m64 as u32;
        let s = String::from_str("-");
        let r = s.concat(udec_string(mag).as_str());
        proof {
            reveal_strlit("-");
            assert(mag as int == -(v as int));
            assert(r@ =~= dec_chars(v as int));
        }
        r
    } else {
        udec_string(v as u32)
    }
}

/// Parses the body of a version response as a signed 32-bit decimal integer.
/// Succeeds exactly on well-shaped in-range decimal text, and on nothing else.
pub fn parse_version(s: &str) -> (r: Result<i32, UpdateError>)
    ensures
        r is Ok <==> valid_version_text(s@),
        r matches Ok(v) ==> v as int == version_text_value(s@),
        r matches Err(e) ==> e == UpdateError::Format,
{
    let n = s.unicode_len();
    if n == 0 {
        return Err(UpdateError::Format);
    }
    let c0 = s.get_char(0);
    let signed: bool = c0 == '-' || c0 == '+';
    let start: usize = if signed {
        1
    } else {
        0
    };
    proof {
        assert(unsigned_part(s@) =~= s@.subrange(start as int, n as int));
    }
    if n == start {
        return Err(UpdateError::Format);
    }
    let mut acc: u64 = 0;
    let mut i: usize = start;
    while i < n
        invariant
            start <= i <= n,
            n == s@.len(),
            n > start,
            unsigned_part(s@) == s@.subrange(start as int, n as int),
            all_digits(s@.subrange(start as int, i as int)),
            acc == digits_val(s@.subrange(start as int, i as int)),
            acc <= 2147483648,
        decreases n - i,
    {
        let c = s.get_char(i);
        let cv = c as u32;
        if cv < 48 || cv > 57 {
            proof {
                assert(unsigned_part(s@)[i - start] == s@[i as int]);
            }
            return Err(UpdateError::Format);
        }
        let d: u64 = (cv - 48) as u64;
        proof {
            let pre = s@.subrange(start as int, i as int);
            let ext = s@.subrange(start as int, i + 1);
            assert(ext.drop_last() =~= pre);
            assert(ext.last() == s@[i as int]);
            assert forall|k: int| 0 <= k < ext.len() implies is_dec_digit(#[trigger] ext[k]) by {
                if k < ext.len() - 1 {
                    assert(ext[k] == pre[k]);
                }
            }
        }
        acc = acc * 10 + d;
        i = i + 1;
        if acc > 2147483648 {
            proof {
                let done = s@.subrange(start as int, i as int);
                let rest = s@.subrange(i as int, n as int);
                assert(unsigned_part(s@) =~= done + rest);
                if version_text_shape_ok(s@) {
                    assert forall|k: int| 0 <= k < rest.len() implies is_dec_digit(
                        #[trigger] rest[k],
                    ) by {
                        assert(rest[k] == unsigned_part(s@)[k + i - start]);
                    }
                    lemma_digits_val_extend(done, rest);
                }
            }
            return Err(UpdateError::Format);
        }
    }
    proof {
        assert(s@.subrange(start as int, i as int) =~= unsigned_part(s@));
    }
    if signed && c0 == '-' {
        let r64: i64 = -(acc as i64);
        proof {
            assert(negative_text(s@));
        }
        Ok(r64 as i32)
    } else {
        if acc > 2147483647 {
            proof {
                assert(!negative_text(s@));
            }
            return Err(UpdateError::Format);
        }
        proof {
            assert(!negative_text(s@));
        }
        Ok(acc as i32)
    }
}

} // verus!
