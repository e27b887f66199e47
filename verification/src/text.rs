//! ASCII text helpers: case-insensitive comparison of header names, decimal
//! parsing of a `Content-Length` value, and decimal formatting of a length.

use vstd::prelude::*;
use vstd::string::StrSliceExecFns;
use vstd::string::StringExecFns;

verus! {

/// ASCII lower-casing of one code point: upper-case letters move down into
/// the lower-case range, everything else is unchanged.
pub open spec fn to_lower(c: int) -> int {
    if 65 <= c <= 90 {
        c + 32
    } else {
        c
    }
}

/// The case-folded form of a string, as a sequence of code points.  Two
/// header names are equal case-insensitively exactly when their folded forms
/// are equal.
pub open spec fn lower_seq(s: Seq<char>) -> Seq<int> {
    s.map_values(|c: char| to_lower(c as int))
}

/// Whether `s` is the header name `Content-Length`, compared
/// case-insensitively.
pub open spec fn is_content_length_name(s: Seq<char>) -> bool {
    lower_seq(s) == lower_seq("Content-Length"@)
}

/// Compares two strings ASCII-case-insensitively.
pub fn eq_ignore_ascii_case(a: &str, b: &str) -> (r: bool)
    ensures
        r == (lower_seq(a@) == lower_seq(b@)),
{
    let alen: usize = a.unicode_len();
    let blen: usize = b.unicode_len();
    if alen != blen {
        proof {
            assert(lower_seq(a@).len() != lower_seq(b@).len());
        }
        return false;
    }
    let mut i: usize = 0;
    while i < alen
        invariant
            i <= alen,
            alen == a@.len(),
            alen == b@.len(),
            forall|j: int| 0 <= j < i ==> lower_seq(a@)[j] == lower_seq(b@)[j],
        decreases alen - i,
    {
        let ca: u32 = a.get_char(i) as u32;
        let cb: u32 = b.get_char(i) as u32;
        let la: u32 = if 65 <= ca && ca <= 90 {
            ca + 32
        } else {
            ca
        };
        let lb: u32 = if 65 <= cb && cb <= 90 {
            cb + 32
        } else {
            cb
        };
        if la != lb {
            proof {
                assert(lower_seq(a@)[i as int] != lower_seq(b@)[i as int]);
            }
            return false;
        }
        i += 1;
    }
    proof {
        assert(lower_seq(a@) =~= lower_seq(b@));
    }
    true
}

/// Whether `name` is the `Content-Length` header name, compared
/// case-insensitively.
pub fn is_content_length(name: &str) -> (r: bool)
    ensures
        r == is_content_length_name(name@),
{
    eq_ignore_ascii_case(name, "Content-Length")
}

pub open spec fn is_digit(c: char) -> bool {
    48 <= c as int <= 57
}

pub open spec fn digit_val(c: char) -> int {
    c as int - 48
}

pub open spec fn all_digits(s: Seq<char>) -> bool {
    forall|i: int| 0 <= i < s.len() ==> is_digit(#[trigger] s[i])
}

/// The number denoted by a sequence of decimal digits, most significant
/// first.
pub open spec fn digits_val(s: Seq<char>) -> int
    decreases s.len(),
{
    if s.len() == 0 {
        0
    } else {
        digits_val(s.drop_last()) * 10 + digit_val(s.last())
    }
}

/// The digits of a decimal numeral: everything after an optional leading
/// `+`.
pub open spec fn digits_part(s: Seq<char>) -> Seq<char> {
    if s.len() > 0 && s[0] == '+' {
        s.subrange(1, s.len() as int)
    } else {
        s
    }
}

/// What `str::parse::<u64>` accepts: an optional leading `+`, then at least
/// one decimal digit, and a value that fits in 64 bits.
pub open spec fn parse_u64_spec(s: Seq<char>) -> Option<u64> {
    let ds = digits_part(s);
    if ds.len() == 0 || !all_digits(ds) {
        None
    } else if digits_val(ds) > u64::MAX {
        None
    } else {
        Some(digits_val(ds) as u64)
    }
}

proof fn lemma_digits_val_nonneg(s: Seq<char>)
    requires
        all_digits(s),
    ensures
        digits_val(s) >= 0,
    decreases s.len(),
{
    if s.len() > 0 {
        assert(all_digits(s.drop_last()));
        lemma_digits_val_nonneg(s.drop_last());
    }
}

/// A digit string denotes at least as much as any of its prefixes.
proof fn lemma_digits_val_prefix_le(s: Seq<char>, i: int)
    requires
        all_digits(s),
        0 <= i <= s.len(),
    ensures
        digits_val(s.subrange(0, i)) <= digits_val(s),
    decreases s.len(),
{
    if i == s.len() {
        assert(s.subrange(0, i) =~= s);
    } else {
        let d = s.drop_last();
        assert(all_digits(d));
        assert(s.subrange(0, i) =~= d.subrange(0, i));
        lemma_digits_val_prefix_le(d, i);
        lemma_digits_val_nonneg(d);
        assert(digits_val(d) <= digits_val(d) * 10);
        assert(digit_val(s.last()) >= 0);
    }
}

/// Parses a decimal `u64`, accepting exactly what `str::parse::<u64>` does:
/// an optional leading `+`, then one or more ASCII digits, rejecting
/// overflow.
pub fn parse_u64(s: &str) -> (r: Option<u64>)
    ensures
        r == parse_u64_spec(s@),
{
    let len: usize = s.unicode_len();
    let mut i: usize = 0;
    if len > 0 && s.get_char(0) == '+' {
        i = 1;
    }
    let ghost start: int = i as int;
    let ghost ds: Seq<char> = digits_part(s@);
    proof {
        assert(ds =~= s@.subrange(start, len as int));
    }
    if i == len {
        proof {
            assert(ds.len() == 0);
        }
        return None;
    }
    let mut acc: u64 = 0;
    while i < len
        invariant
            start <= i <= len,
            i > start || i == start,
            len == s@.len(),
            start == 0 || start == 1,
            ds == digits_part(s@),
            ds == s@.subrange(start, len as int),
            all_digits(s@.subrange(start, i as int)),
            acc == digits_val(s@.subrange(start, i as int)),
        decreases len - i,
    {
        let c: u32 = s.get_char(i) as u32;
        if c < 48 || c > 57 {
            proof {
                assert(ds[i - start] == s@[i as int]);
                assert(!is_digit(ds[i - start]));
                assert(!all_digits(ds));
            }
            return None;
        }
        let d: u64 = (c - 48) as u64;
        proof {
            assert(s@.subrange(start, i + 1).drop_last() =~= s@.subrange(start, i as int));
            assert(s@.subrange(start, i + 1).last() == s@[i as int]);
            assert(all_digits(s@.subrange(start, i + 1)));
        }
        if acc > u64::MAX / 10 || (acc == u64::MAX / 10 && d > u64::MAX % 10) {
            proof {
                let p = s@.subrange(start, i + 1);
                assert(digits_val(p) == acc * 10 + d);
                assert(digits_val(p) > u64::MAX);
                if all_digits(ds) {
                    assert(p =~= ds.subrange(0, i + 1 - start));
                    lemma_digits_val_prefix_le(ds, i + 1 - start);
                    assert(digits_val(ds.subrange(0, i + 1 - start)) <= digits_val(ds));
                    assert(digits_val(ds) > u64::MAX);
                }
            }
            return None;
        }
        acc = acc * 10 + d;
        i += 1;
    }
    proof {
        assert(s@.subrange(start, i as int) =~= ds);
        assert(digits_val(ds) == acc);
    }
    Some(acc)
}

pub open spec fn dec_digit_char(d: int) -> char {
    if d == 0 {
        '0'
    } else if d == 1 {
        '1'
    } else if d == 2 {
        '2'
    } else if d == 3 {
        '3'
    } else if d == 4 {
        '4'
    } else if d == 5 {
        '5'
    } else if d == 6 {
        '6'
    } else if d == 7 {
        '7'
    } else if d == 8 {
        '8'
    } else {
        '9'
    }
}

/// The decimal rendering of a non-negative number, most significant digit
/// first.
pub open spec fn dec_seq(n: int) -> Seq<char>
    decreases n,
{
    if n < 10 {
        seq![dec_digit_char(n)]
    } else {
        dec_seq(n / 10).push(dec_digit_char(n % 10))
    }
}

fn dec_digit_str(d: u64) -> (r: &'static str)
    requires
        d < 10,
    ensures
        r@ == seq![dec_digit_char(d as int)],
{
    proof {
        reveal_strlit("0");
        reveal_strlit("1");
        reveal_strlit("2");
        reveal_strlit("3");
        reveal_strlit("4");
        reveal_strlit("5");
        reveal_strlit("6");
        reveal_strlit("7");
        reveal_strlit("8");
        reveal_strlit("9");
    }
    let r: &'static str = if d == 0 {
        "0"
    } else if d == 1 {
        "1"
    } else if d == 2 {
        "2"
    } else if d == 3 {
        "3"
    } else if d == 4 {
        "4"
    } else if d == 5 {
        "5"
    } else if d == 6 {
        "6"
    } else if d == 7 {
        "7"
    } else if d == 8 {
        "8"
    } else {
        "9"
    };
    proof {
        assert(r@ =~= seq![dec_digit_char(d as int)]);
    }
    r
}

/// The decimal rendering is faithful: it is all digits, never empty, and
/// denotes exactly the number it was made from -- so a rendered length,
/// parsed back, gives the length.
pub proof fn lemma_dec_seq_denotes(n: int)
    requires
        n >= 0,
    ensures
        all_digits(dec_seq(n)),
        digits_val(dec_seq(n)) == n,
        dec_seq(n).len() >= 1,
    decreases n,
{
    if n < 10 {
        assert(digit_val(dec_digit_char(n)) == n);
        assert(dec_seq(n) =~= seq![dec_digit_char(n)]);
        assert(dec_seq(n).drop_last() =~= Seq::<char>::empty());
        assert(digits_val(dec_seq(n)) == digits_val(Seq::<char>::empty()) * 10 + digit_val(
            dec_digit_char(n),
        ));
    } else {
        lemma_dec_seq_denotes(n / 10);
        assert(dec_seq(n).drop_last() =~= dec_seq(n / 10));
        assert(dec_seq(n).last() == dec_digit_char(n % 10));
        vstd::arithmetic::div_mod::lemma_fundamental_div_mod(n, 10);
        assert(0 <= n % 10 < 10) by {
            vstd::arithmetic::div_mod::lemma_mod_bound(n, 10);
        }
        assert(digit_val(dec_digit_char(n % 10)) == n % 10);
        assert(digits_val(dec_seq(n)) == digits_val(dec_seq(n / 10)) * 10 + digit_val(
            dec_digit_char(n % 10),
        ));
        assert forall|i: int| 0 <= i < dec_seq(n).len() implies is_digit(
            #[trigger] dec_seq(n)[i],
        ) by {
            if i < dec_seq(n).len() - 1 {
                assert(dec_seq(n)[i] == dec_seq(n / 10)[i]);
            }
        }
    }
}

/// Format/parse round trip: a rendered length, parsed back as a decimal
/// numeral, gives the length itself.
pub proof fn lemma_fmt_parse_round_trip(n: u64)
    ensures
        parse_u64_spec(dec_seq(n as int)) == Some(n),
{
    lemma_dec_seq_denotes(n as int);
    let s = dec_seq(n as int);
    assert(is_digit(s[0]));
    assert(s[0] != '+') by {
        assert(48 <= s[0] as int <= 57);
    }
    assert(digits_part(s) == s);
}

/// Renders a length in decimal, as the engine's `Content-Length` accessor
/// value is surfaced to header queries.
pub fn fmt_u64(n: u64) -> (s: String)
    ensures
        s@ == dec_seq(n as int),
    decreases n,
{
    if n < 10 {
        String::from_str(dec_digit_str(n))
    } else {
        let mut s: String = fmt_u64(n / 10);
        s.append(dec_digit_str(n % 10));
        proof {
            assert(s@ =~= dec_seq(n as int));
        }
        s
    }
}

} // verus!
