//! Verified helpers for decimal text and for character sequences.
//!
//! Numbers are rendered and read without `format!`: the spec functions
//! here define the decimal form of an integer, and the executable
//! functions are proved to produce or consume exactly that form.

use vstd::prelude::*;

use crate::platform::char_to_string;

verus! {

/// The character for a single decimal digit value.
pub open spec fn dec_digit(d: int) -> char
    recommends
        0 <= d < 10,
{
    ((d + 48) as u8) as char
}

/// Decimal digits of a natural number, most significant first.
pub open spec fn dec_of(n: int) -> Seq<char>
    recommends
        n >= 0,
    decreases n,
{
    if n < 10 {
        seq![dec_digit(n)]
    } else {
        dec_of(n / 10).push(dec_digit(n % 10))
    }
}

/// Decimal form of a signed number: a minus sign before the digits.
pub open spec fn dec_of_signed(n: int) -> Seq<char> {
    if n < 0 {
        seq!['-'] + dec_of(-n)
    } else {
        dec_of(n)
    }
}

/// Two-digit zero-padded decimal form, used for clock components.
pub open spec fn dec_pad2(n: int) -> Seq<char>
    recommends
        0 <= n,
{
    if n < 10 {
        seq!['0'] + dec_of(n)
    } else {
        dec_of(n)
    }
}

/// Whether a character is an ASCII decimal digit.
pub open spec fn is_digit(c: char) -> bool {
    48 <= c as int <= 57
}

/// The numeric value of an ASCII digit character.
pub open spec fn digit_val(c: char) -> int {
    c as int - 48
}

/// Whether every character of a sequence is an ASCII digit.
pub open spec fn all_digits(s: Seq<char>) -> bool {
    forall|i: int| 0 <= i < s.len() ==> is_digit(#[trigger] s[i])
}

/// The value of a sequence of ASCII digits, read in base ten.
pub open spec fn dec_val(s: Seq<char>) -> int
    decreases s.len(),
{
    if s.len() == 0 {
        0
    } else {
        dec_val(s.drop_last()) * 10 + digit_val(s.last())
    }
}

/// A single decimal digit as a one-character string.
pub fn digit_string(d: u8) -> (r: String)
    requires
        d < 10,
    ensures
        r@ == seq![dec_digit(d as int)],
{
    let r: &str = match d {
        0 => "0",
        1 => "1",
        2 => "2",
        3 => "3",
        4 => "4",
        5 => "5",
        6 => "6",
        7 => "7",
        8 => "8",
        _ => "9",
    };
    proof {
        reveal_strlit("0");
        reveal_strlit("1");
        reveal_strlit("2");
        reveal_strlit("3");
        reveal_strlit("4");
        reveal_strlit("5");
        reveal_strlit("6");
        reveal_strlit("7");
        reveal_strlit("8");
        reveal_strlit("9");
        assert(r@ =~= seq![dec_digit(d as int)]);
    }
    r.to_owned()
}

/// Renders an unsigned number in decimal.
pub fn u64_to_string(n: u64) -> (r: String)
    ensures
        r@ == dec_of(n as int),
    decreases n,
{
    if n < 10 {
        digit_string(n as u8)
    } else {
        let mut r = u64_to_string(n / 10);
        let last = digit_string((n % 10) as u8);
        r.append(last.as_str());
        proof {
            assert(r@ =~= dec_of(n as int));
        }
        r
    }
}

/// Renders a signed number in decimal, with a leading minus when negative.
pub fn i64_to_string(n: i64) -> (r: String)
    ensures
        r@ == dec_of_signed(n as int),
{
    if n >= 0 {
        u64_to_string(n as u64)
    } else {
        let magnitude: u64 = if n == i64::MIN {
            9223372036854775808u64
        } else {
            (-n) as u64
        };
        let mut r = String::from_str("-");
        let digits = u64_to_string(magnitude);
        r.append(digits.as_str());
        proof {
            reveal_strlit("-");
            assert(r@ =~= dec_of_signed(n as int));
        }
        r
    }
}

/// Appending digit sequences appends their contribution to the value.
pub proof fn lemma_dec_val_push(s: Seq<char>, c: char)
    ensures
        dec_val(s.push(c)) == dec_val(s) * 10 + digit_val(c),
{
    assert(s.push(c).drop_last() =~= s);
    assert(s.push(c).last() == c);
}

/// A digit sequence is worth at least its prefix: more digits never
/// shrink the value when all digits are non-negative.
pub proof fn lemma_dec_val_prefix(s: Seq<char>, i: int)
    requires
        0 <= i <= s.len(),
        all_digits(s),
    ensures
        dec_val(s.subrange(0, i)) <= dec_val(s),
        dec_val(s) >= 0,
    decreases s.len() - i,
{
    if i == s.len() {
        assert(s.subrange(0, i) =~= s);
        lemma_dec_val_nonneg(s);
    } else {
        let t = s.subrange(0, i + 1);
        assert(t.drop_last() =~= s.subrange(0, i));
        lemma_dec_val_nonneg(s.subrange(0, i));
        assert(dec_val(t) == dec_val(s.subrange(0, i)) * 10 + digit_val(t.last()));
        lemma_dec_val_prefix(s, i + 1);
    }
}

/// The value of a digit sequence is non-negative.
pub proof fn lemma_dec_val_nonneg(s: Seq<char>)
    requires
        all_digits(s),
    ensures
        dec_val(s) >= 0,
    decreases s.len(),
{
    if s.len() > 0 {
        assert(all_digits(s.drop_last()));
        lemma_dec_val_nonneg(s.drop_last());
    }
}

/// Appends the decimal digits of a value to a character vector.
pub fn push_decimal(out: &mut Vec<char>, v: u64)
    ensures
        final(out)@ == old(out)@ + dec_of(v as int),
{
    let text = u64_to_string(v);
    let mut digits = str_to_chars(text.as_str());
    out.append(&mut digits);
}

/// Appends a value as at least two digits, zero padded.
pub fn push_pad2(out: &mut Vec<char>, v: u64)
    ensures
        final(out)@ == old(out)@ + dec_pad2(v as int),
{
    if v < 10 {
        out.push('0');
    }
    push_decimal(out, v);
    proof {
        assert(out@ =~= old(out)@ + dec_pad2(v as int));
    }
}

/// Builds a string from a vector of characters.
pub fn chars_to_string(v: &Vec<char>) -> (r: String)
    ensures
        r@ == v@,
{
    let mut r = String::new();
    let mut i: usize = 0;
    while i < v.len()
        invariant
            i <= v@.len(),
            r@ =~= v@.subrange(0, i as int),
        decreases v@.len() - i,
    {
        let one = char_to_string(v[i]);
        r.append(one.as_str());
        i = i + 1;
    }
    proof {
        assert(r@ =~= v@);
    }
    r
}

/// Copies a range of a character vector.
pub fn subrange_chars(v: &Vec<char>, from: usize, to: usize) -> (r: Vec<char>)
    requires
        from <= to <= v@.len(),
    ensures
        r@ == v@.subrange(from as int, to as int),
{
    let mut r: Vec<char> = Vec::new();
    let mut i: usize = from;
    while i < to
        invariant
            from <= i <= to <= v@.len(),
            r@ =~= v@.subrange(from as int, i as int),
        decreases to - i,
    {
        r.push(v[i]);
        proof {
            assert(r@ =~= v@.subrange(from as int, i as int + 1));
        }
        i = i + 1;
    }
    r
}

/// The decimal form of a number consists of digits and is never empty.
pub proof fn lemma_dec_of_digits(n: int)
    requires
        n >= 0,
    ensures
        all_digits(dec_of(n)),
        dec_of(n).len() >= 1,
    decreases n,
{
    if n < 10 {
        assert(is_digit(dec_digit(n)));
        assert(forall|i: int|
            0 <= i < dec_of(n).len() ==> is_digit(#[trigger] dec_of(n)[i]));
    } else {
        lemma_dec_of_digits(n / 10);
        assert(is_digit(dec_digit(n % 10)));
        assert(forall|i: int| 0 <= i < dec_of(n).len() ==> is_digit(#[trigger] dec_of(n)[i])) by {
            assert(forall|i: int|
                0 <= i < dec_of(n / 10).len() ==> is_digit(#[trigger] dec_of(n / 10)[i]));
            assert(dec_of(n) == dec_of(n / 10).push(dec_digit(n % 10)));
        }
    }
}

/// Reading back the decimal form of a number gives the number.
pub proof fn lemma_dec_val_of_dec_of(n: int)
    requires
        n >= 0,
    ensures
        dec_val(dec_of(n)) == n,
    decreases n,
{
    if n < 10 {
        assert(dec_of(n) == seq![dec_digit(n)]);
        assert(seq![dec_digit(n)].drop_last() =~= Seq::<char>::empty());
        assert(seq![dec_digit(n)].last() == dec_digit(n));
        assert(dec_val(Seq::<char>::empty()) == 0);
        assert(dec_val(seq![dec_digit(n)]) == digit_val(dec_digit(n)));
    } else {
        lemma_dec_val_of_dec_of(n / 10);
        lemma_dec_val_push(dec_of(n / 10), dec_digit(n % 10));
    }
}

/// A two-digit padded number holds exactly two digits that read back to
/// the number.
pub proof fn lemma_pad2_shape(n: int)
    requires
        0 <= n < 100,
    ensures
        dec_pad2(n).len() == 2,
        is_digit(dec_pad2(n)[0]),
        is_digit(dec_pad2(n)[1]),
        digit_val(dec_pad2(n)[0]) * 10 + digit_val(dec_pad2(n)[1]) == n,
{
    if n < 10 {
        assert(dec_of(n) == seq![dec_digit(n)]);
        assert(dec_pad2(n) =~= seq!['0', dec_digit(n)]);
    } else {
        assert(dec_of(n) == dec_of(n / 10).push(dec_digit(n % 10)));
        assert(dec_of(n / 10) == seq![dec_digit(n / 10)]);
        assert(dec_pad2(n) =~= seq![dec_digit(n / 10), dec_digit(n % 10)]);
    }
}

/// Converts a string slice to the vector of its characters.
pub fn str_to_chars(s: &str) -> (r: Vec<char>)
    ensures
        r@ == s@,
{
    let n = s.unicode_len();
    let mut r: Vec<char> = Vec::new();
    let mut i: usize = 0;
    while i < n
        invariant
            n == s@.len(),
            i <= n,
            r@ =~= s@.subrange(0, i as int),
        decreases n - i,
    {
        r.push(s.get_char(i));
        i = i + 1;
    }
    proof {
        assert(r@ =~= s@);
    }
    r
}

/// Whether the characters of a vector equal the characters of a string.
pub fn chars_eq_str(v: &Vec<char>, s: &str) -> (r: bool)
    ensures
        r == (v@ == s@),
{
    let n = s.unicode_len();
    if v.len() != n {
        proof {
            assert(v@ != s@) by {
                assert(v@.len() != s@.len());
            }
        }
        return false;
    }
    let mut i: usize = 0;
    while i < n
        invariant
            n == s@.len(),
            v@.len() == n,
            i <= n,
            forall|j: int| 0 <= j < i ==> v@[j] == s@[j],
        decreases n - i,
    {
        if v[i] != s.get_char(i) {
            return false;
        }
        i = i + 1;
    }
    proof {
        assert(v@ =~= s@);
    }
    true
}

/// Whether two string slices hold the same characters.
pub fn str_eq(a: &str, b: &str) -> (r: bool)
    ensures
        r == (a@ == b@),
{
    let n = a.unicode_len();
    if b.unicode_len() != n {
        proof {
            assert(a@ != b@) by {
                assert(a@.len() != b@.len());
            }
        }
        return false;
    }
    let mut i: usize = 0;
    while i < n
        invariant
            n == a@.len(),
            b@.len() == n,
            i <= n,
            forall|j: int| 0 <= j < i ==> a@[j] == b@[j],
        decreases n - i,
    {
        if a.get_char(i) != b.get_char(i) {
            return false;
        }
        i = i + 1;
    }
    proof {
        assert(a@ =~= b@);
    }
    true
}

} // verus!
