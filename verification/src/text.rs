//! Decimal text: the textual form in which 64-bit integers travel, and the
//! small string helpers that error messages are built from.

use vstd::prelude::*;
use vstd::string::*;

verus! {

/// Whether `c` is one of the ten ASCII decimal digits.
pub open spec fn is_digit(c: char) -> bool {
    '0' <= c && c <= '9'
}

/// The number that the ASCII digit `c` stands for.
pub open spec fn digit_value(c: char) -> int {
    (c as int) - ('0' as int)
}

/// The ASCII digit that stands for `d`, for `0 <= d <= 9`.
pub open spec fn digit_char(d: int) -> char {
    if d == 0 {
        '0'
    } else if d == 1 {
        '1'
    } else if d == 2 {
        '2'
    } else if d == 3 {
        '3'
    } else if d == 4 {
        '4'
    } else if d == 5 {
        '5'
    } else if d == 6 {
        '6'
    } else if d == 7 {
        '7'
    } else if d == 8 {
        '8'
    } else {
        '9'
    }
}

/// Whether every character of `s` is an ASCII decimal digit.
pub open spec fn all_digits(s: Seq<char>) -> bool {
    forall|i: int| 0 <= i < s.len() ==> is_digit(#[trigger] s[i])
}

/// The number written by the digit string `s`, most significant digit first.
/// The empty string counts as zero.
pub open spec fn decimal_value(s: Seq<char>) -> int
    decreases s.len(),
{
    if s.len() == 0 {
        0
    } else {
        decimal_value(s.drop_last()) * 10 + digit_value(s.last())
    }
}

/// The shortest digit string that writes the natural number `n`.
pub open spec fn nat_text(n: nat) -> Seq<char>
    decreases n,
{
    if n < 10 {
        seq![digit_char(n as int)]
    } else {
        nat_text(n / 10).push(digit_char((n % 10) as int))
    }
}

/// The decimal text of an integer: a minus sign for negative numbers, then
/// the digits of the magnitude without leading zeros.
pub open spec fn int_text(v: int) -> Seq<char> {
    if v < 0 {
        seq!['-'] + nat_text((-v) as nat)
    } else {
        nat_text(v as nat)
    }
}

/// The digits of a signed decimal literal: the text without its leading
/// `+` or `-`, if it has one.
pub open spec fn unsigned_part(s: Seq<char>) -> Seq<char> {
    if s.len() > 0 && (s[0] == '-' || s[0] == '+') {
        s.subrange(1, s.len() as int)
    } else {
        s
    }
}

/// Whether a signed decimal literal starts with a minus sign.
pub open spec fn has_minus(s: Seq<char>) -> bool {
    s.len() > 0 && s[0] == '-'
}

/// The integer that a signed decimal literal denotes, whatever its size:
/// an optional `+` or `-`, then one or more ASCII digits and nothing else.
pub open spec fn parse_int_spec(s: Seq<char>) -> Option<int> {
    let digits = unsigned_part(s);
    if digits.len() == 0 || !all_digits(digits) {
        None
    } else if has_minus(s) {
        Some(-decimal_value(digits))
    } else {
        Some(decimal_value(digits))
    }
}

/// The 64-bit signed integer that a decimal literal denotes; `None` where
/// the text is no literal or the number does not fit.
pub open spec fn parse_i64_spec(s: Seq<char>) -> Option<i64> {
    match parse_int_spec(s) {
        Some(v) => if i64::MIN <= v <= i64::MAX {
            Some(v as i64)
        } else {
            None
        },
        None => None,
    }
}

/// Appending one digit multiplies the value by ten and adds the digit.
pub proof fn lemma_decimal_value_push(s: Seq<char>, c: char)
    ensures
        decimal_value(s.push(c)) == decimal_value(s) * 10 + digit_value(c),
{
    assert(s.push(c).drop_last() =~= s);
    assert(s.push(c).last() == c);
}

/// A digit string never denotes a negative number.
pub proof fn lemma_decimal_value_nonnegative(s: Seq<char>)
    requires
        all_digits(s),
    ensures
        0 <= decimal_value(s),
    decreases s.len(),
{
    if s.len() > 0 {
        assert forall|i: int| 0 <= i < s.drop_last().len() implies is_digit(
            #[trigger] s.drop_last()[i],
        ) by {
            assert(s.drop_last()[i] == s[i]);
        }
        lemma_decimal_value_nonnegative(s.drop_last());
        assert(is_digit(s.last()));
    }
}

/// `nat_text` writes digits only, at least one of them, and they denote the
/// number that was written.
pub proof fn lemma_nat_text(n: nat)
    ensures
        nat_text(n).len() > 0,
        all_digits(nat_text(n)),
        decimal_value(nat_text(n)) == n,
    decreases n,
{
    if n < 10 {
        let s = nat_text(n);
        assert(s.len() == 1);
        assert(s[0] == digit_char(n as int));
        assert(s.drop_last().len() == 0);
        assert(decimal_value(s.drop_last()) == 0);
        assert(s.last() == s[0]);
    } else {
        lemma_nat_text(n / 10);
        let head = nat_text(n / 10);
        let c = digit_char((n % 10) as int);
        lemma_decimal_value_push(head, c);
        assert forall|i: int| 0 <= i < head.push(c).len() implies is_digit(
            #[trigger] head.push(c)[i],
        ) by {
            if i < head.len() {
                assert(head.push(c)[i] == head[i]);
            }
        }
    }
}

/// Reading back the decimal text of a 64-bit integer gives that integer.
pub proof fn lemma_i64_text_round_trip(v: i64)
    ensures
        parse_i64_spec(int_text(v as int)) == Some(v),
{
    let s = int_text(v as int);
    if v < 0 {
        let m = (-(v as int)) as nat;
        lemma_nat_text(m);
        assert(s[0] == '-');
        assert(unsigned_part(s) =~= nat_text(m));
    } else {
        let m = (v as int) as nat;
        lemma_nat_text(m);
        assert(s == nat_text(m));
        assert(is_digit(s[0]));
        assert(unsigned_part(s) == s);
    }
}

fn digit_of(c: char) -> (r: Option<u8>)
    ensures
        is_digit(c) ==> r == Some(digit_value(c) as u8),
        !is_digit(c) ==> r is None,
{
    if c == '0' {
        Some(0)
    } else if c == '1' {
        Some(1)
    } else if c == '2' {
        Some(2)
    } else if c == '3' {
        Some(3)
    } else if c == '4' {
        Some(4)
    } else if c == '5' {
        Some(5)
    } else if c == '6' {
        Some(6)
    } else if c == '7' {
        Some(7)
    } else if c == '8' {
        Some(8)
    } else if c == '9' {
        Some(9)
    } else {
        None
    }
}

fn digit_text(d: u64) -> (r: &'static str)
    requires
        d < 10,
    ensures
        r@ == seq![digit_char(d as int)],
{
    proof {
        reveal_strlit("0");
        reveal_strlit("1");
        reveal_strlit("2");
        reveal_strlit("3");
        reveal_strlit("4");
        reveal_strlit("5");
        reveal_strlit("6");
        reveal_strlit("7");
        reveal_strlit("8");
        reveal_strlit("9");
    }
    let r = if d == 0 {
        "0"
    } else if d == 1 {
        "1"
    } else if d == 2 {
        "2"
    } else if d == 3 {
        "3"
    } else if d == 4 {
        "4"
    } else if d == 5 {
        "5"
    } else if d == 6 {
        "6"
    } else if d == 7 {
        "7"
    } else if d == 8 {
        "8"
    } else {
        "9"
    };
    assert(r@ =~= seq![digit_char(d as int)]);
    r
}

/// Writes a natural number in decimal, without leading zeros.
pub fn format_u64(n: u64) -> (r: String)
    ensures
        r@ == nat_text(n as nat),
    decreases n,
{
    if n < 10 {
        String::from_str(digit_text(n))
    } else {
        let mut r = format_u64(n / 10);
        r.append(digit_text(n % 10));
        assert(r@ =~= nat_text((n / 10) as nat).push(digit_char((n % 10) as int)));
        r
    }
}

/// Writes a 64-bit signed integer in decimal.
pub fn format_i64(v: i64) -> (r: String)
    ensures
        r@ == int_text(v as int),
{
    if v < 0 {
        let magnitude: u64 = if v == i64::MIN {
            9223372036854775808u64
        } else {
            (-v) as u64
        };
        proof {
            reveal_strlit("-");
        }
        let mut r = String::from_str("-");
        let digits = format_u64(magnitude);
        r.append(digits.as_str());
        assert(r@ =~= seq!['-'] + nat_text((-(v as int)) as nat));
        r
    } else {
        format_u64(v as u64)
    }
}

/// Reads a 64-bit signed integer from its decimal text: an optional `+` or
/// `-`, then one or more ASCII digits. Anything else, and any number outside
/// the 64-bit range, gives `None`.
pub fn parse_i64(s: &str) -> (r: Option<i64>)
    ensures
        r == parse_i64_spec(s@),
{
    let ghost text = s@;
    let ghost digits = unsigned_part(text);
    let ghost skip: int = text.len() - digits.len();
    let mut negative = false;
    let mut seen: usize = 0;
    let mut magnitude: u64 = 0;
    let mut too_large = false;
    let mut first = true;
    for c in it: s.chars()
        invariant
            text == s@,
            it.seq() == text,
            digits == unsigned_part(text),
            skip == text.len() - digits.len(),
            first <==> it.index() == 0,
            negative == (it.index() > 0 && has_minus(text)),
            it.index() <= skip ==> seen == 0,
            it.index() > skip ==> seen > 0,
            it.index() >= skip ==> it.index() - skip <= digits.len(),
            it.index() >= skip ==> all_digits(digits.subrange(0, it.index() - skip)),
            it.index() >= skip && !too_large ==> magnitude == decimal_value(
                digits.subrange(0, it.index() - skip),
            ),
            it.index() >= skip && too_large ==> decimal_value(
                digits.subrange(0, it.index() - skip),
            ) > 9223372036854775808,
            it.index() < skip ==> magnitude == 0 && !too_large,
            magnitude <= 9223372036854775808,
    {
        let ghost k: int = it.index() - skip;
        if first && (c == '-' || c == '+') {
            negative = c == '-';
            first = false;
            assert(skip == 1);
            assert(digits.subrange(0, 0) =~= Seq::<char>::empty());
        } else {
            first = false;
            assert(it.index() >= skip);
            assert(digits[k] == c);
            match digit_of(c) {
                None => {
                    assert(0 <= k < digits.len() && !is_digit(digits[k]));
                    assert(!all_digits(digits));
                    return None;
                },
                Some(d) => {
                    let ghost before = digits.subrange(0, k);
                    let ghost after = digits.subrange(0, k + 1);
                    proof {
                        assert(after =~= before.push(c));
                        lemma_decimal_value_push(before, c);
                        lemma_decimal_value_nonnegative(before);
                        assert forall|i: int| 0 <= i < after.len() implies is_digit(
                            #[trigger] after[i],
                        ) by {
                            if i < k {
                                assert(after[i] == before[i]);
                            }
                        }
                    }
                    if seen < 1 {
                        seen = 1;
                    }
                    if too_large || magnitude > 922337203685477580 {
                        too_large = true;
                        magnitude = 0;
                    } else {
                        let next: u64 = magnitude * 10 + (d as u64);
                        if next > 9223372036854775808 {
                            too_large = true;
                            magnitude = 0;
                        } else {
                            magnitude = next;
                        }
                    }
                },
            }
        }
    }
    if seen == 0 {
        return None;
    }
    assert(digits.subrange(0, digits.len() as int) =~= digits);
    if too_large {
        None
    } else if negative {
        if magnitude == 9223372036854775808 {
            Some(i64::MIN)
        } else {
            Some(-(magnitude as i64))
        }
    } else if magnitude > 9223372036854775807 {
        None
    } else {
        Some(magnitude as i64)
    }
}

/// Whether two strings hold the same text.
pub fn str_eq(a: &str, b: &str) -> (r: bool)
    ensures
        r == (a@ == b@),
{
    let x = a.as_bytes();
    let y = b.as_bytes();
    proof {
        vstd::utf8::encode_utf8_decode_utf8(a@);
        vstd::utf8::encode_utf8_decode_utf8(b@);
    }
    if x.len() != y.len() {
        return false;
    }
    let mut i: usize = 0;
    while i < x.len()
        invariant
            i <= x.len(),
            x.len() == y.len(),
            x@ == a.spec_bytes(),
            y@ == b.spec_bytes(),
            forall|j: int| 0 <= j < i ==> x@[j] == y@[j],
        decreases x.len() - i,
    {
        if x[i] != y[i] {
            return false;
        }
        i = i + 1;
    }
    assert(x@ =~= y@);
    true
}

/// The text `head` followed by the text `tail`.
pub fn joined(head: &str, tail: &str) -> (r: String)
    ensures
        r@ == head@ + tail@,
{
    let mut r = String::from_str(head);
    r.append(tail);
    r
}

} // verus!
