//! Text helpers: decimal rendering of integers and string comparison.

use vstd::prelude::*;
use vstd::string::*;

verus! {

/// The ASCII digit for a value below ten.
pub open spec fn digit_char(d: nat) -> char {
    if d == 0 {
        '0'
    } else if d == 1 {
        '1'
    } else if d == 2 {
        '2'
    } else if d == 3 {
        '3'
    } else if d == 4 {
        '4'
    } else if d == 5 {
        '5'
    } else if d == 6 {
        '6'
    } else if d == 7 {
        '7'
    } else if d == 8 {
        '8'
    } else {
        '9'
    }
}

/// Decimal rendering of a natural number, most significant digit first,
/// without leading zeros.
pub open spec fn decimal(n: nat) -> Seq<char>
    decreases n,
{
    if n < 10 {
        seq![digit_char(n)]
    } else {
        decimal(n / 10).push(digit_char(n % 10))
    }
}

/// Decimal rendering of an integer, with a leading `-` for negative values.
pub open spec fn signed_decimal(i: int) -> Seq<char> {
    if i < 0 {
        seq!['-'] + decimal((-i) as nat)
    } else {
        decimal(i as nat)
    }
}

/// Rendering of a boolean as `true` or `false`.
pub open spec fn bool_text(b: bool) -> Seq<char> {
    if b {
        seq!['t', 'r', 'u', 'e']
    } else {
        seq!['f', 'a', 'l', 's', 'e']
    }
}

/// The value of a digit character; zero for any other character.
pub open spec fn digit_value(c: char) -> nat {
    if c == '1' {
        1
    } else if c == '2' {
        2
    } else if c == '3' {
        3
    } else if c == '4' {
        4
    } else if c == '5' {
        5
    } else if c == '6' {
        6
    } else if c == '7' {
        7
    } else if c == '8' {
        8
    } else if c == '9' {
        9
    } else {
        0
    }
}

/// True for the characters `0` to `9`.
pub open spec fn is_digit(c: char) -> bool {
    '0' <= c <= '9'
}

/// Reading of decimal text as a natural number, most significant digit first.
pub open spec fn read_decimal(s: Seq<char>) -> Option<nat>
    decreases s.len(),
{
    if s.len() == 0 || !is_digit(s.last()) {
        None
    } else if s.len() == 1 {
        Some(digit_value(s[0]))
    } else {
        match read_decimal(s.drop_last()) {
            Some(v) => Some(v * 10 + digit_value(s.last())),
            None => None,
        }
    }
}

/// Reading of decimal text with an optional leading `-` as an integer.
pub open spec fn read_signed_decimal(s: Seq<char>) -> Option<int> {
    if s.len() > 0 && s[0] == '-' {
        match read_decimal(s.drop_first()) {
            Some(v) => Some(-v),
            None => None,
        }
    } else {
        match read_decimal(s) {
            Some(v) => Some(v as int),
            None => None,
        }
    }
}

/// Reading of `true` or `false` as a boolean.
pub open spec fn read_bool(s: Seq<char>) -> Option<bool> {
    if s == bool_text(true) {
        Some(true)
    } else if s == bool_text(false) {
        Some(false)
    } else {
        None
    }
}

proof fn lemma_digit_round_trip(d: nat)
    requires
        d < 10,
    ensures
        is_digit(digit_char(d)),
        digit_value(digit_char(d)) == d,
{
}

/// Decimal text reads back as the number it renders, and starts with a digit.
pub proof fn lemma_decimal_round_trip(n: nat)
    ensures
        read_decimal(decimal(n)) == Some(n),
        decimal(n).len() > 0,
        is_digit(decimal(n)[0]),
    decreases n,
{
    if n < 10 {
        lemma_digit_round_trip(n);
    } else {
        lemma_decimal_round_trip(n / 10);
        lemma_digit_round_trip(n % 10);
        let s = decimal(n);
        assert(s.drop_last() =~= decimal(n / 10));
        assert(s[0] == decimal(n / 10)[0]);
        assert((n / 10) * 10 + n % 10 == n) by (nonlinear_arith);
    }
}

/// Signed decimal text reads back as the integer it renders.
pub proof fn lemma_signed_decimal_round_trip(i: int)
    ensures
        read_signed_decimal(signed_decimal(i)) == Some(i),
{
    if i < 0 {
        lemma_decimal_round_trip((-i) as nat);
        assert(signed_decimal(i).drop_first() =~= decimal((-i) as nat));
    } else {
        lemma_decimal_round_trip(i as nat);
    }
}

/// The text of a boolean reads back as that boolean.
pub proof fn lemma_bool_round_trip(b: bool)
    ensures
        read_bool(bool_text(b)) == Some(b),
{
    assert(bool_text(true) != bool_text(false)) by {
        assert(bool_text(true).len() != bool_text(false).len());
    }
}

/// Appends one character to a string (`String::push`).
#[verifier::external_body]
pub(crate) fn push_char(s: &mut String, c: char)
    ensures
        final(s)@ == old(s)@.push(c),
{
    s.push(c);
}

fn digit_of(d: u64) -> (c: char)
    requires
        d < 10,
    ensures
        c == digit_char(d as nat),
{
    if d == 0 {
        '0'
    } else if d == 1 {
        '1'
    } else if d == 2 {
        '2'
    } else if d == 3 {
        '3'
    } else if d == 4 {
        '4'
    } else if d == 5 {
        '5'
    } else if d == 6 {
        '6'
    } else if d == 7 {
        '7'
    } else if d == 8 {
        '8'
    } else {
        '9'
    }
}

/// Appends the decimal digits of `n` to `s`.
pub fn push_decimal(s: &mut String, n: u64)
    ensures
        final(s)@ == old(s)@ + decimal(n as nat),
    decreases n,
{
    if n >= 10 {
        push_decimal(s, n / 10);
        push_char(s, digit_of(n % 10));
        assert(s@ =~= old(s)@ + decimal(n as nat));
    } else {
        push_char(s, digit_of(n));
        assert(s@ =~= old(s)@ + decimal(n as nat));
    }
}

/// Renders an unsigned integer in decimal.
pub fn u64_to_text(n: u64) -> (r: String)
    ensures
        r@ == decimal(n as nat),
{
    let mut s = String::new();
    push_decimal(&mut s, n);
    assert(s@ =~= decimal(n as nat));
    s
}

/// Renders a signed integer in decimal, with a leading `-` when negative.
pub fn i64_to_text(i: i64) -> (r: String)
    ensures
        r@ == signed_decimal(i as int),
{
    let mut s = String::new();
    if i < 0 {
        push_char(&mut s, '-');
        let magnitude: u64 = if i == i64::MIN {
            (i64::MAX as u64) + 1
        } else {
            (-i) as u64
        };
        push_decimal(&mut s, magnitude);
        assert(s@ =~= signed_decimal(i as int));
    } else {
        push_decimal(&mut s, i as u64);
        assert(s@ =~= signed_decimal(i as int));
    }
    s
}

/// Renders a boolean as `true` or `false`.
pub fn bool_to_text(b: bool) -> (r: String)
    ensures
        r@ == bool_text(b),
{
    let mut s = String::new();
    if b {
        push_char(&mut s, 't');
        push_char(&mut s, 'r');
        push_char(&mut s, 'u');
        push_char(&mut s, 'e');
    } else {
        push_char(&mut s, 'f');
        push_char(&mut s, 'a');
        push_char(&mut s, 'l');
        push_char(&mut s, 's');
        push_char(&mut s, 'e');
    }
    assert(s@ =~= bool_text(b));
    s
}

/// Character-wise equality of two strings.
pub fn str_equal(a: &str, b: &str) -> (r: bool)
    ensures
        r == (a@ == b@),
{
    let n = a.unicode_len();
    if n != b.unicode_len() {
        return false;
    }
    let mut i: usize = 0;
    while i < n
        invariant
            n == a@.len(),
            n == b@.len(),
            i <= n,
            forall|j: int| 0 <= j < i ==> a@[j] == b@[j],
        decreases n - i,
    {
        if a.get_char(i) != b.get_char(i) {
            return false;
        }
        i = i + 1;
    }
    assert(a@ =~= b@);
    true
}

/// Text view of an optional string.
pub open spec fn opt_text(o: Option<String>) -> Option<Seq<char>> {
    match o {
        Some(s) => Some(s@),
        None => None,
    }
}

/// Borrows the string inside an option.
pub fn opt_str(o: &Option<String>) -> (r: Option<&str>)
    ensures
        r is None <==> o is None,
        r matches Some(s) ==> opt_text(*o) == Some(s@),
{
    match o {
        Some(s) => Some(s.as_str()),
        None => None,
    }
}

/// Copies a string slice into an owned string.
pub fn owned(s: &str) -> (r: String)
    ensures
        r@ == s@,
{
    s.to_owned()
}

} // verus!
