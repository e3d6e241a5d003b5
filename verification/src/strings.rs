//! Fixed-width text: padding, clipping and decimal numbers, as the menus and
//! status lines lay them out.
use vstd::prelude::*;
use vstd::string::*;

verus! {

broadcast use vstd::string::group_string_axioms;

/// `n` blanks.
pub open spec fn spaces(n: nat) -> Seq<char> {
    Seq::new(n, |i: int| ' ')
}

/// `s` cut down to its first `max` characters.
pub open spec fn clipped(s: Seq<char>, max: nat) -> Seq<char> {
    if s.len() > max {
        s.take(max as int)
    } else {
        s
    }
}

/// `s` filled up with blanks on the right to `width` characters.
pub open spec fn pad_right(s: Seq<char>, width: nat) -> Seq<char> {
    if s.len() < width {
        s + spaces((width - s.len()) as nat)
    } else {
        s
    }
}

/// `s` filled up with blanks on the left to `width` characters.
pub open spec fn pad_left(s: Seq<char>, width: nat) -> Seq<char> {
    if s.len() < width {
        spaces((width - s.len()) as nat) + s
    } else {
        s
    }
}

/// `s` filled up with blanks on both sides to `width` characters; the odd
/// blank goes to the right.
pub open spec fn centered(s: Seq<char>, width: nat) -> Seq<char> {
    if s.len() < width {
        let left = ((width - s.len()) / 2) as nat;
        let right = (width - s.len() - left) as nat;
        spaces(left) + s + spaces(right)
    } else {
        s
    }
}

/// The character of a decimal digit.
pub open spec fn digit(d: nat) -> char
    recommends
        d < 10,
{
    if d == 0 {
        '0'
    } else if d == 1 {
        '1'
    } else if d == 2 {
        '2'
    } else if d == 3 {
        '3'
    } else if d == 4 {
        '4'
    } else if d == 5 {
        '5'
    } else if d == 6 {
        '6'
    } else if d == 7 {
        '7'
    } else if d == 8 {
        '8'
    } else {
        '9'
    }
}

/// The decimal digits of a natural number, without leading zeros.
pub open spec fn digits(n: nat) -> Seq<char>
    decreases n,
{
    if n < 10 {
        seq![digit(n)]
    } else {
        digits(n / 10).push(digit(n % 10))
    }
}

/// A whole number in decimal, with a minus sign where it is negative.
pub open spec fn decimal(n: int) -> Seq<char> {
    if n < 0 {
        seq!['-'] + digits((-n) as nat)
    } else {
        digits(n as nat)
    }
}

/// A whole number in decimal with its sign, a plus where it is not negative.
pub open spec fn signed_decimal(n: int) -> Seq<char> {
    if n < 0 {
        decimal(n)
    } else {
        seq!['+'] + digits(n as nat)
    }
}

/// The word for a truth value.
pub open spec fn truth(b: bool) -> Seq<char> {
    if b {
        "true"@
    } else {
        "false"@
    }
}

/// Whether two strings hold the same characters.
pub fn str_eq(a: &str, b: &str) -> (r: bool)
    ensures
        r == (a@ == b@),
{
    let a = a.to_owned();
    let b = b.to_owned();
    a == b
}

/// The string made of the given characters: `String::from_iter`.
#[verifier::external_body]
pub(crate) fn string_from_chars(chars: &Vec<char>) -> (s: String)
    ensures
        s@ == chars@,
{
    String::from_iter(chars)
}

/// The characters of a string.
pub fn chars_of(s: &str) -> (chars: Vec<char>)
    ensures
        chars@ == s@,
{
    let mut chars: Vec<char> = Vec::new();
    push_str(&mut chars, s);
    chars
}

/// Appends the characters of `s`.
pub fn push_str(out: &mut Vec<char>, s: &str)
    ensures
        final(out)@ == old(out)@ + s@,
{
    let ghost before = out@;
    for c in iter: s.chars()
        invariant
            iter.seq() == s@,
            out@ == before + s@.take(iter.index() as int),
    {
        out.push(c);
        assert(s@.take(iter.index() + 1) == s@.take(iter.index() as int).push(c));
    }
    assert(s@.take(s@.len() as int) == s@);
}

/// Appends `n` blanks.
pub fn push_spaces(out: &mut Vec<char>, n: usize)
    ensures
        final(out)@ == old(out)@ + spaces(n as nat),
{
    let ghost before = out@;
    let mut i: usize = 0;
    while i < n
        invariant
            i <= n,
            out@ == before + spaces(i as nat),
        decreases n - i,
    {
        out.push(' ');
        i = i + 1;
        assert(out@ == before + spaces(i as nat));
    }
}

/// Appends all of `part`.
pub fn push_chars(out: &mut Vec<char>, part: &Vec<char>)
    ensures
        final(out)@ == old(out)@ + part@,
{
    let ghost before = out@;
    let mut i: usize = 0;
    while i < part.len()
        invariant
            i <= part.len(),
            out@ == before + part@.take(i as int),
        decreases part.len() - i,
    {
        out.push(part[i]);
        i = i + 1;
        assert(part@.take(i as int) == part@.take(i - 1).push(part@[i - 1]));
    }
    assert(part@.take(part@.len() as int) == part@);
}

/// Appends the first `max` characters of `part`, or all of it where it has fewer.
pub fn push_clipped(out: &mut Vec<char>, part: &Vec<char>, max: usize)
    ensures
        final(out)@ == old(out)@ + clipped(part@, max as nat),
{
    let ghost before = out@;
    let end = if part.len() > max {
        max
    } else {
        part.len()
    };
    let mut i: usize = 0;
    while i < end
        invariant
            i <= end <= part.len(),
            out@ == before + part@.take(i as int),
        decreases end - i,
    {
        out.push(part[i]);
        i = i + 1;
        assert(part@.take(i as int) == part@.take(i - 1).push(part@[i - 1]));
    }
    assert(part@.take(part@.len() as int) == part@);
}

/// Appends `part` clipped to `max` characters and then filled up with
/// blanks on the right to `width` characters.
pub fn push_left_aligned(out: &mut Vec<char>, part: &Vec<char>, width: usize, max: usize)
    ensures
        final(out)@ == old(out)@ + pad_right(clipped(part@, max as nat), width as nat),
{
    let ghost before = out@;
    push_clipped(out, part, max);
    let len = if part.len() > max {
        max
    } else {
        part.len()
    };
    if len < width {
        push_spaces(out, width - len);
        assert(out@ == before + (clipped(part@, max as nat) + spaces((width - len) as nat)));
    }
}

/// Appends `part` filled up with blanks on the left to `width` characters.
pub fn push_right_aligned(out: &mut Vec<char>, part: &Vec<char>, width: usize)
    ensures
        final(out)@ == old(out)@ + pad_left(part@, width as nat),
{
    let ghost before = out@;
    if part.len() < width {
        push_spaces(out, width - part.len());
    }
    push_chars(out, part);
    if part.len() < width {
        assert(out@ == before + (spaces((width - part.len()) as nat) + part@));
    }
}

/// Appends `part` filled up with blanks on both sides to `width` characters.
pub fn push_centered(out: &mut Vec<char>, part: &Vec<char>, width: usize)
    ensures
        final(out)@ == old(out)@ + centered(part@, width as nat),
{
    let ghost before = out@;
    if part.len() < width {
        let left = (width - part.len()) / 2;
        let right = width - part.len() - left;
        push_spaces(out, left);
        push_chars(out, part);
        push_spaces(out, right);
        assert(out@ == before + (spaces(left as nat) + part@ + spaces(right as nat)));
    } else {
        push_chars(out, part);
    }
}

fn digit_char(d: u64) -> (c: char)
    requires
        d < 10,
    ensures
        c == digit(d as nat),
{
    if d == 0 {
        '0'
    } else if d == 1 {
        '1'
    } else if d == 2 {
        '2'
    } else if d == 3 {
        '3'
    } else if d == 4 {
        '4'
    } else if d == 5 {
        '5'
    } else if d == 6 {
        '6'
    } else if d == 7 {
        '7'
    } else if d == 8 {
        '8'
    } else {
        '9'
    }
}

/// The decimal digits of `n`.
pub fn digits_of(n: u64) -> (chars: Vec<char>)
    ensures
        chars@ == digits(n as nat),
    decreases n,
{
    if n < 10 {
        let mut chars: Vec<char> = Vec::new();
        chars.push(digit_char(n));
        chars
    } else {
        let mut chars = digits_of(n / 10);
        chars.push(digit_char(n % 10));
        chars
    }
}

/// `n` in decimal.
pub fn decimal_of(n: i64) -> (chars: Vec<char>)
    ensures
        chars@ == decimal(n as int),
{
    if n < 0 {
        let magnitude: u64 = if n == i64::MIN {
            0x8000_0000_0000_0000
        } else {
            (-n) as u64
        };
        let mut chars: Vec<char> = Vec::new();
        chars.push('-');
        let tail = digits_of(magnitude);
        push_chars(&mut chars, &tail);
        chars
    } else {
        digits_of(n as u64)
    }
}

/// `n` in decimal, with a plus sign where it is not negative.
pub fn signed_decimal_of(n: i64) -> (chars: Vec<char>)
    ensures
        chars@ == signed_decimal(n as int),
{
    if n < 0 {
        decimal_of(n)
    } else {
        let mut chars: Vec<char> = Vec::new();
        chars.push('+');
        let tail = digits_of(n as u64);
        push_chars(&mut chars, &tail);
        chars
    }
}

/// Appends `n` in decimal.
pub fn push_decimal(out: &mut Vec<char>, n: i64)
    ensures
        final(out)@ == old(out)@ + decimal(n as int),
{
    let number = decimal_of(n);
    push_chars(out, &number);
}

/// Appends `n` in decimal, filled up with blanks on the left to `width` characters.
pub fn push_decimal_right_aligned(out: &mut Vec<char>, n: i64, width: usize)
    ensures
        final(out)@ == old(out)@ + pad_left(decimal(n as int), width as nat),
{
    let number = decimal_of(n);
    push_right_aligned(out, &number, width);
}

/// Appends the word for a truth value.
pub fn push_truth(out: &mut Vec<char>, b: bool)
    ensures
        final(out)@ == old(out)@ + truth(b),
{
    if b {
        push_str(out, "true");
    } else {
        push_str(out, "false");
    }
}

/// A number has at least one digit, and a padded text is at least as wide
/// as asked for.
pub proof fn lemma_widths(s: Seq<char>, width: nat, max: nat, n: nat)
    ensures
        digits(n).len() >= 1,
        pad_left(s, width).len() == if s.len() < width { width } else { s.len() },
        pad_right(s, width).len() == if s.len() < width { width } else { s.len() },
        centered(s, width).len() == if s.len() < width { width } else { s.len() },
        clipped(s, max).len() == if s.len() > max { max } else { s.len() },
    decreases n,
{
    if n >= 10 {
        lemma_widths(s, width, max, n / 10);
    }
}

} // verus!
