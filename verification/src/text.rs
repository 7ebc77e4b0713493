//! Plain text of integers and booleans, as `{}` prints them.

use vstd::prelude::*;

verus! {

/// The character that stands for the digit `d`, for `0 <= d < 10`.
pub open spec fn digit_char(d: int) -> char {
    if d == 0 {
        '0'
    } else if d == 1 {
        '1'
    } else if d == 2 {
        '2'
    } else if d == 3 {
        '3'
    } else if d == 4 {
        '4'
    } else if d == 5 {
        '5'
    } else if d == 6 {
        '6'
    } else if d == 7 {
        '7'
    } else if d == 8 {
        '8'
    } else {
        '9'
    }
}

/// The digits of `n` in base ten, most significant first, without leading
/// zeros; zero is the single digit `0`.
pub open spec fn natural_text(n: nat) -> Seq<char>
    decreases n,
{
    if n < 10 {
        seq![digit_char(n as int)]
    } else {
        natural_text(n / 10).push(digit_char((n % 10) as int))
    }
}

/// The decimal text of `i`: a minus sign before the digits of a negative
/// number, no sign otherwise.
pub open spec fn integer_text(i: int) -> Seq<char> {
    if i < 0 {
        seq!['-'] + natural_text((-i) as nat)
    } else {
        natural_text(i as nat)
    }
}

/// The number that a text of digits writes in base ten; the empty text
/// writes zero.
pub open spec fn digits_value(digits: Seq<char>) -> int
    decreases digits.len(),
{
    if digits.len() == 0 {
        0
    } else {
        10 * digits_value(digits.drop_last()) + (digits.last() as int - '0' as int)
    }
}

/// The text of a boolean: `true` or `false`.
pub open spec fn bool_text(b: bool) -> Seq<char> {
    if b {
        "true"@
    } else {
        "false"@
    }
}

/// The text of a natural number is its numeral in base ten: at least one
/// character, each of them a digit, a zero in front only for zero itself, and
/// read back in base ten it gives the number.
pub proof fn natural_text_is_numeral(n: nat)
    ensures
        natural_text(n).len() >= 1,
        forall|k: int|
            0 <= k < natural_text(n).len() ==> '0' <= #[trigger] natural_text(n)[k] <= '9',
        n > 0 ==> natural_text(n)[0] != '0',
        digits_value(natural_text(n)) == n,
    decreases n,
{
    let last = digit_char((n % 10) as int);
    assert(last as int - '0' as int == n % 10);
    assert(natural_text(n).last() == last);
    if n < 10 {
        assert(natural_text(n).drop_last() =~= Seq::<char>::empty());
        assert(digits_value(Seq::<char>::empty()) == 0);
    } else {
        natural_text_is_numeral(n / 10);
        assert(natural_text(n).drop_last() =~= natural_text(n / 10));
        assert(natural_text(n)[0] == natural_text(n / 10)[0]);
    }
}

/// Two integers with the same decimal text are the same integer.
pub proof fn integer_text_is_injective(i: int, j: int)
    requires
        integer_text(i) == integer_text(j),
    ensures
        i == j,
{
    let a = if i < 0 { (-i) as nat } else { i as nat };
    let b = if j < 0 { (-j) as nat } else { j as nat };
    natural_text_is_numeral(a);
    natural_text_is_numeral(b);
    // The first character tells the sign: a minus sign is no digit.
    assert(integer_text(i)[0] == '-' <==> i < 0);
    assert(integer_text(j)[0] == '-' <==> j < 0);
    if i < 0 {
        // Without the sign the two texts are the numerals of the magnitudes.
        assert(natural_text(a) =~= integer_text(i).subrange(1, integer_text(i).len() as int));
        assert(natural_text(b) =~= integer_text(j).subrange(1, integer_text(j).len() as int));
    }
}

/// The one-character text of a single digit.
fn digit_str(d: u64) -> (text: &'static str)
    requires
        d < 10,
    ensures
        text@ == seq![digit_char(d as int)],
{
    proof {
        reveal_strlit("0");
        reveal_strlit("1");
        reveal_strlit("2");
        reveal_strlit("3");
        reveal_strlit("4");
        reveal_strlit("5");
        reveal_strlit("6");
        reveal_strlit("7");
        reveal_strlit("8");
        reveal_strlit("9");
    }
    if d == 0 {
        "0"
    } else if d == 1 {
        "1"
    } else if d == 2 {
        "2"
    } else if d == 3 {
        "3"
    } else if d == 4 {
        "4"
    } else if d == 5 {
        "5"
    } else if d == 6 {
        "6"
    } else if d == 7 {
        "7"
    } else if d == 8 {
        "8"
    } else {
        "9"
    }
}

/// Appends the digits of `n` to `out`.
fn push_natural(out: &mut String, n: u64)
    ensures
        final(out)@ == old(out)@ + natural_text(n as nat),
    decreases n,
{
    if n >= 10 {
        push_natural(out, n / 10);
    }
    out.append(digit_str(n % 10));
}

/// Appends the decimal text of `i` to `out`.
pub fn push_integer(out: &mut String, i: i64)
    ensures
        final(out)@ == old(out)@ + integer_text(i as int),
{
    if i < 0 {
        out.append("-");
        proof {
            reveal_strlit("-");
        }
        // `-i` does not fit for the least `i64`; its magnitude as `u64` does.
        let magnitude: u64 = (-(i + 1)) as u64 + 1;
        push_natural(out, magnitude);
    } else {
        push_natural(out, i as u64);
    }
}

/// The decimal text of `i` as an owned string.
pub fn integer_to_string(i: i64) -> (text: String)
    ensures
        text@ == integer_text(i as int),
{
    let mut text = String::new();
    push_integer(&mut text, i);
    text
}

/// The text of `b` as a string slice.
pub fn bool_str(b: bool) -> (text: &'static str)
    ensures
        text@ == bool_text(b),
{
    if b {
        "true"
    } else {
        "false"
    }
}

} // verus!
