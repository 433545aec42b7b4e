use vstd::prelude::*;
use vstd::string::*;

verus! {

/// The character of a decimal digit.
pub open spec fn digit_char(d: nat) -> char {
    if d == 0 {
        '0'
    } else if d == 1 {
        '1'
    } else if d == 2 {
        '2'
    } else if d == 3 {
        '3'
    } else if d == 4 {
        '4'
    } else if d == 5 {
        '5'
    } else if d == 6 {
        '6'
    } else if d == 7 {
        '7'
    } else if d == 8 {
        '8'
    } else {
        '9'
    }
}

/// The decimal digits of `n`, most significant first, with no leading zero.
pub open spec fn decimal(n: nat) -> Seq<char>
    decreases n,
{
    if n < 10 {
        seq![digit_char(n)]
    } else {
        decimal(n / 10).push(digit_char(n % 10))
    }
}

/// `n` in decimal, padded with a leading zero to at least two digits.
pub open spec fn two_digits(n: nat) -> Seq<char> {
    if n < 10 {
        seq!['0'] + decimal(n)
    } else {
        decimal(n)
    }
}

/// The text `MM:SS` of a clock reading.
pub open spec fn clock_text(minutes: nat, seconds: nat) -> Seq<char> {
    two_digits(minutes) + seq![':'] + two_digits(seconds)
}

/// The one-character text of a digit.
fn digit_str(d: u32) -> (s: &'static str)
    requires
        d < 10,
    ensures
        s@ == seq![digit_char(d as nat)],
{
    proof {
        reveal_strlit("0");
        reveal_strlit("1");
        reveal_strlit("2");
        reveal_strlit("3");
        reveal_strlit("4");
        reveal_strlit("5");
        reveal_strlit("6");
        reveal_strlit("7");
        reveal_strlit("8");
        reveal_strlit("9");
    }
    let s = if d == 0 {
        "0"
    } else if d == 1 {
        "1"
    } else if d == 2 {
        "2"
    } else if d == 3 {
        "3"
    } else if d == 4 {
        "4"
    } else if d == 5 {
        "5"
    } else if d == 6 {
        "6"
    } else if d == 7 {
        "7"
    } else if d == 8 {
        "8"
    } else {
        "9"
    };
    assert(s@ =~= seq![digit_char(d as nat)]);
    s
}

/// Appends the decimal digits of `n`.
fn push_decimal(out: &mut String, n: u32)
    ensures
        final(out)@ == old(out)@ + decimal(n as nat),
    decreases n,
{
    if n >= 10 {
        push_decimal(out, n / 10);
    }
    out.append(digit_str(n % 10));
    assert(final(out)@ =~= old(out)@ + decimal(n as nat));
}

/// Appends `n` in decimal, padded to at least two digits.
fn push_two_digits(out: &mut String, n: u32)
    ensures
        final(out)@ == old(out)@ + two_digits(n as nat),
{
    if n < 10 {
        out.append("0");
        proof {
            reveal_strlit("0");
        }
    }
    push_decimal(out, n);
    assert(final(out)@ =~= old(out)@ + two_digits(n as nat));
}

/// A clock reading as `MM:SS`, each part padded to at least two digits.
pub fn fmt_clock(minutes: u32, seconds: u32) -> (s: String)
    ensures
        s@ == clock_text(minutes as nat, seconds as nat),
{
    let mut s = String::new();
    push_two_digits(&mut s, minutes);
    s.append(":");
    proof {
        reveal_strlit(":");
    }
    push_two_digits(&mut s, seconds);
    assert(s@ =~= clock_text(minutes as nat, seconds as nat));
    s
}

/// Whether a character is a decimal digit.
pub open spec fn is_digit(c: char) -> bool {
    '0' as int <= c as int <= '9' as int
}

/// The number that a string of decimal digits stands for.
pub open spec fn digits_value(s: Seq<char>) -> int
    decreases s.len(),
{
    if s.len() == 0 {
        0
    } else {
        digits_value(s.drop_last()) * 10 + (s.last() as int - '0' as int)
    }
}

/// Each digit is written as its own character: the digit `d` is the
/// character `d` places after '0'.
pub proof fn lemma_digit_char(d: nat)
    requires
        d < 10,
    ensures
        digit_char(d) as int == '0' as int + d,
        is_digit(digit_char(d)),
{
}

/// The decimal text of `n` is a non-empty string of digits that stands for
/// `n`, with no leading zero (a lone "0" for zero).
pub proof fn lemma_decimal_faithful(n: nat)
    ensures
        decimal(n).len() >= 1,
        forall|i: int| 0 <= i < decimal(n).len() ==> is_digit(#[trigger] decimal(n)[i]),
        digits_value(decimal(n)) == n,
        n > 0 ==> decimal(n)[0] != '0',
        n == 0 ==> decimal(n) == seq!['0'],
    decreases n,
{
    lemma_digit_char(n % 10);
    if n >= 10 {
        lemma_decimal_faithful(n / 10);
        let d = decimal(n / 10);
        assert(decimal(n).drop_last() =~= d);
        assert(decimal(n).last() == digit_char(n % 10));
        assert(digits_value(decimal(n)) == digits_value(d) * 10 + (digit_char(n % 10) as int - '0' as int));
        assert forall|i: int| 0 <= i < decimal(n).len() implies is_digit(#[trigger] decimal(n)[i]) by {
            if i < d.len() {
                assert(decimal(n)[i] == d[i]);
            }
        }
        assert(decimal(n)[0] == d[0]);
    } else {
        assert(seq![digit_char(n)].drop_last() =~= Seq::<char>::empty());
        assert(digits_value(Seq::<char>::empty()) == 0);
    }
}

/// A leading zero does not change the number that digits stand for.
proof fn lemma_leading_zero(s: Seq<char>)
    ensures
        digits_value(seq!['0'] + s) == digits_value(s),
    decreases s.len(),
{
    if s.len() == 0 {
        assert((seq!['0'] + s).drop_last() =~= Seq::<char>::empty());
        assert((seq!['0'] + s) =~= seq!['0']);
        assert(digits_value(Seq::<char>::empty()) == 0);
    } else {
        lemma_leading_zero(s.drop_last());
        assert((seq!['0'] + s).drop_last() =~= seq!['0'] + s.drop_last());
        assert((seq!['0'] + s).last() == s.last());
    }
}

/// The padded text of `n` is a string of at least two digits that stands for
/// `n`, and it starts with a zero only where that zero pads it to two digits.
pub proof fn lemma_two_digits_faithful(n: nat)
    ensures
        two_digits(n).len() >= 2,
        forall|i: int| 0 <= i < two_digits(n).len() ==> is_digit(#[trigger] two_digits(n)[i]),
        digits_value(two_digits(n)) == n,
        two_digits(n).len() > 2 ==> two_digits(n)[0] != '0',
        two_digits(n)[0] == '0' ==> n < 10,
{
    lemma_decimal_faithful(n);
    let d = decimal(n);
    if n < 10 {
        lemma_leading_zero(d);
        assert(d.len() == 1);
        assert forall|i: int| 0 <= i < two_digits(n).len() implies is_digit(#[trigger] two_digits(n)[i]) by {
            if i > 0 {
                assert(two_digits(n)[i] == d[i - 1]);
            }
        }
    } else {
        assert(decimal(n).drop_last() =~= decimal(n / 10));
        lemma_decimal_faithful(n / 10);
    }
}

/// The clock text is the padded minutes, a colon, and the padded seconds:
/// the digits before the colon stand for the minutes, those after it for the
/// seconds, and every other character is a digit.
pub proof fn lemma_clock_text_faithful(minutes: nat, seconds: nat)
    ensures
        ({
            let t = clock_text(minutes, seconds);
            let p = two_digits(minutes).len() as int;
            &&& 2 <= p
            &&& p + 3 <= t.len()
            &&& t[p] == ':'
            &&& forall|i: int| 0 <= i < t.len() && i != p ==> is_digit(#[trigger] t[i])
            &&& digits_value(t.subrange(0, p)) == minutes
            &&& digits_value(t.subrange(p + 1, t.len() as int)) == seconds
            &&& (p > 2 ==> t[0] != '0')
            &&& (t.len() - p - 1 > 2 ==> t[p + 1] != '0')
        }),
{
    lemma_two_digits_faithful(minutes);
    lemma_two_digits_faithful(seconds);
    let a = two_digits(minutes);
    let b = two_digits(seconds);
    let t = clock_text(minutes, seconds);
    let p = a.len() as int;
    assert(t.subrange(0, p) =~= a);
    assert(t.subrange(p + 1, t.len() as int) =~= b);
    assert forall|i: int| 0 <= i < t.len() && i != p implies is_digit(#[trigger] t[i]) by {
        if i < p {
            assert(t[i] == a[i]);
        } else {
            assert(t[i] == b[i - p - 1]);
        }
    }
}

/// Below one hundred, a number takes one digit below ten and two from ten on.
proof fn lemma_two_digits_len(n: nat)
    requires
        n < 100,
    ensures
        two_digits(n).len() == 2,
{
    if n >= 10 {
        assert(decimal(n / 10).len() == 1);
    }
}

/// A reading of fewer than a hundred minutes and seconds takes five
/// characters, with the colon in the middle.
pub proof fn lemma_clock_text_shape(minutes: nat, seconds: nat)
    requires
        minutes < 100,
        seconds < 100,
    ensures
        clock_text(minutes, seconds).len() == 5,
        clock_text(minutes, seconds)[2] == ':',
{
    lemma_two_digits_len(minutes);
    lemma_two_digits_len(seconds);
}

} // verus!
