//! Whole numbers as decimal text, and decimal text as whole numbers.

use vstd::prelude::*;
use vstd::string::*;

use crate::order::{at_most, before, order_is_kept_behind, order_is_settled_in_front};
use crate::text::chars;

verus! {

/// One decimal digit.
pub open spec fn digit(d: int) -> char {
    ((48 + d) as u8) as char
}

/// A number in decimal, without leading zeros.
pub open spec fn decimal(n: nat) -> Seq<char>
    decreases n,
{
    if n < 10 {
        seq![digit(n as int)]
    } else {
        decimal(n / 10).push(digit((n % 10) as int))
    }
}

/// A number in decimal, with a sign where it is below zero.
pub open spec fn signed_decimal(n: int) -> Seq<char> {
    if n < 0 {
        seq!['-'] + decimal((-n) as nat)
    } else {
        decimal(n as nat)
    }
}

/// A number in decimal, filled up with leading zeros to at least `width` digits.
pub open spec fn padded(n: nat, width: nat) -> Seq<char> {
    let shown = decimal(n);
    if shown.len() >= width {
        shown
    } else {
        Seq::new((width - shown.len()) as nat, |i: int| '0') + shown
    }
}

/// A number in decimal, without leading zeros.
pub fn number(n: u128) -> (r: String)
    ensures
        r@ == decimal(n as nat),
    decreases n,
{
    if n < 10 {
        let mut out: String = String::new();
        out.push((48 + n as u8) as char);
        assert(out@ =~= decimal(n as nat));
        out
    } else {
        let mut out: String = number(n / 10);
        out.push((48 + (n % 10) as u8) as char);
        out
    }
}

/// A number in decimal, with a sign where it is below zero.
pub fn signed(n: i64) -> (r: String)
    ensures
        r@ == signed_decimal(n as int),
{
    if n < 0 {
        let mut out: String = "-".to_owned();
        let below: u128 = (-(n as i128)) as u128;
        out.append(number(below).as_str());
        proof {
            reveal_strlit("-");
            assert("-"@ =~= seq!['-']);
        }
        out
    } else {
        number(n as u128)
    }
}

/// A number in decimal, filled up with leading zeros to at least `width` digits.
pub fn wide(n: u128, width: usize) -> (r: String)
    ensures
        r@ == padded(n as nat, width as nat),
{
    let shown: String = number(n);
    let digits: Vec<char> = chars(shown.as_str());
    let mut out: String = String::new();
    let mut i: usize = digits.len();
    while i < width
        invariant
            digits@ == shown@,
            digits.len() <= i,
            digits.len() >= width ==> i == digits.len(),
            digits.len() < width ==> i <= width,
            out@ == Seq::new((i - digits.len()) as nat, |j: int| '0'),
        decreases width - i,
    {
        out.push('0');
        i = i + 1;
        assert(out@ =~= Seq::new((i - digits.len()) as nat, |j: int| '0'));
    }
    out.append(shown.as_str());
    if digits.len() >= width {
        assert(out@ =~= shown@);
    }
    out
}

// --- reading --------------------------------------------------------------------------------------

/// Whether a character is an ASCII digit.
pub open spec fn is_digit(c: char) -> bool {
    '0' <= c && c <= '9'
}

/// The number some digits spell.
pub open spec fn value_of(digits: Seq<char>) -> nat
    decreases digits.len(),
{
    if digits.len() == 0 {
        0
    } else {
        value_of(digits.drop_last()) * 10 + (digits.last() as u8 - 48) as nat
    }
}

/// The number a run of at least one digit and nothing else spells.
pub open spec fn plain_number(text: Seq<char>) -> Option<nat> {
    if text.len() > 0 && (forall|i: int| 0 <= i < text.len() ==> is_digit(#[trigger] text[i])) {
        Some(value_of(text))
    } else {
        None
    }
}

/// The whole number a text spells: digits, with a `+` or a `-` in front of them or none.
pub open spec fn whole_number(text: Seq<char>) -> Option<int> {
    if text.len() > 0 && text[0] == '-' {
        match plain_number(text.skip(1)) {
            Some(n) => Some(-(n as int)),
            None => None,
        }
    } else if text.len() > 0 && text[0] == '+' {
        match plain_number(text.skip(1)) {
            Some(n) => Some(n as int),
            None => None,
        }
    } else {
        match plain_number(text) {
            Some(n) => Some(n as int),
            None => None,
        }
    }
}

/// The number the characters from `from` on spell, where they are digits and it is at most `most`.
fn run_of_digits(shape: &Vec<char>, from: usize, most: u64) -> (r: Option<u64>)
    requires
        from <= shape.len(),
    ensures
        match plain_number(shape@.skip(from as int)) {
            Some(n) => if n <= most {
                r == Some(n as u64)
            } else {
                r is None
            },
            None => r is None,
        },
{
    if from == shape.len() {
        return None;
    }
    let ghost digits = shape@.skip(from as int);
    let mut n: u64 = 0;
    let mut over: bool = false;
    let mut i: usize = from;
    while i < shape.len()
        invariant
            from < shape.len(),
            from <= i <= shape.len(),
            digits == shape@.skip(from as int),
            forall|j: int| 0 <= j < i - from ==> is_digit(#[trigger] digits[j]),
            !over ==> n == value_of(digits.take(i - from)) && n <= most,
            over ==> value_of(digits.take(i - from)) > most,
        decreases shape.len() - i,
    {
        let c: char = shape[i];
        assert(digits[i - from] == c);
        if c < '0' || '9' < c {
            assert(!is_digit(digits[i - from]));
            return None;
        }
        let d: u64 = (c as u8 - 48) as u64;
        assert(digits.take(i + 1 - from).drop_last() =~= digits.take(i - from));
        if !over {
            let next: u128 = n as u128 * 10 + d as u128;
            if next > most as u128 {
                over = true;
            } else {
                n = next as u64;
            }
        }
        i = i + 1;
    }
    assert(digits.take(i - from) =~= digits);
    if over {
        None
    } else {
        Some(n)
    }
}

/// The whole number a text spells, where it is one that an `i64` holds.
pub fn whole(text: &str) -> (r: Option<i64>)
    ensures
        match whole_number(text@) {
            Some(n) => if i64::MIN <= n <= i64::MAX {
                r == Some(n as i64)
            } else {
                r is None
            },
            None => r is None,
        },
{
    let shape: Vec<char> = chars(text);
    if shape.len() > 0 && shape[0] == '-' {
        match run_of_digits(&shape, 1, 0x8000_0000_0000_0000) {
            Some(n) => {
                if n == 0x8000_0000_0000_0000 {
                    Some(i64::MIN)
                } else {
                    Some(-(n as i64))
                }
            },
            None => None,
        }
    } else if shape.len() > 0 && shape[0] == '+' {
        match run_of_digits(&shape, 1, 0x7fff_ffff_ffff_ffff) {
            Some(n) => Some(n as i64),
            None => None,
        }
    } else {
        assert(shape@.skip(0) =~= shape@);
        match run_of_digits(&shape, 0, 0x7fff_ffff_ffff_ffff) {
            Some(n) => Some(n as i64),
            None => None,
        }
    }
}

/// The number a text spells where nothing below zero is meant: digits, with a `+` or nothing in
/// front of them.
pub open spec fn natural_number(text: Seq<char>) -> Option<nat> {
    if text.len() > 0 && text[0] == '+' {
        plain_number(text.skip(1))
    } else {
        plain_number(text)
    }
}

/// The number a text spells, where it is at most `most`.
pub fn natural(text: &str, most: u64) -> (r: Option<u64>)
    ensures
        match natural_number(text@) {
            Some(n) => if n <= most {
                r == Some(n as u64)
            } else {
                r is None
            },
            None => r is None,
        },
{
    let shape: Vec<char> = chars(text);
    if shape.len() > 0 && shape[0] == '+' {
        run_of_digits(&shape, 1, most)
    } else {
        assert(shape@.skip(0) =~= shape@);
        run_of_digits(&shape, 0, most)
    }
}

// --- laws -----------------------------------------------------------------------------------------

/// A number written in decimal is a run of digits that spells the number.
pub proof fn decimal_reads_back(n: nat)
    ensures
        plain_number(decimal(n)) == Some(n),
        natural_number(decimal(n)) == Some(n),
        whole_number(decimal(n)) == Some(n as int),
    decreases n,
{
    let shown = decimal(n);
    if n >= 10 {
        decimal_reads_back(n / 10);
        assert(shown.drop_last() =~= decimal(n / 10));
        assert forall|i: int| 0 <= i < shown.len() implies is_digit(#[trigger] shown[i]) by {
            if i < shown.len() - 1 {
                assert(shown[i] == decimal(n / 10)[i]);
            }
        }
    } else {
        assert(shown.drop_last() =~= Seq::<char>::empty());
        assert(value_of(Seq::<char>::empty()) == 0);
    }
    assert(is_digit(shown[0]));
}

/// A signed number written in decimal spells the number.
pub proof fn signed_decimal_reads_back(n: int)
    ensures
        whole_number(signed_decimal(n)) == Some(n),
{
    if n < 0 {
        decimal_reads_back((-n) as nat);
        assert(signed_decimal(n).skip(1) =~= decimal((-n) as nat));
    } else {
        decimal_reads_back(n as nat);
    }
}

/// Leading zeros change nothing about the number a run of digits spells.
proof fn zeros_count_nothing(zeros: nat, digits: Seq<char>)
    ensures
        value_of(Seq::new(zeros, |i: int| '0') + digits) == value_of(digits),
    decreases zeros + digits.len(),
{
    let whole = Seq::new(zeros, |i: int| '0') + digits;
    if digits.len() > 0 {
        zeros_count_nothing(zeros, digits.drop_last());
        assert(whole.drop_last() =~= Seq::new(zeros, |i: int| '0') + digits.drop_last());
    } else if zeros > 0 {
        zeros_count_nothing((zeros - 1) as nat, digits);
        assert(whole.drop_last() =~= Seq::new((zeros - 1) as nat, |i: int| '0') + digits);
    }
}

/// A number filled up with zeros is a run of digits that spells the number.
pub proof fn padded_reads_back(n: nat, width: nat)
    ensures
        plain_number(padded(n, width)) == Some(n),
        padded(n, width).len() >= width,
{
    decimal_reads_back(n);
    let shown = decimal(n);
    if shown.len() < width {
        let zeros = (width - shown.len()) as nat;
        zeros_count_nothing(zeros, shown);
        let whole = padded(n, width);
        assert forall|i: int| 0 <= i < whole.len() implies is_digit(#[trigger] whole[i]) by {
            if i >= zeros {
                assert(whole[i] == shown[i - zeros]);
            }
        }
    }
}

/// A number below a hundred fills two digits, one below a thousand three.
pub proof fn padded_widths(n: nat)
    ensures
        n < 100 ==> padded(n, 2).len() == 2,
        n < 1000 ==> padded(n, 3).len() == 3,
{
    reveal_with_fuel(decimal, 4);
}

/// How many numbers have at most some digits.
pub open spec fn limit(width: nat) -> nat
    decreases width,
{
    if width == 0 {
        1
    } else {
        10 * limit((width - 1) as nat)
    }
}

/// The last digits of a number, as many as asked for.
spec fn last_digits(n: nat, width: nat) -> Seq<char>
    decreases width,
{
    if width == 0 {
        Seq::empty()
    } else {
        last_digits(n / 10, (width - 1) as nat).push(digit((n % 10) as int))
    }
}

/// A number that fits a width is padded to exactly its last digits.
proof fn padded_is_last_digits(n: nat, width: nat)
    requires
        1 <= width,
        n < limit(width),
    ensures
        padded(n, width) == last_digits(n, width),
        padded(n, width).len() == width,
    decreases width,
{
    reveal_with_fuel(limit, 2);
    reveal_with_fuel(last_digits, 2);
    let shown = decimal(n);
    if width == 1 {
        assert(shown =~= seq![digit(n as int)]);
        assert(last_digits(n, 1) =~= seq![digit(n as int)]);
    } else {
        let less = (width - 1) as nat;
        padded_is_last_digits(n / 10, less);
        let start = padded(n / 10, less);
        if n < 10 {
            assert(decimal(0) =~= seq!['0']);
            assert(start =~= Seq::new(less, |i: int| '0'));
            assert(padded(n, width) =~= start.push(digit(n as int)));
        } else {
            assert(shown == decimal(n / 10).push(digit((n % 10) as int)));
            assert(padded(n, width) =~= start.push(digit((n % 10) as int)));
        }
    }
}

/// A number that fits a width fills exactly that many digits.
pub proof fn padded_fills(n: nat, width: nat)
    requires
        1 <= width,
        n < limit(width),
    ensures
        padded(n, width).len() == width,
{
    padded_is_last_digits(n, width);
}

/// Numbers written with as many digits are in the order of their texts.
pub proof fn padded_in_order(a: nat, b: nat, width: nat)
    requires
        1 <= width,
        a < b < limit(width),
    ensures
        before(padded(a, width), padded(b, width)),
        padded(a, width).len() == width,
        padded(b, width).len() == width,
    decreases width,
{
    padded_is_last_digits(a, width);
    padded_is_last_digits(b, width);
    reveal_with_fuel(limit, 2);
    reveal_with_fuel(last_digits, 2);
    let (x, y) = (seq![digit((a % 10) as int)], seq![digit((b % 10) as int)]);
    if width == 1 {
        reveal_with_fuel(at_most, 2);
        assert(padded(a, width) =~= x);
        assert(padded(b, width) =~= y);
        assert(x[0] < y[0]);
    } else {
        let less = (width - 1) as nat;
        padded_is_last_digits(a / 10, less);
        padded_is_last_digits(b / 10, less);
        let (p, q) = (padded(a / 10, less), padded(b / 10, less));
        assert(padded(a, width) =~= p + x);
        assert(padded(b, width) =~= q + y);
        if a / 10 < b / 10 {
            padded_in_order(a / 10, b / 10, less);
            order_is_settled_in_front(p, q, x, y);
        } else {
            assert(a / 10 == b / 10);
            reveal_with_fuel(at_most, 2);
            assert(x[0] < y[0]);
            assert(before(x, y));
            order_is_kept_behind(p, x, y);
        }
    }
}

}
