//! Whole numbers in decimal notation.

use vstd::prelude::*;

verus! {

/// A decimal digit.
pub open spec fn digit(value: nat) -> char {
    (('0' as int) + value) as char
}

/// The decimal notation of a number that is not negative, without leading zeros.
pub open spec fn digits(value: nat) -> Seq<char>
    decreases value,
{
    if value < 10 {
        seq![digit(value)]
    } else {
        digits(value / 10).push(digit(value % 10))
    }
}

/// The decimal notation of a number, with a sign where it is negative.
pub open spec fn decimal(value: int) -> Seq<char> {
    if value < 0 {
        seq!['-'] + digits((-value) as nat)
    } else {
        digits(value as nat)
    }
}

fn digit_text(value: u64) -> (r: &'static str)
    requires
        value < 10,
    ensures
        r@ == seq![digit(value as nat)],
{
    proof {
        reveal_strlit("0");
        reveal_strlit("1");
        reveal_strlit("2");
        reveal_strlit("3");
        reveal_strlit("4");
        reveal_strlit("5");
        reveal_strlit("6");
        reveal_strlit("7");
        reveal_strlit("8");
        reveal_strlit("9");
    }
    let text = match value {
        0 => "0",
        1 => "1",
        2 => "2",
        3 => "3",
        4 => "4",
        5 => "5",
        6 => "6",
        7 => "7",
        8 => "8",
        _ => "9",
    };
    assert(text@ =~= seq![digit(value as nat)]);
    text
}

fn write_digits(value: u64) -> (r: String)
    ensures
        r@ == digits(value as nat),
    decreases value,
{
    if value < 10 {
        digit_text(value).to_owned()
    } else {
        let mut text = write_digits(value / 10);
        text.append(digit_text(value % 10));
        assert(text@ =~= digits(value as nat / 10).push(digit(value as nat % 10)));
        text
    }
}

/// Computes [`decimal`].
pub fn write_decimal(value: i64) -> (r: String)
    ensures
        r@ == decimal(value as int),
{
    if value < 0 {
        let magnitude: u64 = (-(value + 1)) as u64 + 1;
        let mut text = "-".to_owned();
        text.append(write_digits(magnitude).as_str());
        proof {
            reveal_strlit("-");
            assert(text@ =~= seq!['-'] + digits((-value) as nat));
        }
        text
    } else {
        write_digits(value as u64)
    }
}

/// The number that a text of digits stands for.
pub open spec fn value_of_digits(text: Seq<char>) -> int
    decreases text.len(),
{
    if text.len() == 0 {
        0
    } else {
        10 * value_of_digits(text.drop_last()) + (text.last() as int - '0' as int)
    }
}

/// The number that a text stands for.
pub open spec fn value_of_decimal(text: Seq<char>) -> int {
    if text.len() > 0 && text[0] == '-' {
        -value_of_digits(text.skip(1))
    } else {
        value_of_digits(text)
    }
}

proof fn digits_read_back(value: nat)
    ensures
        value_of_digits(digits(value)) == value,
        digits(value).len() > 0,
        '0' <= digits(value)[0] <= '9',
    decreases value,
{
    if value < 10 {
        let text = seq![digit(value)];
        assert(text.drop_last() =~= Seq::empty());
        assert(value_of_digits(Seq::<char>::empty()) == 0);
        assert(text.last() == digit(value));
    } else {
        digits_read_back(value / 10);
        let text = digits(value);
        assert(text.drop_last() =~= digits(value / 10));
        assert(text.last() == digit(value % 10));
    }
}

/// A number in decimal notation reads back as the same number, so different
/// numbers have different notations.
pub proof fn decimals_read_back(value: int)
    ensures
        value_of_decimal(decimal(value)) == value,
{
    if value < 0 {
        digits_read_back((-value) as nat);
        assert(decimal(value).skip(1) =~= digits((-value) as nat));
    } else {
        digits_read_back(value as nat);
    }
}

/// A number is written in a way that reads back as it, with no more characters
/// than digits and, where it is negative, a sign.
pub proof fn written_numbers_read_back(value: i64, text: String)
    requires
        call_ensures(write_decimal, (value,), text),
    ensures
        value_of_decimal(text@) == value,
        text@.len() > 0,
        value < 0 <==> text@[0] == '-',
        value != 0 ==> text@[0] != '0',
        value == 0 ==> text@.len() == 1,
        forall|i: int|
            0 <= i < text@.len() && !(i == 0 && value < 0) ==> '0' <= #[trigger] text@[i] <= '9',
{
    decimals_read_back(value as int);
    if value < 0 {
        digits_are_digits((-value) as nat);
        digits_read_back((-value) as nat);
        assert(forall|i: int|
            1 <= i < text@.len() ==> text@[i] == digits((-value) as nat)[i - 1]);
    } else {
        digits_are_digits(value as nat);
        digits_read_back(value as nat);
    }
}

proof fn digits_are_digits(value: nat)
    ensures
        forall|i: int| 0 <= i < digits(value).len() ==> '0' <= #[trigger] digits(value)[i] <= '9',
        value > 0 ==> digits(value)[0] != '0',
    decreases value,
{
    if value >= 10 {
        digits_are_digits(value / 10);
        digits_read_back(value / 10);
    }
}

} // verus!
