//! The part of the extranonce that the proxy gives each miner of its own.
use vstd::arithmetic::div_mod::lemma_div_denominator;
use vstd::arithmetic::power::{lemma_pow_positive, pow};
use vstd::prelude::*;

verus! {

/// The hexadecimal digit for a number below sixteen.
pub open spec fn hex_digit(d: int) -> char {
    if d < 10 {
        (48 + d) as char
    } else {
        (87 + d) as char
    }
}

/// The hexadecimal digits of a number.
pub open spec fn hex(n: nat) -> Seq<char>
    decreases n,
{
    if n < 16 {
        seq![hex_digit(n as int)]
    } else {
        hex(n / 16).push(hex_digit((n % 16) as int))
    }
}

/// `count` zeros.
pub open spec fn zeros(count: int) -> Seq<char> {
    Seq::new(if count > 0 { count as nat } else { 0 }, |i: int| '0')
}

/// The extranonce of a miner: its number in hexadecimal, with at least four digits.
pub open spec fn constrained(miner_id: nat) -> Seq<char> {
    zeros(4 - hex(miner_id).len()) + hex(miner_id)
}

/// The digit for a number below sixteen, as a text.
fn digit_text(d: usize) -> (text: &'static str)
    requires
        d < 16,
    ensures
        text@ == seq![hex_digit(d as int)],
{
    proof {
        reveal_strlit("0");
        reveal_strlit("1");
        reveal_strlit("2");
        reveal_strlit("3");
        reveal_strlit("4");
        reveal_strlit("5");
        reveal_strlit("6");
        reveal_strlit("7");
        reveal_strlit("8");
        reveal_strlit("9");
        reveal_strlit("a");
        reveal_strlit("b");
        reveal_strlit("c");
        reveal_strlit("d");
        reveal_strlit("e");
        reveal_strlit("f");
    }
    let text: &'static str = match d {
        0 => "0",
        1 => "1",
        2 => "2",
        3 => "3",
        4 => "4",
        5 => "5",
        6 => "6",
        7 => "7",
        8 => "8",
        9 => "9",
        10 => "a",
        11 => "b",
        12 => "c",
        13 => "d",
        14 => "e",
        _ => "f",
    };
    assert(text@ =~= seq![hex_digit(d as int)]);
    text
}

/// Writes a number in hexadecimal.
fn hex_text(n: usize) -> (text: String)
    ensures
        text@ == hex(n as nat),
    decreases n,
{
    if n < 16 {
        digit_text(n).to_owned()
    } else {
        let mut text: String = hex_text(n / 16);
        text.append(digit_text(n % 16));
        assert(text@ =~= hex(n as nat));
        text
    }
}

/// The extranonce of the miner with a number.
pub fn constrained_extranonce(miner_id: usize) -> (text: String)
    ensures
        text@ == constrained(miner_id as nat),
{
    proof {
        reveal_strlit("000");
        reveal_strlit("00");
        reveal_strlit("0");
        reveal_strlit("");
        reveal_with_fuel(hex, 4);
        lemma_hex_length(miner_id as nat);
    }
    let mut text: String = (if miner_id < 16 {
        "000"
    } else if miner_id < 256 {
        "00"
    } else if miner_id < 4096 {
        "0"
    } else {
        ""
    }).to_owned();
    assert(text@ =~= zeros(4 - hex(miner_id as nat).len()));
    text.append(hex_text(miner_id).as_str());
    text
}

/// How many digits small numbers have.
proof fn lemma_hex_length(n: nat)
    ensures
        hex(n).len() >= 1,
        n < 16 <==> hex(n).len() <= 1,
        n < 256 <==> hex(n).len() <= 2,
        n < 4096 <==> hex(n).len() <= 3,
        n < 65536 <==> hex(n).len() <= 4,
    decreases n,
{
    if n >= 16 {
        lemma_hex_length(n / 16);
    }
}

/// The number that a hexadecimal digit stands for.
pub open spec fn digit_value(c: char) -> int {
    if c as int >= 97 {
        c as int - 87
    } else {
        c as int - 48
    }
}

/// The number that hexadecimal digits stand for.
pub open spec fn hex_value(digits: Seq<char>) -> int
    decreases digits.len(),
{
    if digits.len() == 0 {
        0
    } else {
        hex_value(digits.drop_last()) * 16 + digit_value(digits.last())
    }
}

proof fn lemma_value_of_zeros(count: int)
    ensures
        hex_value(zeros(count)) == 0,
    decreases count,
{
    if count > 0 {
        lemma_value_of_zeros(count - 1);
        assert(zeros(count).drop_last() =~= zeros(count - 1));
    }
}

proof fn lemma_value_of_padded_hex(count: int, n: nat)
    ensures
        hex_value(zeros(count) + hex(n)) == n,
    decreases n,
{
    let padded = zeros(count) + hex(n);
    if n < 16 {
        assert(padded.drop_last() =~= zeros(count));
        lemma_value_of_zeros(count);
    } else {
        assert(padded.drop_last() =~= zeros(count) + hex(n / 16));
        lemma_value_of_padded_hex(count, n / 16);
    }
}

/// The number of a miner can be read off its extranonce.
pub proof fn law_extranonce_tells_miner(miner_id: nat)
    ensures
        hex_value(constrained(miner_id)) == miner_id,
{
    lemma_value_of_padded_hex(4 - hex(miner_id).len(), miner_id);
}

/// No two miners have one extranonce.
pub proof fn law_extranonce_is_unique(one: nat, other: nat)
    requires
        one != other,
    ensures
        constrained(one) != constrained(other),
{
    law_extranonce_tells_miner(one);
    law_extranonce_tells_miner(other);
}

/// The extranonce of a miner is at least two bytes long, and it is exactly two bytes, four
/// digits, for the first 65536 miners and no others.
pub proof fn law_extranonce_length(miner_id: nat)
    ensures
        constrained(miner_id).len() >= 4,
        constrained(miner_id).len() == 4 <==> miner_id < 65536,
{
    lemma_hex_length(miner_id);
}

proof fn lemma_digit_of_padded_hex(count: int, n: nat, i: int)
    requires
        0 <= i < (zeros(count) + hex(n)).len(),
    ensures
        ({
            let padded = zeros(count) + hex(n);
            padded[padded.len() - 1 - i] == "0123456789abcdef"@[(n as int / pow(16, i as nat)) % 16]
        }),
    decreases i,
{
    reveal_strlit("0123456789abcdef");
    reveal(pow);
    let padded = zeros(count) + hex(n);
    if i == 0 {
        assert(pow(16, 0) == 1);
        assert(padded.last() == hex(n).last());
        assert(hex(n).last() == hex_digit((n % 16) as int));
    } else {
        lemma_pow_positive(16, (i - 1) as nat);
        lemma_div_denominator(n as int, 16, pow(16, (i - 1) as nat));
        assert(pow(16, i as nat) == 16 * pow(16, (i - 1) as nat));
        if n < 16 {
            assert(padded[padded.len() - 1 - i] == '0');
            assert(n as int / 16 == 0);
            assert(0int / pow(16, (i - 1) as nat) == 0) by (nonlinear_arith)
                requires
                    pow(16, (i - 1) as nat) > 0,
            ;
        } else {
            let shorter = zeros(count) + hex(n / 16);
            assert(padded.drop_last() =~= shorter);
            lemma_digit_of_padded_hex(count, n / 16, i - 1);
            assert(padded[padded.len() - 1 - i] == shorter[shorter.len() - 1 - (i - 1)]);
        }
    }
}

/// Every character of a miner's extranonce is the hexadecimal digit, in lower case, that the
/// miner's number has at that place: counted from the end, the place `i` is worth 16 to the `i`.
pub proof fn law_extranonce_is_hexadecimal(miner_id: nat, i: int)
    requires
        0 <= i < constrained(miner_id).len(),
    ensures
        ({
            let digits = constrained(miner_id);
            digits[digits.len() - 1 - i] == "0123456789abcdef"@[(miner_id as int / pow(
                16,
                i as nat,
            )) % 16]
        }),
        ({
            let code = constrained(miner_id)[i] as int;
            48 <= code <= 57 || 97 <= code <= 102
        }),
{
    let digits = constrained(miner_id);
    let count = 4 - hex(miner_id).len();
    lemma_digit_of_padded_hex(count, miner_id, i);
    lemma_digit_of_padded_hex(count, miner_id, digits.len() - 1 - i);
    reveal_strlit("0123456789abcdef");
}

proof fn lemma_hex_bounds(n: nat)
    ensures
        hex(n).len() >= 1,
        n < pow(16, hex(n).len()),
        hex(n).len() > 1 ==> n >= pow(16, (hex(n).len() - 1) as nat),
    decreases n,
{
    reveal(pow);
    assert(pow(16, 0) == 1 && pow(16, 1) == 16 * pow(16, 0));
    if n >= 16 {
        let length = hex(n / 16).len();
        lemma_hex_bounds(n / 16);
        assert(pow(16, length + 1) == 16 * pow(16, length));
        assert(length >= 1);
        assert(pow(16, length) == 16 * pow(16, (length - 1) as nat));
    }
}

/// The digits are enough for the miner's number, and beyond four there are no more than it takes.
pub proof fn law_extranonce_has_no_spare_digits(miner_id: nat)
    ensures
        constrained(miner_id).len() >= 4,
        miner_id < pow(16, constrained(miner_id).len()),
        constrained(miner_id).len() > 4 ==> miner_id >= pow(
            16,
            (constrained(miner_id).len() - 1) as nat,
        ),
{
    lemma_hex_bounds(miner_id);
    lemma_hex_length(miner_id);
    if hex(miner_id).len() <= 4 {
        assert(pow(16, 4) == 65536) by {
            reveal(pow);
            reveal_with_fuel(pow, 5);
        }
        assert(constrained(miner_id).len() == 4);
    }
}

} // verus!
