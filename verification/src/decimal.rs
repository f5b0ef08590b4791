//! Decimal notation.

use vstd::arithmetic::div_mod::*;
use vstd::arithmetic::power::*;
use vstd::prelude::*;

verus! {

/// The character of a digit.
pub open spec fn digit(d: nat) -> char
    recommends
        d < 10,
{
    seq!['0', '1', '2', '3', '4', '5', '6', '7', '8', '9'][d as int]
}

/// A number in decimal notation, without leading zeros.
pub open spec fn decimal(n: nat) -> Seq<char>
    decreases n,
{
    if n < 10 {
        seq![digit(n)]
    } else {
        decimal(n / 10).push(digit(n % 10))
    }
}

/// A digit as text.
fn digit_text(d: u32) -> (text: &'static str)
    requires
        d < 10,
    ensures
        text@ == seq![digit(d as nat)],
{
    proof {
        reveal_strlit("0");
        reveal_strlit("1");
        reveal_strlit("2");
        reveal_strlit("3");
        reveal_strlit("4");
        reveal_strlit("5");
        reveal_strlit("6");
        reveal_strlit("7");
        reveal_strlit("8");
        reveal_strlit("9");
    }
    let text = match d {
        0 => "0",
        1 => "1",
        2 => "2",
        3 => "3",
        4 => "4",
        5 => "5",
        6 => "6",
        7 => "7",
        8 => "8",
        _ => "9",
    };
    assert(text@ =~= seq![digit(d as nat)]);
    text
}

/// Writes a number in decimal notation at the end of a text.
pub fn append_decimal(text: &mut String, n: u32)
    ensures
        final(text)@ == old(text)@ + decimal(n as nat),
    decreases n,
{
    let ghost before = text@;
    if n >= 10 {
        append_decimal(text, n / 10);
        text.append(digit_text(n % 10));
        assert(text@ =~= before + decimal(n as nat));
    } else {
        text.append(digit_text(n));
    }
}

/// Decimal notation is made of digits, so that no other character is in it.
pub proof fn lemma_decimal_digits(n: nat, i: int)
    requires
        0 <= i < decimal(n).len(),
    ensures
        '0' <= decimal(n)[i] <= '9',
    decreases n,
{
    if n >= 10 && i < decimal(n).len() - 1 {
        lemma_decimal_digits(n / 10, i);
    }
}

/// Decimal notation is not empty.
pub proof fn lemma_decimal_nonempty(n: nat)
    ensures
        decimal(n).len() > 0,
{
}

/// Different numbers differ in decimal notation.
pub proof fn lemma_decimal_injective(m: nat, n: nat)
    requires
        decimal(m) == decimal(n),
    ensures
        m == n,
    decreases m,
{
    if m < 10 && n < 10 {
        assert(decimal(m)[0] == digit(m));
        assert(decimal(n)[0] == digit(n));
    } else if m < 10 {
        lemma_decimal_nonempty(n / 10);
        assert(decimal(n).len() > 1);
    } else if n < 10 {
        lemma_decimal_nonempty(m / 10);
        assert(decimal(m).len() > 1);
    } else {
        assert(decimal(m).drop_last() =~= decimal(m / 10));
        assert(decimal(n).drop_last() =~= decimal(n / 10));
        lemma_decimal_injective(m / 10, n / 10);
        assert(decimal(m).last() == digit(m % 10));
        assert(decimal(n).last() == digit(n % 10));
    }
}

/// The number that a text of digits stands for, each place counting ten times the next.
pub open spec fn value_of(digits: Seq<char>) -> int
    decreases digits.len(),
{
    if digits.len() == 0 {
        0
    } else {
        value_of(digits.drop_last()) * 10 + (digits.last() as int - '0' as int)
    }
}

/// The characters of the digits follow each other.
proof fn lemma_digit(d: nat)
    requires
        d < 10,
    ensures
        digit(d) as int == '0' as int + d,
{
    let all = seq!['0', '1', '2', '3', '4', '5', '6', '7', '8', '9'];
    assert(all[0] == '0' && all[1] == '1' && all[2] == '2' && all[3] == '3' && all[4] == '4');
    assert(all[5] == '5' && all[6] == '6' && all[7] == '7' && all[8] == '8' && all[9] == '9');
}

/// What decimal notation is, place by place: the digit before `k` others is the one that `n` has at
/// that place, there are as many as `n` needs and no more, and read as a number they give `n`.
pub proof fn lemma_decimal_places(n: nat)
    ensures
        value_of(decimal(n)) == n,
        decimal(n).len() > 0,
        n < pow(10, decimal(n).len()),
        decimal(n).len() > 1 ==> pow(10, (decimal(n).len() - 1) as nat) <= n,
        forall|i: int|
            0 <= i < decimal(n).len() ==> (#[trigger] decimal(n)[i]) as int - '0' as int == (n / (
            pow(10, (decimal(n).len() - 1 - i) as nat) as nat)) % 10,
    decreases n,
{
    let text = decimal(n);
    let len = text.len();
    lemma_pow0(10);
    lemma_pow1(10);
    if n < 10 {
        lemma_digit(n);
        assert(text.drop_last() =~= Seq::<char>::empty());
        assert(value_of(text.drop_last()) == 0);
        assert(text.last() == digit(n));
        assert(n / 1 == n);
    } else {
        let front = decimal(n / 10);
        lemma_decimal_places(n / 10);
        lemma_digit(n % 10);
        assert(text.drop_last() =~= front);
        assert(text.last() == digit(n % 10));
        assert(len == front.len() + 1);
        lemma_pow_adds(10, 1, front.len());
        assert(pow(10, len) == 10 * pow(10, front.len()));
        if front.len() > 1 {
            lemma_pow_adds(10, 1, (front.len() - 1) as nat);
            assert(pow(10, front.len()) == 10 * pow(10, (front.len() - 1) as nat));
        }
        assert forall|i: int| 0 <= i < len implies (#[trigger] text[i]) as int - '0' as int == (n
            / (pow(10, (len - 1 - i) as nat) as nat)) % 10 by {
            let k = (len - 1 - i) as nat;
            if i == len - 1 {
                assert(text[i] == digit(n % 10));
                assert(n / 1 == n);
            } else {
                let shorter = (k - 1) as nat;
                assert(text[i] == front[i]);
                lemma_pow_adds(10, 1, shorter);
                assert(pow(10, k) == 10 * pow(10, shorter));
                lemma_pow_positive(10, shorter);
                lemma_div_denominator(n as int, 10, pow(10, shorter));
            }
        }
    }
}

/// Writing a number at the end of a text leaves the text as it is, and adds what reads as the
/// number: only digits, no zero in front, and each digit the one that the number has at its place.
pub proof fn law_appended_text_reads_as_the_number(n: u32)
    ensures
        forall|text: &mut String, done: ()| #[trigger]
            call_ensures(append_decimal, (text, n), done) ==> {
                let before = (*text)@;
                let after = (*final(text))@;
                let digits = after.skip(before.len() as int);
                &&& after.len() > before.len()
                &&& after.take(before.len() as int) == before
                &&& value_of(digits) == n
                &&& digits.len() > 1 ==> digits[0] != '0'
                &&& forall|i: int|
                    0 <= i < digits.len() ==> (#[trigger] digits[i]) as int - '0' as int == (n as nat
                        / (pow(10, (digits.len() - 1 - i) as nat) as nat)) % 10
            },
{
    lemma_decimal_places(n as nat);
    lemma_no_leading_zero(n as nat);
    assert forall|text: &mut String, done: ()| #[trigger]
        call_ensures(append_decimal, (text, n), done) implies (*final(text))@.skip(
        (*text)@.len() as int,
    ) == decimal(n as nat) && (*final(text))@.take((*text)@.len() as int) == (*text)@ by {
        assert((*final(text))@.skip((*text)@.len() as int) =~= decimal(n as nat));
        assert((*final(text))@.take((*text)@.len() as int) =~= (*text)@);
    }
}

/// Decimal notation of more than one digit does not begin with a zero.
pub proof fn lemma_no_leading_zero(n: nat)
    ensures
        decimal(n).len() > 1 ==> decimal(n)[0] != '0',
    decreases n,
{
    if n >= 10 {
        lemma_no_leading_zero(n / 10);
        if n / 10 < 10 {
            lemma_digit(n / 10);
        } else {
            lemma_decimal_nonempty(n / 10 / 10);
        }
    }
}

} // verus!
