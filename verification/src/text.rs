//! Number and text formatting used by the messages of this crate.
use vstd::arithmetic::div_mod::lemma_div_decreases;
use vstd::prelude::*;
use vstd::string::*;

verus! {

/// The character of one digit, in bases up to sixteen.
pub open spec fn digit_char(d: nat) -> char {
    if d < 10 {
        (48 + d) as char
    } else {
        (87 + d) as char
    }
}

/// The digits of `n` in `base`, most significant first and without leading zeros.
pub open spec fn digits(n: nat, base: nat) -> Seq<char>
    decreases n,
{
    if n < base || base < 2 {
        seq![digit_char(n)]
    } else {
        proof {
            lemma_div_decreases(n as int, base as int);
        }
        digits(n / base, base).push(digit_char(n % base))
    }
}

/// `n` in decimal.
pub open spec fn decimal_text(n: nat) -> Seq<char> {
    digits(n, 10)
}

/// `n` in lowercase hexadecimal behind `0x`.
pub open spec fn hex_text(n: nat) -> Seq<char> {
    "0x"@ + digits(n, 16)
}

/// The text of a single digit below sixteen.
fn digit(d: u64) -> (r: &'static str)
    requires
        d < 16,
    ensures
        r@ == seq![digit_char(d as nat)],
{
    proof {
        reveal_strlit("0");
        reveal_strlit("1");
        reveal_strlit("2");
        reveal_strlit("3");
        reveal_strlit("4");
        reveal_strlit("5");
        reveal_strlit("6");
        reveal_strlit("7");
        reveal_strlit("8");
        reveal_strlit("9");
        reveal_strlit("a");
        reveal_strlit("b");
        reveal_strlit("c");
        reveal_strlit("d");
        reveal_strlit("e");
        reveal_strlit("f");
    }
    match d {
        0 => "0",
        1 => "1",
        2 => "2",
        3 => "3",
        4 => "4",
        5 => "5",
        6 => "6",
        7 => "7",
        8 => "8",
        9 => "9",
        10 => "a",
        11 => "b",
        12 => "c",
        13 => "d",
        14 => "e",
        _ => "f",
    }
}

/// The digits of `n` in `base`.
fn number(n: u64, base: u64) -> (r: String)
    requires
        2 <= base <= 16,
    ensures
        r@ == digits(n as nat, base as nat),
    decreases n,
{
    if n < base {
        digit(n).to_owned()
    } else {
        proof {
            lemma_div_decreases(n as int, base as int);
        }
        let mut text = number(n / base, base);
        text.append(digit(n % base));
        text
    }
}

/// `n` in decimal, as `{}` prints it.
pub fn decimal(n: u64) -> (r: String)
    ensures
        r@ == decimal_text(n as nat),
{
    number(n, 10)
}

/// `n` in hexadecimal, as `{:#x}` prints it.
pub fn hex(n: u64) -> (r: String)
    ensures
        r@ == hex_text(n as nat),
{
    let mut text = "0x".to_owned();
    text.append(number(n, 16).as_str());
    text
}

/// `head` followed by `tail`.
pub fn joined(head: &str, tail: &str) -> (r: String)
    ensures
        r@ == head@ + tail@,
{
    let mut text = head.to_owned();
    text.append(tail);
    text
}

/// The text with which the standard library prints a string for debugging: quoted and escaped.
pub uninterp spec fn str_debug(s: Seq<char>) -> Seq<char>;

/// `s` quoted and escaped, as `{:?}` prints it.
///
/// Trusted: the `Debug` of `str`. Claimed: the text depends on the characters of `s` alone. Which
/// characters it escapes is not stated.
#[verifier::external_body]
pub(crate) fn quoted(s: &str) -> (r: String)
    ensures
        r@ == str_debug(s@),
{
    format!("{:?}", s)
}

/// The text with which `ash` prints a Vulkan result code for debugging.
pub uninterp spec fn vk_result_debug(code: i32) -> Seq<char>;

/// The name of a Vulkan result code, such as `ERROR_DEVICE_LOST`.
///
/// Trusted: the `Debug` of `ash::vk::Result`. Claimed: the text depends on the code alone. The
/// table of names, and that a code without a name prints as a number, is not stated.
#[verifier::external_body]
pub(crate) fn vk_result_text(code: i32) -> (r: String)
    ensures
        r@ == vk_result_debug(code),
{
    format!("{:?}", ash::vk::Result::from_raw(code))
}

/// `head` followed by the name of a Vulkan result code.
pub(crate) fn with_vk_result(head: &str, code: i32) -> (r: String)
    ensures
        r@ == head@ + vk_result_debug(code),
{
    joined(head, vk_result_text(code).as_str())
}

/// The number that a digit stands for, in lowercase.
pub open spec fn digit_value(c: char) -> int {
    if '0' <= c <= '9' {
        c as int - '0' as int
    } else {
        c as int - 'a' as int + 10
    }
}

/// The number that some digits stand for in a base.
pub open spec fn text_value(text: Seq<char>, base: nat) -> int
    decreases text.len(),
{
    if text.len() == 0 {
        0
    } else {
        text_value(text.drop_last(), base) * base + digit_value(text.last())
    }
}

/// A number that was written in a base up to sixteen is read back as itself. It has no leading zero,
/// unless it is zero.
pub proof fn law_number_read_back(n: nat, base: nat)
    requires
        2 <= base <= 16,
    ensures
        digits(n, base).len() > 0,
        text_value(digits(n, base), base) == n,
        digits(n, base)[0] == '0' ==> n == 0 && digits(n, base).len() == 1,
        forall|i: int|
            0 <= i < digits(n, base).len() ==> {
                let c = #[trigger] digits(n, base)[i];
                '0' <= c <= '9' || 'a' <= c <= 'f'
            },
    decreases n,
{
    let text = digits(n, base);
    if n < base {
        assert(text.drop_last() =~= Seq::empty());
        assert(text_value(text.drop_last(), base) == 0);
        assert(0 * base == 0) by (nonlinear_arith);
    } else {
        lemma_div_decreases(n as int, base as int);
        law_number_read_back(n / base, base);
        let head = digits(n / base, base);
        assert(text.drop_last() =~= head);
        assert(n == (n / base) * base + n % base && 0 <= n % base < base) by (nonlinear_arith)
            requires
                base > 0,
        ;
        assert(n / base > 0) by (nonlinear_arith)
            requires
                n >= base,
                base > 0,
        ;
        assert forall|i: int| 0 <= i < text.len() implies {
            let c = #[trigger] text[i];
            '0' <= c <= '9' || 'a' <= c <= 'f'
        } by {
            if i < head.len() {
                assert(text[i] == head[i]);
            }
        }
        assert(text[0] == head[0]);
    }
}

/// A number is printed in decimal, and in hexadecimal behind `0x`.
pub proof fn law_printed_numbers(n: u64, dec: String, hexadecimal: String)
    requires
        call_ensures(decimal, (n,), dec),
        call_ensures(hex, (n,), hexadecimal),
    ensures
        text_value(dec@, 10) == n,
        hexadecimal@.len() > 2 && hexadecimal@[0] == '0' && hexadecimal@[1] == 'x',
        text_value(hexadecimal@.skip(2), 16) == n,
{
    law_number_read_back(n as nat, 10);
    law_number_read_back(n as nat, 16);
    reveal_strlit("0x");
    assert(hexadecimal@.skip(2) =~= digits(n as nat, 16));
}

/// A text that follows another begins where that one ends.
pub proof fn law_joined_texts(head: &str, tail: &str, r: String)
    requires
        call_ensures(joined, (head, tail), r),
    ensures
        r@.len() == head@.len() + tail@.len(),
        r@.take(head@.len() as int) == head@,
        r@.skip(head@.len() as int) == tail@,
{
    assert(r@.take(head@.len() as int) =~= head@);
    assert(r@.skip(head@.len() as int) =~= tail@);
}

} // verus!
