//! Numbers as text: reading a decimal number, writing a hexadecimal one.

use vstd::prelude::*;

verus! {

/// Why a text is not a decimal number that fits in 64 bits.
#[derive(Clone, Copy, Debug, PartialEq, Eq)]
pub enum ParseError {
    /// The text is empty.
    Empty,
    /// The text holds something other than decimal digits after an optional
    /// leading `+`, or nothing but a sign.
    InvalidDigit,
    /// The digits stand for a number above `u64::MAX`.
    PosOverflow,
}

impl ParseError {
    /// The message for the error, in words.
    pub open spec fn message_text(self) -> Seq<char> {
        match self {
            ParseError::Empty => "cannot parse integer from empty string"@,
            ParseError::InvalidDigit => "invalid digit found in string"@,
            ParseError::PosOverflow => "number too large to fit in target type"@,
        }
    }

    /// The message for the error, in words.
    pub fn message(&self) -> (text: String)
        ensures
            text@ == self.message_text(),
    {
        match self {
            ParseError::Empty => String::from_str("cannot parse integer from empty string"),
            ParseError::InvalidDigit => String::from_str("invalid digit found in string"),
            ParseError::PosOverflow => String::from_str("number too large to fit in target type"),
        }
    }
}

/// Whether `c` is one of `0` to `9`.
pub open spec fn is_digit(c: char) -> bool {
    '0' <= c <= '9'
}

/// The number that the digit `c` stands for.
pub open spec fn digit_value(c: char) -> nat {
    (c as nat - '0' as nat) as nat
}

/// The number that a run of decimal digits stands for; the empty run stands
/// for zero.
pub open spec fn decimal_value(digits: Seq<char>) -> nat
    decreases digits.len(),
{
    if digits.len() == 0 {
        0
    } else {
        decimal_value(digits.drop_last()) * 10 + digit_value(digits.last())
    }
}

/// How many decimal digits `text` starts with.
pub open spec fn leading_digits(text: Seq<char>) -> nat
    decreases text.len(),
{
    if text.len() == 0 || !is_digit(text.first()) {
        0
    } else {
        1 + leading_digits(text.drop_first())
    }
}

/// What reading `digits` as an unsigned decimal number gives: the number,
/// if every character is a digit and the number fits in 64 bits. Reading
/// goes from the left and stops at the first character that is no digit or
/// takes the number above `u64::MAX`, whichever comes first.
pub open spec fn unsigned_value(digits: Seq<char>) -> Result<u64, ParseError> {
    let lead = digits.take(leading_digits(digits) as int);
    if decimal_value(lead) > u64::MAX {
        Err(ParseError::PosOverflow)
    } else if lead.len() < digits.len() {
        Err(ParseError::InvalidDigit)
    } else {
        Ok(decimal_value(digits) as u64)
    }
}

/// What reading `text` as a `u64` gives. The text is one optional `+`
/// followed by at least one decimal digit and nothing else.
pub open spec fn parsed_u64(text: Seq<char>) -> Result<u64, ParseError> {
    if text.len() == 0 {
        Err(ParseError::Empty)
    } else if text.len() == 1 && (text[0] == '+' || text[0] == '-') {
        Err(ParseError::InvalidDigit)
    } else if text[0] == '+' {
        unsigned_value(text.drop_first())
    } else {
        unsigned_value(text)
    }
}

/// A run that starts with `count` digits, and goes on with something else
/// or ends there, has exactly `count` leading digits.
proof fn lemma_leading_digits(text: Seq<char>, count: nat)
    requires
        count <= text.len(),
        forall|i: int| 0 <= i < count ==> is_digit(#[trigger] text[i]),
        count < text.len() ==> !is_digit(text[count as int]),
    ensures
        leading_digits(text) == count,
    decreases count,
{
    if count > 0 {
        let rest = text.drop_first();
        assert forall|i: int| 0 <= i < count - 1 implies is_digit(#[trigger] rest[i]) by {
            assert(rest[i] == text[i + 1]);
        }
        lemma_leading_digits(rest, (count - 1) as nat);
    }
}

/// A run has at least as many leading digits as any stretch of digits it
/// starts with.
proof fn lemma_leading_digits_at_least(text: Seq<char>, count: nat)
    requires
        count <= text.len(),
        forall|i: int| 0 <= i < count ==> is_digit(#[trigger] text[i]),
    ensures
        count <= leading_digits(text) <= text.len(),
    decreases text.len(),
{
    if text.len() > 0 && is_digit(text.first()) {
        let rest = text.drop_first();
        if count > 0 {
            assert forall|i: int| 0 <= i < count - 1 implies is_digit(#[trigger] rest[i]) by {
                assert(rest[i] == text[i + 1]);
            }
            lemma_leading_digits_at_least(rest, (count - 1) as nat);
        } else {
            lemma_leading_digits_at_least(rest, 0);
        }
    }
}

/// Reading more of a run never gives a smaller number.
proof fn lemma_decimal_value_grows(text: Seq<char>, shorter: int, longer: int)
    requires
        0 <= shorter <= longer <= text.len(),
    ensures
        decimal_value(text.take(shorter)) <= decimal_value(text.take(longer)),
    decreases longer - shorter,
{
    if shorter < longer {
        lemma_decimal_value_grows(text, shorter, longer - 1);
        assert(text.take(longer).drop_last() == text.take(longer - 1));
    }
}

/// Reads `text` as a `u64`: one optional `+`, then decimal digits only.
pub fn parse_u64(text: &str) -> (parsed: Result<u64, ParseError>)
    ensures
        parsed == parsed_u64(text@),
{
    let mut value: u64 = 0;
    let mut plus = false;
    let mut first = true;
    let mut any = false;
    let ghost start: int = 0;
    let chars = text.chars();
    for c in it: chars
        invariant
            it.seq() == text@,
            first == (it.index() == 0),
            plus == (it.index() > 0 && text@[0] == '+'),
            start == if plus { 1int } else { 0int },
            start <= it.index() || it.index() == 0,
            any == (it.index() > start),
            forall|i: int| start <= i < it.index() ==> is_digit(#[trigger] text@[i]),
            it.index() > 0 ==> value == decimal_value(text@.subrange(start, it.index())),
            it.index() == 0 ==> value == 0,
    {
        let ghost at = it.index();
        let ghost body = text@.subrange(start, text@.len() as int);
        if first && c == '+' {
            plus = true;
            first = false;
            proof {
                start = 1;
            }
        } else {
            first = false;
            proof {
                assert(body.take(at - start) == text@.subrange(start, at));
                assert(body.take(at - start + 1) == text@.subrange(start, at + 1));
                assert(text@.subrange(start, at + 1).drop_last() == text@.subrange(start, at));
                assert(text@.subrange(start, at).len() == 0 ==> decimal_value(
                    text@.subrange(start, at),
                ) == 0);
                assert forall|i: int| 0 <= i < at - start implies is_digit(#[trigger] body[i]) by {
                    assert(body[i] == text@[start + i]);
                }
                assert(body == if plus {
                    text@.drop_first()
                } else {
                    text@
                });
            }
            if !('0' <= c && c <= '9') {
                proof {
                    lemma_leading_digits(body, (at - start) as nat);
                }
                return Err(ParseError::InvalidDigit);
            }
            let digit: u64 = (c as u32 - '0' as u32) as u64;
            let grown = match value.checked_mul(10) {
                Some(tenfold) => tenfold.checked_add(digit),
                None => None,
            };
            match grown {
                Some(next) => {
                    value = next;
                    any = true;
                },
                None => {
                    proof {
                        assert forall|i: int| 0 <= i < at - start + 1 implies is_digit(
                            #[trigger] body[i],
                        ) by {
                            assert(body[i] == text@[start + i]);
                        }
                        lemma_leading_digits_at_least(body, (at - start + 1) as nat);
                        lemma_decimal_value_grows(
                            body,
                            at - start + 1,
                            leading_digits(body) as int,
                        );
                    }
                    return Err(ParseError::PosOverflow);
                },
            }
        }
    }
    proof {
        let body = text@.subrange(start, text@.len() as int);
        assert(body == if plus {
            text@.drop_first()
        } else {
            text@
        });
        assert forall|i: int| 0 <= i < body.len() implies is_digit(#[trigger] body[i]) by {
            assert(body[i] == text@[start + i]);
        }
        lemma_leading_digits(body, body.len());
        assert(body.take(body.len() as int) == body);
    }
    if first {
        Err(ParseError::Empty)
    } else if !any {
        Err(ParseError::InvalidDigit)
    } else {
        Ok(value)
    }
}

/// The lower-case hexadecimal digit for `d`, which is below 16.
pub open spec fn hex_digit(d: nat) -> char {
    if d < 10 {
        ('0' as nat + d) as char
    } else {
        ('a' as nat + d - 10) as char
    }
}

/// `n` in lower-case hexadecimal digits, without leading zeros; zero is the
/// one digit `0`.
pub open spec fn hex_digits(n: nat) -> Seq<char>
    decreases n,
{
    if n < 16 {
        seq![hex_digit(n)]
    } else {
        hex_digits(n / 16).push(hex_digit(n % 16))
    }
}

/// `n` in lower-case hexadecimal digits, with spaces in front where the
/// digits are fewer than `width`.
pub open spec fn padded_hex(n: nat, width: nat) -> Seq<char> {
    let digits = hex_digits(n);
    if digits.len() < width {
        Seq::new((width - digits.len()) as nat, |i: int| ' ') + digits
    } else {
        digits
    }
}

/// The `k`-th power of 16.
pub open spec fn pow16(k: nat) -> nat
    decreases k,
{
    if k == 0 {
        1
    } else {
        16 * pow16((k - 1) as nat)
    }
}

/// A number below the `k`-th power of 16 has at most `k` hexadecimal digits,
/// and no number has none.
pub proof fn lemma_hex_digits_len(n: nat, k: nat)
    requires
        k >= 1,
        n < pow16(k),
    ensures
        1 <= hex_digits(n).len() <= k,
    decreases k,
{
    if n >= 16 {
        assert(pow16(1) == 16) by {
            reveal_with_fuel(pow16, 2);
        }
        lemma_hex_digits_len(n / 16, (k - 1) as nat);
    }
}

/// A 64-bit number has between one and sixteen hexadecimal digits, so that
/// padded to sixteen it has exactly sixteen characters.
pub proof fn lemma_padded_hex_u64(n: u64)
    ensures
        1 <= hex_digits(n as nat).len() <= 16,
        padded_hex(n as nat, 16).len() == 16,
{
    assert(pow16(16) == 0x1_0000_0000_0000_0000) by {
        reveal_with_fuel(pow16, 17);
    }
    lemma_hex_digits_len(n as nat, 16);
}

/// The lower-case hexadecimal digit for `d`.
fn hex_char(d: u8) -> (c: char)
    requires
        d < 16,
    ensures
        c == hex_digit(d as nat),
{
    if d < 10 {
        (48u8 + d) as char
    } else {
        (87u8 + d) as char
    }
}

/// Writes `n` in lower-case hexadecimal digits at the end of `text`,
/// right-aligned in a field of sixteen characters and padded with spaces.
pub fn push_hex16(text: &mut String, n: u64)
    ensures
        final(text)@ == old(text)@ + padded_hex(n as nat, 16),
        final(text)@.len() == old(text)@.len() + 16,
{
    let mut low: Vec<char> = Vec::new();
    let mut rest: u64 = n;
    while rest >= 16
        invariant
            hex_digits(n as nat) == hex_digits(rest as nat) + low@.reverse(),
        decreases rest,
    {
        let digit = hex_char((rest % 16) as u8);
        proof {
            assert(low@.push(digit).reverse() == seq![digit] + low@.reverse());
        }
        low.push(digit);
        rest = rest / 16;
    }
    let digit = hex_char(rest as u8);
    proof {
        assert(low@.push(digit).reverse() == seq![digit] + low@.reverse());
        lemma_padded_hex_u64(n);
    }
    low.push(digit);
    let ghost before = text@;
    let ghost digits = hex_digits(n as nat);
    let ghost fill = Seq::new((16 - digits.len()) as nat, |i: int| ' ');
    let mut width: usize = low.len();
    while width < 16
        invariant
            low@.len() <= width <= 16,
            text@ == before + fill.take(width - low@.len()),
            fill.len() == 16 - low@.len(),
            forall|i: int| 0 <= i < fill.len() ==> fill[i] == ' ',
        decreases 16 - width,
    {
        text.push(' ');
        width = width + 1;
    }
    let mut left: usize = low.len();
    while left > 0
        invariant
            left <= low@.len(),
            digits == low@.reverse(),
            text@ == before + fill + digits.take(low@.len() - left),
        decreases left,
    {
        left = left - 1;
        proof {
            assert(digits.take(low@.len() - left) == digits.take(low@.len() - left - 1).push(
                low@[left as int],
            ));
        }
        text.push(low[left]);
    }
}

/// What `String::push` does: the character is appended at the end of the
/// text, and nothing else changes.
pub assume_specification[ String::push ](text: &mut String, c: char)
    ensures
        final(text)@ == old(text)@.push(c),
;

} // verus!
