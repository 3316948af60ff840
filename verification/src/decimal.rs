//! Reading unsigned decimal numbers from text, as Rust's `str::parse` does
//! for unsigned integer types.

use vstd::prelude::*;

verus! {

/// An ASCII digit `0`..=`9`.
pub open spec fn is_digit(byte: u8) -> bool {
    48 <= byte <= 57
}

pub open spec fn all_digits(bytes: Seq<u8>) -> bool {
    forall|i: int| 0 <= i < bytes.len() ==> is_digit(#[trigger] bytes[i])
}

/// The number that a run of digits spells, most significant first.
pub open spec fn digits_value(bytes: Seq<u8>) -> nat
    decreases bytes.len(),
{
    if bytes.len() == 0 {
        0
    } else {
        digits_value(bytes.drop_last()) * 10 + (bytes.last() - 48) as nat
    }
}

/// The digits of an unsigned decimal: the text without one leading `+`,
/// when something follows it.
pub open spec fn unsigned_digits(bytes: Seq<u8>) -> Seq<u8> {
    if bytes.len() > 1 && bytes[0] == 43 {
        bytes.drop_first()
    } else {
        bytes
    }
}

/// The number that `bytes` spells as an unsigned decimal: an optional
/// leading `+` and then one or more ASCII digits.
pub open spec fn unsigned_decimal(bytes: Seq<u8>) -> Option<nat> {
    let digits = unsigned_digits(bytes);
    if digits.len() > 0 && all_digits(digits) {
        Some(digits_value(digits))
    } else {
        None
    }
}

/// The value of `text` as an unsigned decimal no greater than `max`.
pub open spec fn bounded_decimal(text: Seq<char>, max: nat) -> Option<nat> {
    match unsigned_decimal(vstd::utf8::encode_utf8(text)) {
        Some(value) => if value <= max {
            Some(value)
        } else {
            None
        },
        None => None,
    }
}

/// A longer run of digits never spells a smaller number.
proof fn lemma_digits_value_prefix(bytes: Seq<u8>, k: int)
    requires
        0 <= k <= bytes.len(),
        all_digits(bytes),
    ensures
        digits_value(bytes.take(k)) <= digits_value(bytes),
    decreases bytes.len(),
{
    if k < bytes.len() {
        let shorter = bytes.drop_last();
        assert(shorter.take(k) =~= bytes.take(k));
        lemma_digits_value_prefix(shorter, k);
    } else {
        assert(bytes.take(k) =~= bytes);
    }
}

/// Reads `text` as an unsigned decimal no greater than `max`.
pub fn parse_bounded(text: &str, max: u64) -> (value: Option<u64>)
    ensures
        match bounded_decimal(text@, max as nat) {
            Some(v) => value == Some(v as u64),
            None => value is None,
        },
{
    let bytes = text.as_bytes();
    let ghost all = bytes@;
    let n = bytes.len();
    let start: usize = if n > 1 && bytes[0] == 43u8 {
        1
    } else {
        0
    };
    let ghost digits = unsigned_digits(all);
    assert(digits =~= all.subrange(start as int, n as int));
    if start == n {
        return None;
    }
    let mut acc: u64 = 0;
    let mut i: usize = start;
    while i < n
        invariant
            all == bytes@,
            all == vstd::utf8::encode_utf8(text@),
            digits == unsigned_digits(all),
            n == all.len(),
            start <= i <= n,
            digits =~= all.subrange(start as int, n as int),
            all_digits(digits.take(i - start)),
            acc as nat == digits_value(digits.take(i - start)),
            acc <= max,
        decreases n - i,
    {
        let byte = bytes[i];
        if byte < 48u8 || byte > 57u8 {
            assert(!is_digit(digits[i - start]));
            return None;
        }
        let next: u128 = (acc as u128) * 10 + ((byte - 48u8) as u128);
        proof {
            let k = (i - start) as int;
            assert(digits.take(k + 1).drop_last() =~= digits.take(k));
            assert(all_digits(digits.take(k + 1)));
        }
        if next > max as u128 {
            proof {
                let k = (i - start) as int;
                if all_digits(digits) {
                    lemma_digits_value_prefix(digits, k + 1);
                }
            }
            return None;
        }
        acc = next as u64;
        i = i + 1;
    }
    assert(digits.take(n - start) =~= digits);
    Some(acc)
}

/// The decimal digit character for `d` in `0..10`.
pub open spec fn digit_char(d: nat) -> char {
    (48 + d) as char
}

/// The decimal form of `n`: its digits, most significant first, without
/// leading zeros.
pub open spec fn decimal_text(n: nat) -> Seq<char>
    decreases n,
{
    if n < 10 {
        seq![digit_char(n)]
    } else {
        decimal_text(n / 10).push(digit_char(n % 10))
    }
}

/// The decimal form of a signed integer: a `-` before the digits of a
/// negative one.
pub open spec fn signed_decimal_text(n: int) -> Seq<char> {
    if n < 0 {
        seq!['-'] + decimal_text((-n) as nat)
    } else {
        decimal_text(n as nat)
    }
}

/// The number that a run of digit characters spells.
pub open spec fn char_digits_value(text: Seq<char>) -> nat
    decreases text.len(),
{
    if text.len() == 0 {
        0
    } else {
        char_digits_value(text.drop_last()) * 10 + (text.last() as nat - 48) as nat
    }
}

/// The decimal form of a number is a nonempty run of digits that spells
/// the number back.
pub proof fn lemma_decimal_text_reads_back(n: nat)
    ensures
        decimal_text(n).len() > 0,
        forall|i: int|
            0 <= i < decimal_text(n).len() ==> '0' <= #[trigger] decimal_text(n)[i] <= '9',
        char_digits_value(decimal_text(n)) == n,
    decreases n,
{
    assert(digit_char(n % 10) as nat == 48 + n % 10);
    if n >= 10 {
        lemma_decimal_text_reads_back(n / 10);
        let prefix = decimal_text(n / 10);
        assert(decimal_text(n).drop_last() =~= prefix);
    } else {
        assert(decimal_text(n).drop_last() =~= Seq::<char>::empty());
        assert(char_digits_value(Seq::<char>::empty()) == 0);
    }
}

/// The UTF-8 encoding of the decimal form of a number is one ASCII digit
/// per character, and those digits spell the number.
proof fn lemma_decimal_text_bytes(n: nat)
    ensures
        vstd::utf8::encode_utf8(decimal_text(n)).len() == decimal_text(n).len(),
        all_digits(vstd::utf8::encode_utf8(decimal_text(n))),
        digits_value(vstd::utf8::encode_utf8(decimal_text(n))) == n,
    decreases n,
{
    lemma_decimal_text_reads_back(n);
    let text = decimal_text(n);
    assert forall|i: int| 0 <= i < text.len() implies #[trigger] text[i] as u32 <= 0x7F by {
        assert('0' <= text[i] <= '9');
    }
    crate::models::requests::lemma_ascii_chars_encoding(text);
    let bytes = vstd::utf8::encode_utf8(text);
    assert forall|i: int| 0 <= i < bytes.len() implies is_digit(#[trigger] bytes[i]) by {
        assert(text[i] as u32 == bytes[i]);
        assert('0' <= text[i] <= '9');
    }
    let last = bytes.len() - 1;
    assert(text[last] == digit_char(n % 10));
    assert(digit_char(n % 10) as u32 == 48 + n % 10);
    assert(bytes[last] == 48 + n % 10);
    if n < 10 {
        assert(bytes.drop_last() =~= Seq::<u8>::empty());
        assert(n / 10 == 0);
    } else {
        let prefix = decimal_text(n / 10);
        lemma_decimal_text_bytes(n / 10);
        lemma_decimal_text_reads_back(n / 10);
        assert forall|i: int| 0 <= i < prefix.len() implies #[trigger] prefix[i] as u32 <= 0x7F by {
            assert('0' <= prefix[i] <= '9');
        }
        crate::models::requests::lemma_ascii_chars_encoding(prefix);
        assert forall|i: int| 0 <= i < prefix.len() implies vstd::utf8::encode_utf8(prefix)[i]
            == #[trigger] bytes.drop_last()[i] by {
            assert(prefix[i] == text[i]);
            assert(text[i] as u32 == bytes[i]);
        }
        assert(bytes.drop_last() =~= vstd::utf8::encode_utf8(prefix));
        assert(digits_value(bytes.drop_last()) == n / 10);
    }
    assert(bytes.last() == bytes[last]);
    assert(digits_value(bytes) == digits_value(bytes.drop_last()) * 10 + (bytes.last() - 48) as nat);
    assert((n / 10) * 10 + n % 10 == n);
}

/// Parsing the decimal form of a number gives the number back, under every
/// bound that it does not exceed, and nothing above the bound.
pub proof fn lemma_decimal_text_parses_back(n: nat, max: nat)
    ensures
        bounded_decimal(decimal_text(n), max) == if n <= max {
            Some(n)
        } else {
            None::<nat>
        },
{
    lemma_decimal_text_bytes(n);
    lemma_decimal_text_reads_back(n);
    let bytes = vstd::utf8::encode_utf8(decimal_text(n));
    assert(is_digit(bytes[0]));
    assert(unsigned_digits(bytes) == bytes);
}

/// Different numbers have different decimal forms.
pub proof fn lemma_decimal_text_injective(a: nat, b: nat)
    ensures
        decimal_text(a) == decimal_text(b) ==> a == b,
{
    lemma_decimal_text_reads_back(a);
    lemma_decimal_text_reads_back(b);
}

/// Different integers have different signed decimal forms, none of which
/// holds a `:`.
pub proof fn lemma_signed_decimal_text_injective(a: int, b: int)
    ensures
        signed_decimal_text(a) == signed_decimal_text(b) ==> a == b,
        forall|i: int|
            0 <= i < signed_decimal_text(a).len() ==> #[trigger] signed_decimal_text(a)[i] != ':',
{
    lemma_decimal_text_reads_back((if a < 0 { -a } else { a }) as nat);
    lemma_decimal_text_reads_back((if b < 0 { -b } else { b }) as nat);
    if signed_decimal_text(a) == signed_decimal_text(b) {
        if a < 0 && b < 0 {
            assert(decimal_text((-a) as nat) =~= signed_decimal_text(a).drop_first());
            assert(decimal_text((-b) as nat) =~= signed_decimal_text(b).drop_first());
            lemma_decimal_text_injective((-a) as nat, (-b) as nat);
        } else if a < 0 {
            assert(signed_decimal_text(a)[0] == '-');
            assert(signed_decimal_text(b)[0] == decimal_text(b as nat)[0]);
        } else if b < 0 {
            assert(signed_decimal_text(b)[0] == '-');
            assert(signed_decimal_text(a)[0] == decimal_text(a as nat)[0]);
        } else {
            lemma_decimal_text_injective(a as nat, b as nat);
        }
    }
    assert forall|i: int| 0 <= i < signed_decimal_text(a).len() implies #[trigger] signed_decimal_text(a)[i] != ':' by {
        if a < 0 {
            if i > 0 {
                assert(signed_decimal_text(a)[i] == decimal_text((-a) as nat)[i - 1]);
            }
        }
    }
}

fn digit_str(d: u128) -> (text: &'static str)
    requires
        d < 10,
    ensures
        text@ == seq![digit_char(d as nat)],
{
    proof {
        reveal_strlit("0");
        reveal_strlit("1");
        reveal_strlit("2");
        reveal_strlit("3");
        reveal_strlit("4");
        reveal_strlit("5");
        reveal_strlit("6");
        reveal_strlit("7");
        reveal_strlit("8");
        reveal_strlit("9");
    }
    let text = if d == 0 {
        "0"
    } else if d == 1 {
        "1"
    } else if d == 2 {
        "2"
    } else if d == 3 {
        "3"
    } else if d == 4 {
        "4"
    } else if d == 5 {
        "5"
    } else if d == 6 {
        "6"
    } else if d == 7 {
        "7"
    } else if d == 8 {
        "8"
    } else {
        "9"
    };
    assert(text@ =~= seq![digit_char(d as nat)]);
    text
}

/// Appends the decimal form of `n` to `out`.
pub fn push_decimal(out: &mut String, n: u128)
    ensures
        final(out)@ == old(out)@ + decimal_text(n as nat),
    decreases n,
{
    if n >= 10 {
        push_decimal(out, n / 10);
    }
    out.append(digit_str(n % 10));
    proof {
        assert(old(out)@ + decimal_text(n as nat) =~= if n >= 10 {
            old(out)@ + decimal_text((n / 10) as nat) + seq![digit_char((n % 10) as nat)]
        } else {
            old(out)@ + seq![digit_char((n % 10) as nat)]
        });
    }
}

/// Appends the decimal form of the signed integer `n` to `out`.
pub fn push_signed_decimal(out: &mut String, n: i128)
    ensures
        final(out)@ == old(out)@ + signed_decimal_text(n as int),
{
    if n < 0 {
        out.append("-");
        proof {
            reveal_strlit("-");
        }
        let magnitude: u128 = if n == i128::MIN {
            (i128::MAX as u128) + 1
        } else {
            (-n) as u128
        };
        push_decimal(out, magnitude);
        assert(final(out)@ =~= old(out)@ + signed_decimal_text(n as int));
    } else {
        push_decimal(out, n as u128);
    }
}

} // verus!
