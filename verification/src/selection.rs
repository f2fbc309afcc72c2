//! The text by which a driver tells its child which test to run: sixteen
//! upper-case hexadecimal digits of the site digest, a colon, and the test
//! name.

use crate::identity::IdentityView;
use crate::identity::TestIdentity;
use vstd::prelude::*;
use vstd::string::StrSliceExecFns;
use vstd::string::StringExecFns;

verus! {

/// `String::push` appends one character at the end of the string.
pub assume_specification[ String::push ](s: &mut String, c: char)
    ensures
        final(s)@ == old(s)@.push(c),
;

/// Number of hexadecimal digits of a site digest.
pub const DIGEST_WIDTH: usize = 16;

/// Sixteen to the power `n`.
pub open spec fn pow16(n: nat) -> nat
    decreases n,
{
    if n == 0 {
        1
    } else {
        16 * pow16((n - 1) as nat)
    }
}

/// The upper-case hexadecimal digit that stands for `v`.
pub open spec fn digit_char(v: nat) -> char
    recommends
        v < 16,
{
    if v < 10 {
        (48 + v) as u8 as char
    } else {
        (55 + v) as u8 as char
    }
}

/// The value of an upper-case hexadecimal digit; `None` for any other
/// character.
pub open spec fn digit_value(c: char) -> Option<nat> {
    let code = c as u32;
    if 48 <= code <= 57 {
        Some((code - 48) as nat)
    } else if 65 <= code <= 70 {
        Some((code - 55) as nat)
    } else {
        None
    }
}

/// `value` written with exactly `width` hexadecimal digits, most
/// significant first; digits beyond `width` are cut off.
pub open spec fn hex_digits(value: nat, width: nat) -> Seq<char>
    decreases width,
{
    if width == 0 {
        Seq::empty()
    } else {
        hex_digits(value / 16, (width - 1) as nat).push(digit_char(value % 16))
    }
}

/// The number that `digits` writes in upper-case hexadecimal; `None` if
/// one of them is no such digit.
pub open spec fn hex_number(digits: Seq<char>) -> Option<nat>
    decreases digits.len(),
{
    if digits.len() == 0 {
        Some(0)
    } else {
        match (hex_number(digits.drop_last()), digit_value(digits.last())) {
            (Some(high), Some(low)) => Some(high * 16 + low),
            _ => None,
        }
    }
}

/// The selection text of an identity.
pub open spec fn encoded(id: IdentityView) -> Seq<char> {
    hex_digits(id.site as nat, 16) + seq![':'] + id.name
}

/// The identity that a selection text names; `None` if the text is not of
/// the form that `encoded` writes.
pub open spec fn decoded(text: Seq<char>) -> Option<IdentityView> {
    if text.len() >= 17 && text[16] == ':' {
        match hex_number(text.subrange(0, 16)) {
            Some(site) => Some(
                IdentityView { site: site as u64, name: text.subrange(17, text.len() as int) },
            ),
            None => None,
        }
    } else {
        None
    }
}

/// `pow16` at the width of a digest is two to the power 64.
pub proof fn lemma_pow16_width()
    ensures
        pow16(16) == 0x1_0000_0000_0000_0000,
        pow16(15) == 0x1000_0000_0000_0000,
{
    reveal_with_fuel(pow16, 17);
}

/// `pow16` does not fall as its argument grows.
pub proof fn lemma_pow16_grows(low: nat, high: nat)
    requires
        low <= high,
    ensures
        pow16(low) <= pow16(high),
    decreases high,
{
    if low < high {
        lemma_pow16_grows(low, (high - 1) as nat);
    }
}

/// `hex_digits` writes `width` characters.
pub proof fn lemma_hex_digits_len(value: nat, width: nat)
    ensures
        hex_digits(value, width).len() == width,
    decreases width,
{
    if width > 0 {
        lemma_hex_digits_len(value / 16, (width - 1) as nat);
    }
}

/// A digit character stands for the value it was written from.
pub proof fn lemma_digit_round_trip(v: nat)
    requires
        v < 16,
    ensures
        digit_value(digit_char(v)) == Some(v),
{
}

/// A character with a digit value is the digit written from that value.
pub proof fn lemma_digit_canonical(c: char)
    requires
        digit_value(c).is_some(),
    ensures
        digit_value(c).unwrap() < 16,
        digit_char(digit_value(c).unwrap()) == c,
{
    assert(((c as u32) as u8) as char == c);
}

/// Reading back what `hex_digits` wrote gives the value, where it fits the
/// width.
pub proof fn lemma_number_of_digits(value: nat, width: nat)
    requires
        value < pow16(width),
    ensures
        hex_number(hex_digits(value, width)) == Some(value),
    decreases width,
{
    if width > 0 {
        let high = value / 16;
        let low = value % 16;
        let rest = hex_digits(high, (width - 1) as nat);
        lemma_number_of_digits(high, (width - 1) as nat);
        lemma_digit_round_trip(low);
        assert(hex_digits(value, width).drop_last() =~= rest);
        assert(hex_digits(value, width).last() == digit_char(low));
    }
}

/// Digits that read as a number are the digits `hex_digits` writes for it,
/// and the number fits their width.
pub proof fn lemma_digits_of_number(digits: Seq<char>)
    requires
        hex_number(digits).is_some(),
    ensures
        hex_number(digits).unwrap() < pow16(digits.len()),
        hex_digits(hex_number(digits).unwrap(), digits.len()) == digits,
    decreases digits.len(),
{
    if digits.len() > 0 {
        let front = digits.drop_last();
        lemma_digits_of_number(front);
        lemma_digit_canonical(digits.last());
        let high = hex_number(front).unwrap();
        let low = digit_value(digits.last()).unwrap();
        assert((high * 16 + low) / 16 == high);
        assert((high * 16 + low) % 16 == low);
        assert(hex_digits(high * 16 + low, digits.len()) =~= front.push(digits.last()));
        assert(front.push(digits.last()) =~= digits);
    }
}

/// Decoding the selection text of an identity gives that identity back.
pub proof fn lemma_decode_encoded(id: IdentityView)
    ensures
        decoded(encoded(id)) == Some(id),
{
    let digits = hex_digits(id.site as nat, 16);
    let text = encoded(id);
    lemma_hex_digits_len(id.site as nat, 16);
    lemma_pow16_width();
    lemma_number_of_digits(id.site as nat, 16);
    assert(text.subrange(0, 16) =~= digits);
    assert(text.subrange(17, text.len() as int) =~= id.name);
    assert(text[16] == ':');
}

/// A text that decodes is the selection text of what it decodes to.
pub proof fn lemma_encode_decoded(text: Seq<char>)
    requires
        decoded(text).is_some(),
    ensures
        encoded(decoded(text).unwrap()) == text,
{
    let digits = text.subrange(0, 16);
    lemma_digits_of_number(digits);
    lemma_pow16_width();
    let site = hex_number(digits).unwrap();
    assert(site as u64 as nat == site);
    assert(encoded(decoded(text).unwrap()) =~= text);
}

/// Two identities with the same selection text are the same identity.
pub proof fn lemma_encoding_injective(a: IdentityView, b: IdentityView)
    requires
        encoded(a) == encoded(b),
    ensures
        a == b,
{
    lemma_decode_encoded(a);
    lemma_decode_encoded(b);
}

/// Digits of which one is no hexadecimal digit read as no number.
pub proof fn lemma_stray_character(digits: Seq<char>, at: int)
    requires
        0 <= at < digits.len(),
        digit_value(digits[at]).is_none(),
    ensures
        hex_number(digits).is_none(),
    decreases digits.len(),
{
    if at < digits.len() - 1 {
        lemma_stray_character(digits.drop_last(), at);
    }
}

/// The digit character for a value below sixteen.
fn hex_char(v: u8) -> (c: char)
    requires
        v < 16,
    ensures
        c == digit_char(v as nat),
{
    if v < 10 {
        (48 + v) as char
    } else {
        (55 + v) as char
    }
}

/// The value of a digit character, if it is one.
fn hex_value(c: char) -> (v: Option<u8>)
    ensures
        match v {
            Some(d) => digit_value(c) == Some(d as nat),
            None => digit_value(c).is_none(),
        },
{
    let code = c as u32;
    if 48 <= code && code <= 57 {
        Some((code - 48) as u8)
    } else if 65 <= code && code <= 70 {
        Some((code - 55) as u8)
    } else {
        None
    }
}

/// Appends `value` to `out` in `width` hexadecimal digits.
fn push_hex(out: &mut String, value: u64, width: usize)
    ensures
        final(out)@ == old(out)@ + hex_digits(value as nat, width as nat),
    decreases width,
{
    if width > 0 {
        push_hex(out, value / 16, width - 1);
        out.push(hex_char((value % 16) as u8));
        assert(final(out)@ =~= old(out)@ + hex_digits(value as nat, width as nat));
    } else {
        assert(out@ =~= old(out)@ + hex_digits(value as nat, width as nat));
    }
}

/// Writes the selection text of `identity`.
pub fn encode(identity: &TestIdentity) -> (text: String)
    ensures
        text@ == encoded(identity@),
{
    let mut text = String::new();
    push_hex(&mut text, identity.site, DIGEST_WIDTH);
    text.push(':');
    text.append(identity.test_name.as_str());
    assert(text@ =~= encoded(identity@));
    text
}

/// Reads a selection text. Succeeds exactly on the texts that `encode`
/// writes, and then gives the identity that was encoded.
pub fn decode(text: &str) -> (r: Option<TestIdentity>)
    ensures
        match r {
            Some(id) => decoded(text@) == Some(id@),
            None => decoded(text@).is_none(),
        },
{
    let len = text.unicode_len();
    if len <= DIGEST_WIDTH {
        return None;
    }
    if text.get_char(DIGEST_WIDTH) != ':' {
        return None;
    }
    let ghost digits = text@.subrange(0, 16);
    let mut site: u64 = 0;
    let mut i: usize = 0;
    while i < DIGEST_WIDTH
        invariant
            i <= 16,
            len == text@.len(),
            len >= 17,
            digits == text@.subrange(0, 16),
            hex_number(digits.subrange(0, i as int)) == Some(site as nat),
            site < pow16(i as nat),
        decreases 16 - i,
    {
        let c = text.get_char(i);
        match hex_value(c) {
            None => {
                proof {
                    lemma_stray_character(digits, i as int);
                }
                return None;
            },
            Some(d) => {
                proof {
                    lemma_pow16_width();
                    lemma_pow16_grows(i as nat, 15);
                    let next = digits.subrange(0, i + 1);
                    assert(next.drop_last() =~= digits.subrange(0, i as int));
                    assert(next.last() == c);
                }
                site = site * 16 + d as u64;
            },
        }
        i += 1;
    }
    assert(digits.subrange(0, 16) =~= digits);
    let name = text.substring_char(DIGEST_WIDTH + 1, len);
    Some(TestIdentity { site, test_name: name.to_owned() })
}

} // verus!
