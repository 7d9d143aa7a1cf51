use vstd::prelude::*;
use vstd::string::StringSliceAdditionalSpecFns;
use vstd::utf8::encode_utf8_decode_utf8;

verus! {

/// Whether two strings hold the same characters.
pub fn same_text(left: &str, right: &str) -> (same: bool)
    ensures
        same == (left@ == right@),
{
    let left_bytes = left.as_bytes();
    let right_bytes = right.as_bytes();
    proof {
        encode_utf8_decode_utf8(left@);
        encode_utf8_decode_utf8(right@);
    }
    if left_bytes.len() != right_bytes.len() {
        return false;
    }
    let mut i: usize = 0;
    while i < left_bytes.len()
        invariant
            left_bytes@ == left.spec_bytes(),
            right_bytes@ == right.spec_bytes(),
            left_bytes@.len() == right_bytes@.len(),
            i <= left_bytes@.len(),
            forall|j: int| 0 <= j < i ==> left_bytes@[j] == right_bytes@[j],
        decreases left_bytes@.len() - i,
    {
        if left_bytes[i] != right_bytes[i] {
            proof {
                assert(left.spec_bytes()[i as int] != right.spec_bytes()[i as int]);
            }
            return false;
        }
        i += 1;
    }
    assert(left_bytes@ =~= right_bytes@);
    true
}

/// `String::push` appends one character to the end of a string and leaves
/// the characters before it as they are.
pub assume_specification[ String::push ](text: &mut String, ch: char)
    ensures
        final(text)@ == old(text)@.push(ch),
;

/// The character of a decimal digit.
pub open spec fn digit_char(digit: int) -> char {
    (digit + 48) as u8 as char
}

/// A number written in decimal digits, without leading zeros.
pub open spec fn decimal(number: nat) -> Seq<char>
    decreases number,
{
    if number < 10 {
        seq![digit_char(number as int)]
    } else {
        decimal(number / 10).push(digit_char(number as int % 10))
    }
}

/// Appends a number in decimal digits to a string.
pub fn write_decimal(text: &mut String, number: usize)
    ensures
        final(text)@ == old(text)@ + decimal(number as nat),
    decreases number,
{
    if number >= 10 {
        write_decimal(text, number / 10);
    }
    let digit: u8 = (number % 10) as u8;
    text.push((digit + 48) as char);
    proof {
        assert(text@ =~= old(text)@ + decimal(number as nat));
    }
}

} // verus!
