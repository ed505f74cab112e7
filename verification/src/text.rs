//! The caption shown for a reading, written into a fixed-capacity buffer.

use crate::channel::Reading;
use core::fmt::Write;
use vstd::prelude::*;
use vstd::utf8::*;

verus! {

/// Bytes that the caption buffer can hold: the label plus the longest reading.
pub const TEXT_CAPACITY: usize = 10;

/// The caption buffer: a string with inline storage for `TEXT_CAPACITY` bytes.
pub type TextBuffer = heapless::String<TEXT_CAPACITY>;

#[verifier::external_type_specification]
#[verifier::external_body]
pub struct ExInlineString<const N: usize>(heapless::String<N>);

/// The characters held by a caption buffer, in order.
pub uninterp spec fn buffer_text(buffer: heapless::String<10>) -> Seq<char>;

/// The character for a single decimal digit.
pub open spec fn digit(d: int) -> char {
    seq!['0', '1', '2', '3', '4', '5', '6', '7', '8', '9'][d]
}

/// Decimal notation of `n`, most significant digit first, without padding.
pub open spec fn decimal(n: nat) -> Seq<char>
    decreases n,
{
    if n < 10 {
        seq![digit(n as int)]
    } else {
        decimal(n / 10).push(digit((n % 10) as int))
    }
}

/// The constant text in front of every reading.
pub open spec fn label() -> Seq<char> {
    seq!['C', 'O', '2', ':', ' ']
}

/// The full caption for a reading: the label followed by the value in decimal.
pub open spec fn caption(reading: Reading) -> Seq<char> {
    label() + decimal(reading as nat)
}

/// `heapless::String::new`: a buffer that holds no characters.
#[verifier::external_body]
fn empty_buffer() -> (buffer: heapless::String<10>)
    ensures
        buffer_text(buffer) == Seq::<char>::empty(),
{
    heapless::String::new()
}

/// `heapless::String::push_str`: when the UTF-8 bytes of `text` fit into what
/// is left of the buffer's capacity, they are appended; otherwise the call
/// fails and the buffer keeps its contents.
#[verifier::external_body]
fn push_text(buffer: &mut heapless::String<10>, text: &str) -> (pushed: Result<(), ()>)
    ensures
        pushed is Ok <==> encode_utf8(buffer_text(*old(buffer))).len() + encode_utf8(text@).len()
            <= TEXT_CAPACITY,
        pushed is Ok ==> buffer_text(*final(buffer)) == buffer_text(*old(buffer)) + text@,
        pushed is Err ==> buffer_text(*final(buffer)) == buffer_text(*old(buffer)),
{
    buffer.push_str(text)
}

/// `core::fmt::Write::write_fmt` on a `heapless::String`, for one `u16` shown
/// with `{}`: the decimal digits are appended when they fit into what is left
/// of the buffer's capacity, and the call fails when they do not. Nothing is
/// claimed about the contents after a failure.
#[verifier::external_body]
fn push_decimal(buffer: &mut heapless::String<10>, value: u16) -> (fits: bool)
    ensures
        fits <==> encode_utf8(buffer_text(*old(buffer))).len() + decimal(value as nat).len()
            <= TEXT_CAPACITY,
        fits ==> buffer_text(*final(buffer)) == buffer_text(*old(buffer)) + decimal(value as nat),
{
    write!(buffer, "{}", value).is_ok()
}

/// Every character of a number in decimal notation is an ASCII digit.
pub proof fn lemma_decimal_is_ascii(n: nat)
    ensures
        is_ascii_chars(decimal(n)),
        decimal(n).len() >= 1,
    decreases n,
{
    if n >= 10 {
        lemma_decimal_is_ascii(n / 10);
    }
}

/// A 16-bit value has at most five decimal digits.
pub proof fn lemma_decimal_len(value: u16)
    ensures
        1 <= decimal(value as nat).len() <= 5,
{
    reveal_with_fuel(decimal, 6);
}

/// The caption of any reading is ASCII and fits the caption buffer.
pub proof fn lemma_caption_fits(reading: Reading)
    ensures
        is_ascii_chars(caption(reading)),
        6 <= caption(reading).len() <= TEXT_CAPACITY,
        encode_utf8(caption(reading)).len() == caption(reading).len(),
{
    lemma_decimal_is_ascii(reading as nat);
    lemma_decimal_len(reading);
    is_ascii_chars_encode_utf8(caption(reading));
}

/// Writes the caption for `reading` into a fresh buffer.
///
/// The buffer's capacity covers the label and the five digits that the largest
/// reading needs, so the caption is always complete.
pub fn format_reading(reading: Reading) -> (text: TextBuffer)
    ensures
        buffer_text(text) == caption(reading),
{
    let mut text = empty_buffer();
    proof {
        reveal_strlit("CO2: ");
        assert("CO2: "@ =~= label());
        assert(encode_utf8(Seq::<char>::empty()).len() == 0);
        is_ascii_chars_encode_utf8(label());
        lemma_decimal_len(reading);
    }
    let _ = push_text(&mut text, "CO2: ");
    let _ = push_decimal(&mut text, reading);
    text
}

} // verus!
