//! Byte layout of SMBus words and blocks.

use vstd::prelude::*;
use vstd::utf8::{decode_utf8, encode_utf8, encode_utf8_decode_utf8};

verus! {

/// Longest text, in bytes, that a block may carry.
pub const MAX_BLOCK_TEXT: usize = 31;

/// The two bytes of a word on the wire, least significant byte first.
pub open spec fn word_bytes(value: u16) -> Seq<u8> {
    seq![(value as int % 256) as u8, (value as int / 256) as u8]
}

/// The word that two bytes on the wire stand for.
pub open spec fn word_value(bytes: Seq<u8>) -> int {
    bytes[0] + 256 * bytes[1]
}

/// The bytes of a block on the wire: the length of the text, then the text in UTF-8.
pub open spec fn block_bytes(text: Seq<char>) -> Seq<u8> {
    seq![encode_utf8(text).len() as u8] + encode_utf8(text)
}

/// A buffer after `data` was written over its front.
pub open spec fn overwritten(buffer: Seq<u8>, data: Seq<u8>) -> Seq<u8> {
    data + buffer.skip(data.len() as int)
}

/// Writes `value` to the front of `out`, least significant byte first, and returns the number
/// of bytes written. A buffer of fewer than two bytes is left alone and 0 is returned.
pub fn append_word(out: &mut [u8], value: u16) -> (written: usize)
    ensures
        old(out)@.len() >= 2 ==> written == 2 && final(out)@ == overwritten(
            old(out)@,
            word_bytes(value),
        ),
        old(out)@.len() < 2 ==> written == 0 && final(out)@ == old(out)@,
        final(out)@.len() == old(out)@.len(),
        written == 2 ==> final(out)@[0] == value % 256 && final(out)@[1] == value / 256,
        forall|i: int| written <= i < old(out)@.len() ==> #[trigger] final(out)@[i] == old(out)@[i],
{
    if out.len() < 2 {
        return 0;
    }
    assert(value & 0xFF == value % 256 && value >> 8 == value / 256) by (bit_vector);
    out[0] = (value & 0xFF) as u8;
    out[1] = (value >> 8) as u8;
    assert(out@ =~= overwritten(old(out)@, word_bytes(value)));
    2
}

/// Writes `text` to the front of `out` as a block and returns the number of bytes written.
/// A text of more than [`MAX_BLOCK_TEXT`] bytes, or one that `out` has no room for, leaves the
/// buffer alone and gives 0.
pub fn append_block(out: &mut [u8], text: &str) -> (written: usize)
    ensures
        encode_utf8(text@).len() <= MAX_BLOCK_TEXT && block_bytes(text@).len() <= old(out)@.len()
            ==> written == block_bytes(text@).len() && final(out)@ == overwritten(
            old(out)@,
            block_bytes(text@),
        ),
        encode_utf8(text@).len() > MAX_BLOCK_TEXT || block_bytes(text@).len() > old(out)@.len()
            ==> written == 0 && final(out)@ == old(out)@,
        final(out)@.len() == old(out)@.len(),
        written > 0 <==> encode_utf8(text@).len() <= 31 && encode_utf8(text@).len() < old(
            out,
        )@.len(),
        written > 0 ==> written == 1 + encode_utf8(text@).len() && final(out)@[0] == encode_utf8(
            text@,
        ).len(),
        written > 0 ==> final(out)@.subrange(1, written as int) == encode_utf8(text@),
        forall|i: int| written <= i < old(out)@.len() ==> #[trigger] final(out)@[i] == old(out)@[i],
{
    let bytes = text.as_bytes();
    if bytes.len() > MAX_BLOCK_TEXT || out.len() < 1 + bytes.len() {
        return 0;
    }
    out[0] = bytes.len() as u8;
    let ghost block = block_bytes(text@);
    let mut i: usize = 0;
    while i < bytes.len()
        invariant
            i <= bytes@.len() <= MAX_BLOCK_TEXT,
            block.len() == 1 + bytes@.len() <= old(out)@.len(),
            block.skip(1) == bytes@,
            out@ == overwritten(old(out)@, block.take(1 + i)),
        decreases bytes@.len() - i,
    {
        out[1 + i] = bytes[i];
        assert(block.skip(1)[i as int] == block[1 + i]);
        i += 1;
    }
    assert(block.take(1 + i) =~= block);
    assert(out@.subrange(1, 1 + i as int) =~= bytes@);
    1 + bytes.len()
}

/// The word that the two bytes of a read stand for.
pub fn word_from_bytes(buf: [u8; 2]) -> (value: u16)
    ensures
        value == word_value(buf@),
        value == buf@[0] + 256 * buf@[1],
{
    (buf[0] as u16) + 256 * (buf[1] as u16)
}

/// Reading a word gives back the word that was written.
pub proof fn law_word_round_trip(value: u16)
    ensures
        word_bytes(value).len() == 2,
        word_value(word_bytes(value)) == value,
{
}

/// Writing the word that was read gives back the two bytes that it was read from.
pub proof fn law_word_bytes_round_trip(bytes: Seq<u8>)
    requires
        bytes.len() == 2,
    ensures
        0 <= word_value(bytes) <= u16::MAX,
        word_bytes(word_value(bytes) as u16) == bytes,
{
    assert(word_bytes(word_value(bytes) as u16) =~= bytes);
}

/// A block that was written holds the length of what follows its first byte, and decoding what
/// follows gives back the text.
pub proof fn law_block_round_trip(text: Seq<char>)
    requires
        encode_utf8(text).len() <= MAX_BLOCK_TEXT,
    ensures
        block_bytes(text)[0] == block_bytes(text).len() - 1,
        decode_utf8(block_bytes(text).skip(1)) == text,
{
    assert(block_bytes(text).skip(1) =~= encode_utf8(text));
    encode_utf8_decode_utf8(text);
}

/// A word goes out as its remainder modulo 256, then its quotient by 256.
pub proof fn law_word_layout(value: u16)
    ensures
        word_bytes(value).len() == 2,
        word_bytes(value)[0] == value % 256,
        word_bytes(value)[1] == value / 256,
{
}

/// Of the two bytes of a word the first counts once and the second 256 times: one more in the
/// first byte is one more in the word, one more in the second is 256 more.
pub proof fn law_word_weights(low: u8, high: u8)
    ensures
        word_value(seq![low, high]) == low + 256 * high,
        low < 255 ==> word_value(seq![(low + 1) as u8, high]) == word_value(seq![low, high]) + 1,
        high < 255 ==> word_value(seq![low, (high + 1) as u8]) == word_value(seq![low, high]) + 256,
{
}

/// A block is one byte longer than its text, and that byte is the length of the text.
pub proof fn law_block_layout(text: Seq<char>)
    requires
        encode_utf8(text).len() <= 31,
    ensures
        block_bytes(text).len() == 1 + encode_utf8(text).len(),
        block_bytes(text)[0] == encode_utf8(text).len(),
        forall|i: int|
            0 <= i < encode_utf8(text).len() ==> block_bytes(text)[1 + i] == #[trigger] encode_utf8(
                text,
            )[i],
{
}

/// Writing over the front of a buffer keeps its length and everything behind what was written.
pub proof fn law_overwritten(buffer: Seq<u8>, data: Seq<u8>, i: int)
    requires
        data.len() <= buffer.len(),
        0 <= i < buffer.len(),
    ensures
        overwritten(buffer, data).len() == buffer.len(),
        i < data.len() ==> overwritten(buffer, data)[i] == data[i],
        i >= data.len() ==> overwritten(buffer, data)[i] == buffer[i],
{
}

} // verus!
