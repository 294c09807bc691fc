//! Shader binaries: a byte stream of 32-bit words whose byte order the first
//! byte gives away.
//!
//! A module opens with the magic number `0x0723_0203`. Written little-endian
//! its first byte is `0x03`, written big-endian `0x07`; that byte alone
//! decides how every word is read. Bytes after the last whole word are
//! ignored.

use vstd::prelude::*;

verus! {

/// First byte of a module whose words are stored least significant byte first.
pub const LITTLE_ENDIAN_MARK: u8 = 0x03;

/// First byte of a module whose words are stored most significant byte first.
pub const BIG_ENDIAN_MARK: u8 = 0x07;

/// The magic number every module opens with.
pub const MAGIC: u32 = 0x0723_0203;

/// The order of the bytes within a word.
#[derive(Clone, Copy, Debug, PartialEq, Eq, Structural)]
pub enum Endianness {
    Little,
    Big,
}

/// Why a byte stream is not a shader binary.
#[derive(Clone, Copy, Debug, PartialEq, Eq, Structural)]
pub enum ShaderError {
    /// There is no first byte to tell the byte order from.
    Empty,
    /// The first byte is neither of the two marks.
    UnknownEndianness,
}

/// The byte order a stream announces.
pub open spec fn endianness_of(bytes: Seq<u8>) -> Result<Endianness, ShaderError> {
    if bytes.len() == 0 {
        Err(ShaderError::Empty)
    } else if bytes[0] == LITTLE_ENDIAN_MARK {
        Ok(Endianness::Little)
    } else if bytes[0] == BIG_ENDIAN_MARK {
        Ok(Endianness::Big)
    } else {
        Err(ShaderError::UnknownEndianness)
    }
}

/// The word made of four bytes in the order they are stored.
pub open spec fn word_of(b0: u8, b1: u8, b2: u8, b3: u8, order: Endianness) -> u32 {
    match order {
        Endianness::Little => (b0 + 0x100 * b1 + 0x1_0000 * b2 + 0x100_0000 * b3) as u32,
        Endianness::Big => (b3 + 0x100 * b2 + 0x1_0000 * b1 + 0x100_0000 * b0) as u32,
    }
}

/// The whole words of `bytes`, read in `order`.
pub open spec fn words_of(bytes: Seq<u8>, order: Endianness) -> Seq<u32> {
    Seq::new(
        (bytes.len() / 4) as nat,
        |i: int| word_of(bytes[4 * i], bytes[4 * i + 1], bytes[4 * i + 2], bytes[4 * i + 3], order),
    )
}

/// The words a stream holds, or why it holds none.
pub open spec fn decoded(bytes: Seq<u8>) -> Result<Seq<u32>, ShaderError> {
    match endianness_of(bytes) {
        Ok(order) => Ok(words_of(bytes, order)),
        Err(e) => Err(e),
    }
}

/// Reads the byte order off the first byte.
pub fn detect_endianness(bytes: &[u8]) -> (order: Result<Endianness, ShaderError>)
    ensures
        order == endianness_of(bytes@),
{
    if bytes.len() == 0 {
        Err(ShaderError::Empty)
    } else if bytes[0] == LITTLE_ENDIAN_MARK {
        Ok(Endianness::Little)
    } else if bytes[0] == BIG_ENDIAN_MARK {
        Ok(Endianness::Big)
    } else {
        Err(ShaderError::UnknownEndianness)
    }
}

/// Assembles one word from four stored bytes.
pub fn assemble_word(b0: u8, b1: u8, b2: u8, b3: u8, order: Endianness) -> (word: u32)
    ensures
        word == word_of(b0, b1, b2, b3, order),
        word == match order {
            Endianness::Little => b0 + 0x100 * b1 + 0x1_0000 * b2 + 0x100_0000 * b3,
            Endianness::Big => b3 + 0x100 * b2 + 0x1_0000 * b1 + 0x100_0000 * b0,
        },
{
    match order {
        Endianness::Little => b0 as u32 + 0x100 * (b1 as u32) + 0x1_0000 * (b2 as u32) + 0x100_0000
            * (b3 as u32),
        Endianness::Big => b3 as u32 + 0x100 * (b2 as u32) + 0x1_0000 * (b1 as u32) + 0x100_0000
            * (b0 as u32),
    }
}

/// Decodes a shader binary into its words.
///
/// Fails exactly when the stream is empty or opens with a byte that is
/// neither mark; otherwise every whole group of four bytes yields one word.
pub fn decode_spirv(bytes: &[u8]) -> (words: Result<Vec<u32>, ShaderError>)
    ensures
        match words {
            Ok(w) => decoded(bytes@) == Ok::<Seq<u32>, ShaderError>(w@),
            Err(e) => decoded(bytes@) == Err::<Seq<u32>, ShaderError>(e),
        },
        words is Ok <==> bytes@.len() > 0 && (bytes@[0] == LITTLE_ENDIAN_MARK || bytes@[0]
            == BIG_ENDIAN_MARK),
        words matches Ok(w) ==> w@.len() == bytes@.len() / 4,
{
    let order = match detect_endianness(bytes) {
        Ok(order) => order,
        Err(e) => {
            return Err(e);
        },
    };
    let count = bytes.len() / 4;
    let mut words: Vec<u32> = Vec::new();
    let mut i: usize = 0;
    while i < count
        invariant
            count == bytes@.len() / 4,
            bytes@.len() <= usize::MAX,
            i <= count,
            words@.len() == i,
            forall|j: int| 0 <= j < i ==> #[trigger] words@[j] == words_of(bytes@, order)[j],
        decreases count - i,
    {
        assert(4 * i + 3 < bytes@.len());
        let at = 4 * i;
        let word = assemble_word(bytes[at], bytes[at + 1], bytes[at + 2], bytes[at + 3], order);
        words.push(word);
        i += 1;
    }
    assert(words@ =~= words_of(bytes@, order));
    Ok(words)
}

/// The two byte orders mirror each other: four bytes read in one order give
/// the word that the same bytes, reversed, give in the other.
pub proof fn lemma_orders_mirror(b0: u8, b1: u8, b2: u8, b3: u8)
    ensures
        word_of(b0, b1, b2, b3, Endianness::Little) == word_of(b3, b2, b1, b0, Endianness::Big),
{
}

/// Nothing is lost in a word: groups of four bytes that differ give words
/// that differ.
pub proof fn lemma_word_keeps_its_bytes(
    b0: u8,
    b1: u8,
    b2: u8,
    b3: u8,
    c0: u8,
    c1: u8,
    c2: u8,
    c3: u8,
    order: Endianness,
)
    requires
        word_of(b0, b1, b2, b3, order) == word_of(c0, c1, c2, c3, order),
    ensures
        b0 == c0 && b1 == c1 && b2 == c2 && b3 == c3,
{
}

} // verus!
