use crate::driver::read_spv;
use vstd::prelude::*;

verus! {

/// The first word of every SPIR-V module.
pub const SPIRV_MAGIC: u32 = 0x0723_0203;

/// Why bytes are no SPIR-V module.
#[derive(Clone, Copy, Debug, PartialEq, Eq, Structural)]
pub enum ShaderError {
    /// The number of bytes is no multiple of four.
    NotWords,
    /// The first word is not the magic number, in either byte order, or
    /// there is no word at all.
    MissingMagic,
}

/// The word `index` of `bytes`, its first byte lowest.
pub open spec fn word_le(bytes: Seq<u8>, index: int) -> u32 {
    (bytes[4 * index] as u32) | ((bytes[4 * index + 1] as u32) << 8u32) | ((bytes[4 * index
        + 2] as u32) << 16u32) | ((bytes[4 * index + 3] as u32) << 24u32)
}

/// The word `index` of `bytes`, its first byte highest.
pub open spec fn word_be(bytes: Seq<u8>, index: int) -> u32 {
    (bytes[4 * index + 3] as u32) | ((bytes[4 * index + 2] as u32) << 8u32) | ((bytes[4 * index
        + 1] as u32) << 16u32) | ((bytes[4 * index] as u32) << 24u32)
}

/// The bytes are whole words.
pub open spec fn is_words(bytes: Seq<u8>) -> bool {
    bytes.len() % 4 == 0
}

/// The bytes begin with the magic number, in one byte order or the other.
pub open spec fn has_magic(bytes: Seq<u8>) -> bool {
    bytes.len() >= 4 && (word_le(bytes, 0) == SPIRV_MAGIC || word_be(bytes, 0) == SPIRV_MAGIC)
}

/// The bytes are a SPIR-V module.
pub open spec fn is_spirv(bytes: Seq<u8>) -> bool {
    is_words(bytes) && has_magic(bytes)
}

/// The words of a SPIR-V module, read in the byte order in which its
/// first word is the magic number.
pub open spec fn spirv_words(bytes: Seq<u8>) -> Seq<u32> {
    Seq::new(
        (bytes.len() / 4) as nat,
        |i: int|
            if word_le(bytes, 0) == SPIRV_MAGIC {
                word_le(bytes, i)
            } else {
                word_be(bytes, i)
            },
    )
}

/// Reads the words of a compiled shader from the bytes of its file.
pub fn decode_shader(bytes: &Vec<u8>) -> (r: Result<Vec<u32>, ShaderError>)
    ensures
        match r {
            Ok(words) => is_spirv(bytes@) && words@ == spirv_words(bytes@),
            Err(ShaderError::NotWords) => !is_words(bytes@),
            Err(ShaderError::MissingMagic) => is_words(bytes@) && !has_magic(bytes@),
        },
{
    match read_spv(bytes.as_slice()) {
        Some(words) => Ok(words),
        None => {
            if bytes.len() % 4 != 0 {
                Err(ShaderError::NotWords)
            } else {
                Err(ShaderError::MissingMagic)
            }
        },
    }
}

} // verus!
