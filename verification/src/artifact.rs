//! The compiled shader artifact as bytes: what makes it loadable, and its
//! words.
//!
//! A module is a row of 32-bit words, and the graphics backend takes the
//! bytes as the machine stores words. So everything here reads a word in the
//! byte order of the machine, whichever that is.

use vstd::prelude::*;

verus! {

/// The first word of every SPIR-V module.
pub const SPIRV_MAGIC: u32 = 0x0723_0203;

/// Why an artifact cannot be turned into pipelines.
#[derive(Clone, Copy, Debug, PartialEq, Eq, Structural)]
pub enum ArtifactError {
    /// The artifact is not a whole number of four-byte words.
    Misaligned,
    /// The artifact does not begin with the SPIR-V magic number.
    MissingMagic,
}

/// The word that four bytes make in a given byte order: the first byte is the
/// lowest where the order is little-endian, the highest where it is
/// big-endian.
pub open spec fn ordered_word(order: vstd::endian::Endian, b0: u8, b1: u8, b2: u8, b3: u8) -> u32 {
    match order {
        vstd::endian::Endian::Little => (b0 + 0x100 * b1 + 0x1_0000 * b2 + 0x100_0000 * b3) as u32,
        vstd::endian::Endian::Big => (b3 + 0x100 * b2 + 0x1_0000 * b1 + 0x100_0000 * b0) as u32,
    }
}

/// The `index`-th word of `bytes`, in the byte order of the machine.
pub open spec fn word_at(bytes: Seq<u8>, index: int) -> u32 {
    ordered_word(
        vstd::endian::endianness(),
        bytes[4 * index],
        bytes[4 * index + 1],
        bytes[4 * index + 2],
        bytes[4 * index + 3],
    )
}

/// The words of `bytes`, in their order.
pub open spec fn words_of(bytes: Seq<u8>) -> Seq<u32> {
    Seq::new((bytes.len() / 4) as nat, |index: int| word_at(bytes, index))
}

/// Whether `bytes` can be handed to the graphics backend as a SPIR-V module:
/// whole words, the first of them the magic number.
pub open spec fn is_loadable(bytes: Seq<u8>) -> bool {
    &&& bytes.len() % 4 == 0
    &&& bytes.len() >= 4
    &&& word_at(bytes, 0) == SPIRV_MAGIC
}

/// What is wrong with `bytes`, if anything: a length that is no multiple of
/// four comes first, a missing magic number second.
pub open spec fn artifact_fault(bytes: Seq<u8>) -> Option<ArtifactError> {
    if bytes.len() % 4 != 0 {
        Some(ArtifactError::Misaligned)
    } else if bytes.len() < 4 || word_at(bytes, 0) != SPIRV_MAGIC {
        Some(ArtifactError::MissingMagic)
    } else {
        None
    }
}

/// Calls `u32::from_ne_bytes`, which reads four bytes as one word in the byte
/// order of the machine.
#[verifier::external_body]
fn native_word(b0: u8, b1: u8, b2: u8, b3: u8) -> (word: u32)
    ensures
        word == ordered_word(vstd::endian::endianness(), b0, b1, b2, b3),
{
    u32::from_ne_bytes([b0, b1, b2, b3])
}

/// Tests whether `bytes` can be loaded as a SPIR-V module.
pub fn check_artifact(bytes: &[u8]) -> (checked: Result<(), ArtifactError>)
    ensures
        checked is Ok <==> is_loadable(bytes@),
        checked matches Err(fault) ==> artifact_fault(bytes@) == Some(fault),
{
    let length: usize = bytes.len();
    if length % 4 != 0 {
        return Err(ArtifactError::Misaligned);
    }
    if length < 4 {
        return Err(ArtifactError::MissingMagic);
    }
    if native_word(bytes[0], bytes[1], bytes[2], bytes[3]) == SPIRV_MAGIC {
        Ok(())
    } else {
        Err(ArtifactError::MissingMagic)
    }
}

/// Calls `wgpu::util::make_spirv`, which takes the bytes as words, four bytes
/// to a word in the byte order of the machine, and panics where the length is
/// no multiple of four or the first word, read in that order, is not the
/// magic number. The contract leaves those inputs out, the empty one among
/// them.
#[verifier::external_body]
fn make_spirv_words(data: &[u8]) -> (words: Vec<u32>)
    requires
        is_loadable(data@),
    ensures
        words@ == words_of(data@),
{
    match wgpu::util::make_spirv(data) {
        wgpu::ShaderSource::SpirV(words) => words.into_owned(),
        wgpu::ShaderSource::Wgsl(_) => Vec::new(),
    }
}

/// The words of a compiled artifact, as the graphics backend takes them, or
/// the reason why it cannot be loaded.
pub fn spirv_words(bytes: &[u8]) -> (loaded: Result<Vec<u32>, ArtifactError>)
    ensures
        match loaded {
            Ok(words) => is_loadable(bytes@) && words@ == words_of(bytes@),
            Err(fault) => artifact_fault(bytes@) == Some(fault),
        },
{
    match check_artifact(bytes) {
        Ok(()) => Ok(make_spirv_words(bytes)),
        Err(fault) => Err(fault),
    }
}

/// A loadable artifact has no fault, and one with no fault is loadable.
pub proof fn lemma_fault_iff_not_loadable(bytes: Seq<u8>)
    ensures
        artifact_fault(bytes) is None <==> is_loadable(bytes),
{
}

/// The words of a loadable artifact begin with the magic number, and there
/// are a quarter as many of them as bytes.
pub proof fn lemma_words_of_loadable(bytes: Seq<u8>)
    requires
        is_loadable(bytes),
    ensures
        words_of(bytes).len() * 4 == bytes.len(),
        words_of(bytes)[0] == SPIRV_MAGIC,
{
}

/// The magic number as bytes: `03 02 23 07` on a machine that stores the low
/// byte first, `07 23 02 03` on one that stores the high byte first. An
/// artifact of whole words is loadable exactly where it begins with them.
pub proof fn lemma_magic_bytes(bytes: Seq<u8>)
    requires
        bytes.len() % 4 == 0,
        bytes.len() >= 4,
    ensures
        is_loadable(bytes) <==> match vstd::endian::endianness() {
            vstd::endian::Endian::Little => bytes[0] == 0x03 && bytes[1] == 0x02 && bytes[2] == 0x23
                && bytes[3] == 0x07,
            vstd::endian::Endian::Big => bytes[0] == 0x07 && bytes[1] == 0x23 && bytes[2] == 0x02
                && bytes[3] == 0x03,
        },
{
}

} // verus!
