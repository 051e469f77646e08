//! SPIR-V modules in files.

use vstd::prelude::*;

verus! {

/// The first word of every module.
pub const SPIRV_MAGIC: u32 = 0x0723_0203;

/// The bytes of a module's header.
pub const SPIRV_HEADER_BYTES: usize = 20;

/// Why bytes are no module.
#[derive(Clone, Copy, Debug, PartialEq, Eq, Structural)]
pub enum SpirvError {
    /// There is no whole number of words, or not even a header.
    Size,
    /// The first word is wrong.
    Magic,
}

/// The word at `place`, its least significant byte first.
pub open spec fn word_at(bytes: Seq<u8>, place: int) -> int {
    bytes[4 * place] + 0x100 * bytes[4 * place + 1] + 0x1_0000 * bytes[4 * place + 2] + 0x100_0000
        * bytes[4 * place + 3]
}

/// The words of the bytes.
pub open spec fn words(bytes: Seq<u8>) -> Seq<u32> {
    Seq::new(bytes.len() / 4, |i: int| word_at(bytes, i) as u32)
}

/// The size is that of a module.
pub open spec fn is_module_size(size: nat) -> bool {
    size >= SPIRV_HEADER_BYTES && size % 4 == 0
}

/// Reads a module from the bytes of a file.
pub fn read_spirv(bytes: &[u8]) -> (r: Result<Vec<u32>, SpirvError>)
    ensures
        match r {
            Ok(module) => {
                &&& is_module_size(bytes@.len())
                &&& words(bytes@)[0] == SPIRV_MAGIC
                &&& module@ == words(bytes@)
            },
            Err(SpirvError::Size) => !is_module_size(bytes@.len()),
            Err(SpirvError::Magic) => is_module_size(bytes@.len()) && words(bytes@)[0]
                != SPIRV_MAGIC,
        },
{
    if bytes.len() < SPIRV_HEADER_BYTES || bytes.len() % 4 != 0 {
        return Err(SpirvError::Size);
    }
    let size = bytes.len();
    let count = size / 4;
    let mut module: Vec<u32> = Vec::new();
    let mut i: usize = 0;
    while i < count
        invariant
            i <= count,
            count == size / 4,
            size == bytes@.len(),
            module@ == words(bytes@).take(i as int),
        decreases count - i,
    {
        let word = bytes[4 * i] as u32 + 0x100 * bytes[4 * i + 1] as u32 + 0x1_0000 * bytes[4 * i
            + 2] as u32 + 0x100_0000 * bytes[4 * i + 3] as u32;
        module.push(word);
        i += 1;
        assert(module@ =~= words(bytes@).take(i as int));
    }
    assert(module@ =~= words(bytes@));
    if module[0] != SPIRV_MAGIC {
        return Err(SpirvError::Magic);
    }
    Ok(module)
}

/// The bytes of a module are those of its words, the least significant one first: each byte can be
/// read back from the word that it is part of.
pub proof fn words_hold_their_bytes(bytes: Seq<u8>, place: int)
    requires
        0 <= place < bytes.len() / 4,
    ensures
        ({
            let word = words(bytes)[place] as int;
            &&& words(bytes).len() == bytes.len() / 4
            &&& word % 0x100 == bytes[4 * place]
            &&& word / 0x100 % 0x100 == bytes[4 * place + 1]
            &&& word / 0x1_0000 % 0x100 == bytes[4 * place + 2]
            &&& word / 0x100_0000 == bytes[4 * place + 3]
        }),
{
}

/// A module has a whole number of words, and at least the five of its header.
pub proof fn modules_have_a_header(size: nat)
    ensures
        is_module_size(4 * size) <==> size >= 5,
        is_module_size(size) ==> size % 4 == 0,
{
}

} // verus!
