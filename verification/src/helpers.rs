use vstd::prelude::*;

use crate::ffi::{ExtensionBlock, GIF_ERROR, GIF_OK};

verus! {

/// `block` is a block of the given function whose bytes are `data`.
pub open spec fn block_holds(block: ExtensionBlock, function: i32, data: Seq<u8>) -> bool {
    &&& block.Function == function
    &&& block.ByteCount as int == data.len()
    &&& block.Bytes matches Some(bytes) && bytes@ == data
}

/// Copies the first `len` bytes of `data` into a new vector.
fn copy_prefix(data: &[u8], len: usize) -> (r: Vec<u8>)
    requires
        len <= data@.len(),
    ensures
        r@ == data@.subrange(0, len as int),
{
    let mut r: Vec<u8> = Vec::new();
    let mut i: usize = 0;
    while i < len
        invariant
            i <= len <= data@.len(),
            r@ == data@.subrange(0, i as int),
        decreases len - i,
    {
        r.push(data[i]);
        i = i + 1;
        assert(r@ =~= data@.subrange(0, i as int));
    }
    r
}

/// Appends to a list of `ExtensionBlockCount` blocks a block of function `Function` that
/// holds the first `Len` bytes of `ExtData`. Fails, changing nothing, when the count is
/// already `i32::MAX`.
pub fn GifAddExtensionBlock(
    ExtensionBlockCount: &mut i32,
    ExtensionBlocks: &mut Vec<ExtensionBlock>,
    Function: i32,
    Len: u32,
    ExtData: &[u8],
) -> (r: i32)
    requires
        *old(ExtensionBlockCount) as int == old(ExtensionBlocks)@.len(),
        Len as int <= ExtData@.len(),
        Len <= i32::MAX,
    ensures
        *final(ExtensionBlockCount) as int == final(ExtensionBlocks)@.len(),
        *old(ExtensionBlockCount) == i32::MAX ==> r == GIF_ERROR
            && *final(ExtensionBlockCount) == *old(ExtensionBlockCount)
            && *final(ExtensionBlocks) == *old(ExtensionBlocks),
        *old(ExtensionBlockCount) < i32::MAX ==> r == GIF_OK
            && *final(ExtensionBlockCount) == *old(ExtensionBlockCount) + 1
            && final(ExtensionBlocks)@.len() == old(ExtensionBlocks)@.len() + 1
            && final(ExtensionBlocks)@.drop_last() == old(ExtensionBlocks)@
            && block_holds(final(ExtensionBlocks)@.last(), Function, ExtData@.subrange(0, Len as int)),
{
    if *ExtensionBlockCount == i32::MAX {
        return GIF_ERROR;
    }
    let bytes = copy_prefix(ExtData, Len as usize);
    let block = ExtensionBlock { ByteCount: Len as i32, Bytes: Some(bytes), Function };
    ExtensionBlocks.push(block);
    *ExtensionBlockCount = *ExtensionBlockCount + 1;
    assert(ExtensionBlocks@.drop_last() =~= old(ExtensionBlocks)@);
    GIF_OK
}

} // verus!
