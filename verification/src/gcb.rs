use vstd::prelude::*;

use crate::helpers::{block_holds, GifAddExtensionBlock};
use crate::ffi::{
    ExtensionBlock, GifFileType, GraphicsControlBlock, SavedImage, GIF_ERROR, GIF_OK,
    GRAPHICS_EXT_FUNC_CODE, NO_TRANSPARENT_COLOR,
};

verus! {

/// The packed-fields byte of a graphics control extension: bit 0 says whether a
/// transparent color is given, bit 1 is the user input flag, bits 2 to 4 the disposal mode.
pub open spec fn gcb_packed_byte(gcb: GraphicsControlBlock) -> int {
    (if gcb.TransparentColor == NO_TRANSPARENT_COLOR { 0int } else { 1int })
        + (if gcb.UserInputFlag@ { 2int } else { 0int })
        + 4 * (gcb.DisposalMode as int % 8)
}

/// The four data bytes of the graphics control extension that encodes `gcb`:
/// the packed byte, the delay time as a little-endian 16-bit word and the
/// transparent color index, each taken modulo 256.
pub open spec fn gcb_extension_bytes(gcb: GraphicsControlBlock) -> Seq<u8> {
    seq![
        gcb_packed_byte(gcb) as u8,
        (gcb.DelayTime as int % 256) as u8,
        ((gcb.DelayTime as int / 256) % 256) as u8,
        (gcb.TransparentColor as int % 256) as u8,
    ]
}

/// The extension bytes give the block back: bit 0 of the packed byte tells whether a
/// transparent color is set, bit 1 is the user input flag, bits 2 to 4 are the disposal
/// mode (modulo 8), the next two bytes are the delay time (modulo 65536) least
/// significant byte first, and the last byte is the transparent color index (modulo 256).
pub proof fn lemma_gcb_extension_bytes_decode(gcb: GraphicsControlBlock)
    ensures
        ({
            let bytes = gcb_extension_bytes(gcb);
            &&& bytes.len() == 4
            &&& (bytes[0] % 2 == 1) == (gcb.TransparentColor != NO_TRANSPARENT_COLOR)
            &&& ((bytes[0] / 2) % 2 == 1) == gcb.UserInputFlag@
            &&& (bytes[0] / 4) % 8 == gcb.DisposalMode as int % 8
            &&& bytes[1] + 256 * bytes[2] == gcb.DelayTime as int % 65536
            &&& bytes[3] == gcb.TransparentColor as int % 256
        }),
{
    let d = gcb.DelayTime as int;
    let low = d % 256;
    let high = (d / 256) % 256;
    assert(low + 256 * high == d % 65536) by (nonlinear_arith)
        requires
            low == d % 256,
            high == (d / 256) % 256;
}

/// Encodes `gcb` into the first four bytes of `buffer`.
fn encode_gcb(gcb: &GraphicsControlBlock, buffer: &mut Vec<u8>)
    requires
        old(buffer)@.len() >= 4,
    ensures
        final(buffer)@ == gcb_extension_bytes(*gcb) + old(buffer)@.skip(4),
{
    let transparent = gcb.TransparentColor;
    let disposal = gcb.DisposalMode;
    let delay = gcb.DelayTime;
    let mut packed: u8 = 0;
    packed = packed | if transparent == NO_TRANSPARENT_COLOR { 0x00u8 } else { 0x01u8 };
    packed = packed | if gcb.UserInputFlag.get() { 0x02u8 } else { 0x00u8 };
    let mode: u8 = ((disposal & 0x07i32) << 2i32) as u8;
    let low: u8 = (delay & 0xffi32) as u8;
    let high: u8 = ((delay >> 8i32) & 0xffi32) as u8;
    let index: u8 = transparent as u8;
    proof {
        let t: u8 = if transparent == NO_TRANSPARENT_COLOR { 0x00u8 } else { 0x01u8 };
        let u: u8 = if gcb.UserInputFlag@ { 0x02u8 } else { 0x00u8 };
        assert(((disposal & 0x07i32) << 2i32) as u8 == (4 * (disposal as int % 8)) as u8)
            by (bit_vector);
        assert(((disposal & 0x07i32) << 2i32) as u8 % 4 == 0 && ((disposal & 0x07i32) << 2i32) as u8 <= 28)
            by (bit_vector);
        assert((0u8 | t) | u == t + u) by (bit_vector)
            requires t <= 1, u == 0 || u == 2;
        assert((t + u) as u8 | mode == (t + u + mode) as u8) by (bit_vector)
            requires t + u <= 3, mode % 4 == 0, mode <= 28;
        assert((delay & 0xffi32) as u8 == (delay as int % 256) as u8) by (bit_vector);
        assert(((delay >> 8i32) & 0xffi32) as u8 == ((delay as int / 256) % 256) as u8)
            by (bit_vector);
        assert(transparent as u8 == (transparent as int % 256) as u8) by (bit_vector);
    }
    packed = packed | mode;
    buffer.set(0, packed);
    buffer.set(1, low);
    buffer.set(2, high);
    buffer.set(3, index);
    assert(buffer@ =~= gcb_extension_bytes(*gcb) + old(buffer)@.skip(4));
}

/// Writes the extension bytes of `GCB` into the first four bytes of the buffer and returns 4.
/// Returns 0, writing nothing, where the block or the buffer is absent.
pub fn EGifGCBToExtension(
    GCB: Option<&GraphicsControlBlock>,
    GifExtension: &mut Option<Vec<u8>>,
) -> (r: usize)
    requires
        GCB is Some ==> (*old(GifExtension) matches Some(buffer) ==> buffer@.len() >= 4),
    ensures
        match (GCB, *old(GifExtension)) {
            (Some(gcb), Some(buffer)) => r == 4 && (*final(GifExtension) matches Some(written)
                && written@ == gcb_extension_bytes(*gcb) + buffer@.skip(4)),
            _ => r == 0 && *final(GifExtension) == *old(GifExtension),
        },
{
    match GCB {
        None => 0,
        Some(gcb) => match GifExtension {
            None => 0,
            Some(buffer) => {
                encode_gcb(gcb, buffer);
                4
            },
        },
    }
}

/// `i` is the position of the first graphics control block among `blocks`.
pub open spec fn first_graphics_block(blocks: Seq<ExtensionBlock>, i: int) -> bool {
    &&& 0 <= i < blocks.len()
    &&& blocks[i].Function == GRAPHICS_EXT_FUNC_CODE
    &&& forall|j: int| 0 <= j < i ==> blocks[j].Function != GRAPHICS_EXT_FUNC_CODE
}

/// Some block among `blocks` is a graphics control block.
pub open spec fn has_graphics_block(blocks: Seq<ExtensionBlock>) -> bool {
    exists|i: int| 0 <= i < blocks.len() && blocks[i].Function == GRAPHICS_EXT_FUNC_CODE
}

/// The first graphics control block of `image` starts with the extension bytes of `gcb`.
pub open spec fn graphics_block_encodes(image: SavedImage, gcb: GraphicsControlBlock) -> bool {
    exists|i: int| #[trigger] first_graphics_block(image.ExtensionBlocks@, i)
        && (image.ExtensionBlocks@[i].Bytes matches Some(b) && b@.len() >= 4
        && b@.subrange(0, 4) == gcb_extension_bytes(gcb))
}

/// `after` is `before` with only the extension blocks of image `index` changed.
pub open spec fn only_image_blocks_changed(before: GifFileType, after: GifFileType, index: int) -> bool {
    &&& before.same_apart_from_images(&after)
    &&& after.SavedImages@.len() == before.SavedImages@.len()
    &&& forall|j: int| 0 <= j < before.SavedImages@.len() && j != index
        ==> after.SavedImages@[j] == before.SavedImages@[j]
    &&& after.SavedImages@[index].ImageDesc == before.SavedImages@[index].ImageDesc
    &&& after.SavedImages@[index].RasterBits == before.SavedImages@[index].RasterBits
}

/// The graphics control block of image `ImageIndex` is made to encode `GCB`.
/// Where the image has a graphics control block, the first one is overwritten in place
/// (its first four bytes); otherwise a new four-byte graphics control block is appended.
/// Fails on an index outside the images, on a first graphics block that has no data,
/// and, where a block would be appended, on an absent `GCB` or a full block list.
#[verifier::loop_isolation(false)]
pub fn EGifGCBToSavedExtension(
    GCB: Option<&GraphicsControlBlock>,
    GifFile: &mut GifFileType,
    ImageIndex: i32,
) -> (r: i32)
    requires
        old(GifFile).wf(),
        GCB is Some && 0 <= ImageIndex < old(GifFile).ImageCount ==> forall|i: int|
            first_graphics_block(old(GifFile).SavedImages@[ImageIndex as int].ExtensionBlocks@, i)
            ==> (old(GifFile).SavedImages@[ImageIndex as int].ExtensionBlocks@[i].Bytes matches Some(b)
                ==> b@.len() >= 4),
    ensures
        final(GifFile).wf(),
        r == GIF_OK && GCB is Some ==> 0 <= ImageIndex < old(GifFile).ImageCount
            && graphics_block_encodes(final(GifFile).SavedImages@[ImageIndex as int], *GCB.unwrap()),
        !(0 <= ImageIndex < old(GifFile).ImageCount) ==> r == GIF_ERROR && *final(GifFile) == *old(GifFile),
        0 <= ImageIndex < old(GifFile).ImageCount ==> ({
            let idx = ImageIndex as int;
            let before = old(GifFile).SavedImages@[idx];
            let after = final(GifFile).SavedImages@[idx];
            let blocks = before.ExtensionBlocks@;
            &&& forall|i: int| first_graphics_block(blocks, i) ==> {
                &&& blocks[i].Bytes is None ==> r == GIF_ERROR && *final(GifFile) == *old(GifFile)
                &&& blocks[i].Bytes matches Some(data) ==> r == GIF_OK && match GCB {
                    None => *final(GifFile) == *old(GifFile),
                    Some(gcb) => {
                        &&& only_image_blocks_changed(*old(GifFile), *final(GifFile), idx)
                        &&& after.ExtensionBlocks@.len() == blocks.len()
                        &&& forall|j: int| 0 <= j < blocks.len() && j != i
                            ==> after.ExtensionBlocks@[j] == blocks[j]
                        &&& after.ExtensionBlocks@[i].Function == blocks[i].Function
                        &&& after.ExtensionBlocks@[i].ByteCount == blocks[i].ByteCount
                        &&& after.ExtensionBlocks@[i].Bytes matches Some(written)
                            && written@ == gcb_extension_bytes(*gcb) + data@.skip(4)
                    },
                }
            }
            &&& !has_graphics_block(blocks) ==> match GCB {
                None => r == GIF_ERROR && *final(GifFile) == *old(GifFile),
                Some(gcb) => if before.ExtensionBlockCount == i32::MAX {
                    r == GIF_ERROR && *final(GifFile) == *old(GifFile)
                } else {
                    &&& r == GIF_OK
                    &&& only_image_blocks_changed(*old(GifFile), *final(GifFile), idx)
                    &&& after.ExtensionBlocks@.drop_last() == blocks
                    &&& after.ExtensionBlocks@.len() == blocks.len() + 1
                    &&& block_holds(after.ExtensionBlocks@.last(), GRAPHICS_EXT_FUNC_CODE, gcb_extension_bytes(*gcb))
                },
            }
        }),
{
    if ImageIndex < 0 || ImageIndex > GifFile.ImageCount - 1 || GifFile.SavedImages.len() == 0 {
        return GIF_ERROR;
    }
    let idx = ImageIndex as usize;
    let count = GifFile.SavedImages[idx].ExtensionBlocks.len();
    let mut index: usize = 0;
    while index < count
        invariant
            *GifFile == *old(GifFile),
            old(GifFile).wf(),
            idx == ImageIndex,
            0 <= ImageIndex < old(GifFile).ImageCount,
            count == GifFile.SavedImages@[idx as int].ExtensionBlocks@.len(),
            index <= count,
            forall|j: int| 0 <= j < index
                ==> GifFile.SavedImages@[idx as int].ExtensionBlocks@[j].Function != GRAPHICS_EXT_FUNC_CODE,
        decreases count - index,
    {
        if GifFile.SavedImages[idx].ExtensionBlocks[index].Function == GRAPHICS_EXT_FUNC_CODE {
            if GifFile.SavedImages[idx].ExtensionBlocks[index].Bytes.is_none() {
                return GIF_ERROR;
            }
            let ghost blocks = old(GifFile).SavedImages@[idx as int].ExtensionBlocks@;
            assert(first_graphics_block(blocks, index as int));
            assert forall|i: int| first_graphics_block(blocks, i) implies i == index by {
                if i < index {
                    assert(blocks[i].Function != GRAPHICS_EXT_FUNC_CODE);
                } else if i > index {
                    assert(blocks[index as int].Function != GRAPHICS_EXT_FUNC_CODE);
                }
            }
            proof {
                if GCB is Some {
                    assert(first_graphics_block(
                        old(GifFile).SavedImages@[ImageIndex as int].ExtensionBlocks@,
                        index as int,
                    ));
                }
            }
            if GCB.is_none() {
                return GIF_OK;
            }
            let _ = EGifGCBToExtension(GCB, &mut GifFile.SavedImages[idx].ExtensionBlocks[index].Bytes);
            proof {
                let after = GifFile.SavedImages@[idx as int];
                let before = old(GifFile).SavedImages@[idx as int];
                assert(GifFile.same_apart_from_images(&*old(GifFile)));
                assert(GifFile.SavedImages@.len() == old(GifFile).SavedImages@.len());
                assert(after.ImageDesc == before.ImageDesc);
                assert(after.ExtensionBlocks@.len() == blocks.len());
                assert(after.ExtensionBlocks@[index as int].Function == blocks[index as int].Function);
                assert(GifFile.wf());
                assert(has_graphics_block(blocks));
                if let Some(gcb) = GCB {
                    assert(only_image_blocks_changed(*old(GifFile), *GifFile, idx as int));
                    assert(forall|j: int| 0 <= j < blocks.len() && j != index
                            ==> after.ExtensionBlocks@[j] == blocks[j]);
                    let data = blocks[index as int].Bytes.unwrap();
                    assert(after.ExtensionBlocks@[index as int].Bytes matches Some(written)
                            && written@ == gcb_extension_bytes(*gcb) + data@.skip(4));
                    let written = after.ExtensionBlocks@[index as int].Bytes.unwrap();
                    assert(written@.subrange(0, 4) =~= gcb_extension_bytes(*gcb));
                    assert(first_graphics_block(after.ExtensionBlocks@, index as int));
                }
            }
            return GIF_OK;
        }
        index = index + 1;
    }
    proof {
        let blocks = old(GifFile).SavedImages@[idx as int].ExtensionBlocks@;
        assert(!has_graphics_block(blocks));
        assert forall|i: int| !first_graphics_block(blocks, i) by {
            if 0 <= i < blocks.len() {
                assert(blocks[i].Function != GRAPHICS_EXT_FUNC_CODE);
            }
        }
    }
    let mut buffer: Option<Vec<u8>> = Some(vec![0u8; 16]);
    let len = EGifGCBToExtension(GCB, &mut buffer);
    if len == 0 {
        return GIF_ERROR;
    }
    let data = buffer.unwrap();
    if GifFile.SavedImages[idx].ExtensionBlockCount == i32::MAX {
        return GIF_ERROR;
    }
    let ghost blocks = old(GifFile).SavedImages@[idx as int].ExtensionBlocks@;
    let saved = &mut GifFile.SavedImages[idx];
    let r = GifAddExtensionBlock(
        &mut saved.ExtensionBlockCount,
        &mut saved.ExtensionBlocks,
        GRAPHICS_EXT_FUNC_CODE,
        len as u32,
        data.as_slice(),
    );
    proof {
        assert(data@.subrange(0, 4) =~= gcb_extension_bytes(*GCB.unwrap()));
        let after = GifFile.SavedImages@[idx as int];
        assert(after.ExtensionBlocks@.drop_last() == blocks);
        assert(only_image_blocks_changed(*old(GifFile), *GifFile, idx as int));
        assert(GifFile.wf());
        let last = after.ExtensionBlocks@.len() - 1;
        assert(after.ExtensionBlocks@[last] == after.ExtensionBlocks@.last());
        assert forall|j: int| 0 <= j < last implies after.ExtensionBlocks@[j].Function
            != GRAPHICS_EXT_FUNC_CODE by {
            assert(after.ExtensionBlocks@[j] == blocks[j]);
        }
        assert(first_graphics_block(after.ExtensionBlocks@, last));
        assert(after.ExtensionBlocks@[last].Bytes.unwrap()@.subrange(0, 4) =~= gcb_extension_bytes(*GCB.unwrap()));
    }
    r
}

} // verus!
