use giflib::ffi::{
    ExtensionBlock, GifBool, GifFileType, GraphicsControlBlock, SavedImage, COMMENT_EXT_FUNC_CODE,
    GIF_ERROR, GIF_OK, GRAPHICS_EXT_FUNC_CODE, NO_TRANSPARENT_COLOR,
};
use giflib::gcb::{EGifGCBToExtension, EGifGCBToSavedExtension};
use giflib::helpers::GifAddExtensionBlock;
use giflib::state::alloc_gif_file;

fn sample_gcb() -> GraphicsControlBlock {
    GraphicsControlBlock {
        DisposalMode: 2,
        UserInputFlag: GifBool::new(true),
        DelayTime: 0x1234,
        TransparentColor: 5,
    }
}

fn file_with_images(blocks: Vec<Vec<ExtensionBlock>>) -> GifFileType {
    let mut file = alloc_gif_file();
    for b in blocks {
        file.SavedImages.push(SavedImage {
            ImageDesc: Default::default(),
            RasterBits: vec![0u8; 4],
            ExtensionBlockCount: b.len() as i32,
            ExtensionBlocks: b,
        });
        file.ImageCount += 1;
    }
    file
}

#[test]
fn gcb_encoding_bytes() {
    let mut buffer = Some(vec![9u8; 6]);
    assert_eq!(EGifGCBToExtension(Some(&sample_gcb()), &mut buffer), 4);
    assert_eq!(buffer.unwrap(), vec![0x0b, 0x34, 0x12, 0x05, 9, 9]);
}

#[test]
fn gcb_encoding_no_transparency() {
    let gcb = GraphicsControlBlock {
        DisposalMode: 0,
        UserInputFlag: GifBool::new(false),
        DelayTime: 10,
        TransparentColor: NO_TRANSPARENT_COLOR,
    };
    let mut buffer = Some(vec![0u8; 4]);
    assert_eq!(EGifGCBToExtension(Some(&gcb), &mut buffer), 4);
    assert_eq!(buffer.unwrap(), vec![0x00, 10, 0, 0xff]);
}

#[test]
fn gcb_encoding_masks_fields() {
    let gcb = GraphicsControlBlock {
        DisposalMode: 9,
        UserInputFlag: GifBool(4),
        DelayTime: -1,
        TransparentColor: 300,
    };
    let mut buffer = Some(vec![0u8; 4]);
    assert_eq!(EGifGCBToExtension(Some(&gcb), &mut buffer), 4);
    assert_eq!(buffer.unwrap(), vec![0x01 | 0x02 | 0x04, 0xff, 0xff, 44]);
}

#[test]
fn gcb_encoding_absent_arguments() {
    let mut none: Option<Vec<u8>> = None;
    assert_eq!(EGifGCBToExtension(Some(&sample_gcb()), &mut none), 0);
    assert!(none.is_none());
    let mut buffer = Some(vec![7u8; 4]);
    assert_eq!(EGifGCBToExtension(None, &mut buffer), 0);
    assert_eq!(buffer.unwrap(), vec![7u8; 4]);
}

#[test]
fn saved_extension_appends_when_missing() {
    let comment = ExtensionBlock { ByteCount: 2, Bytes: Some(vec![b'h', b'i']), Function: COMMENT_EXT_FUNC_CODE };
    let mut file = file_with_images(vec![vec![], vec![comment]]);
    assert_eq!(EGifGCBToSavedExtension(Some(&sample_gcb()), &mut file, 1), GIF_OK);
    let image = &file.SavedImages[1];
    assert_eq!(image.ExtensionBlockCount, 2);
    assert_eq!(image.ExtensionBlocks.len(), 2);
    assert_eq!(image.ExtensionBlocks[0].Function, COMMENT_EXT_FUNC_CODE);
    assert_eq!(image.ExtensionBlocks[1].Function, GRAPHICS_EXT_FUNC_CODE);
    assert_eq!(image.ExtensionBlocks[1].ByteCount, 4);
    assert_eq!(image.ExtensionBlocks[1].Bytes, Some(vec![0x0b, 0x34, 0x12, 0x05]));
    assert_eq!(file.SavedImages[0].ExtensionBlocks.len(), 0);
}

#[test]
fn saved_extension_overwrites_first_graphics_block() {
    let first = ExtensionBlock { ByteCount: 5, Bytes: Some(vec![1, 2, 3, 4, 5]), Function: GRAPHICS_EXT_FUNC_CODE };
    let second = ExtensionBlock { ByteCount: 4, Bytes: Some(vec![6, 6, 6, 6]), Function: GRAPHICS_EXT_FUNC_CODE };
    let mut file = file_with_images(vec![vec![first, second]]);
    assert_eq!(EGifGCBToSavedExtension(Some(&sample_gcb()), &mut file, 0), GIF_OK);
    let image = &file.SavedImages[0];
    assert_eq!(image.ExtensionBlocks.len(), 2);
    assert_eq!(image.ExtensionBlocks[0].Bytes, Some(vec![0x0b, 0x34, 0x12, 0x05, 5]));
    assert_eq!(image.ExtensionBlocks[1].Bytes, Some(vec![6, 6, 6, 6]));
}

#[test]
fn saved_extension_twice_is_once() {
    let mut once = file_with_images(vec![vec![]]);
    let mut twice = file_with_images(vec![vec![]]);
    assert_eq!(EGifGCBToSavedExtension(Some(&sample_gcb()), &mut once, 0), GIF_OK);
    assert_eq!(EGifGCBToSavedExtension(Some(&sample_gcb()), &mut twice, 0), GIF_OK);
    assert_eq!(EGifGCBToSavedExtension(Some(&sample_gcb()), &mut twice, 0), GIF_OK);
    assert_eq!(once.SavedImages[0].ExtensionBlockCount, twice.SavedImages[0].ExtensionBlockCount);
    assert_eq!(once.SavedImages[0].ExtensionBlocks.len(), 1);
    assert_eq!(twice.SavedImages[0].ExtensionBlocks.len(), 1);
    assert_eq!(once.SavedImages[0].ExtensionBlocks[0].Bytes, twice.SavedImages[0].ExtensionBlocks[0].Bytes);
}

#[test]
fn saved_extension_bad_index() {
    let mut file = file_with_images(vec![vec![]]);
    assert_eq!(EGifGCBToSavedExtension(Some(&sample_gcb()), &mut file, 1), GIF_ERROR);
    assert_eq!(EGifGCBToSavedExtension(Some(&sample_gcb()), &mut file, -1), GIF_ERROR);
    let mut empty = alloc_gif_file();
    assert_eq!(EGifGCBToSavedExtension(Some(&sample_gcb()), &mut empty, 0), GIF_ERROR);
    assert_eq!(file.SavedImages[0].ExtensionBlocks.len(), 0);
}

#[test]
fn saved_extension_block_without_bytes() {
    let block = ExtensionBlock { ByteCount: 4, Bytes: None, Function: GRAPHICS_EXT_FUNC_CODE };
    let mut file = file_with_images(vec![vec![block]]);
    assert_eq!(EGifGCBToSavedExtension(Some(&sample_gcb()), &mut file, 0), GIF_ERROR);
}

#[test]
fn saved_extension_absent_gcb() {
    let mut file = file_with_images(vec![vec![]]);
    assert_eq!(EGifGCBToSavedExtension(None, &mut file, 0), GIF_ERROR);
    assert_eq!(file.SavedImages[0].ExtensionBlocks.len(), 0);
    let block = ExtensionBlock { ByteCount: 4, Bytes: Some(vec![1, 2, 3, 4]), Function: GRAPHICS_EXT_FUNC_CODE };
    let mut with_block = file_with_images(vec![vec![block]]);
    assert_eq!(EGifGCBToSavedExtension(None, &mut with_block, 0), GIF_OK);
    assert_eq!(with_block.SavedImages[0].ExtensionBlocks[0].Bytes, Some(vec![1, 2, 3, 4]));
}

#[test]
fn add_extension_block_copies_data() {
    let mut count = 0i32;
    let mut blocks: Vec<ExtensionBlock> = Vec::new();
    assert_eq!(GifAddExtensionBlock(&mut count, &mut blocks, COMMENT_EXT_FUNC_CODE, 3, &[1, 2, 3, 4]), GIF_OK);
    assert_eq!(count, 1);
    assert_eq!(blocks[0].ByteCount, 3);
    assert_eq!(blocks[0].Function, COMMENT_EXT_FUNC_CODE);
    assert_eq!(blocks[0].Bytes, Some(vec![1, 2, 3]));
}
