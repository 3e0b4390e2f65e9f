use vstd::prelude::*;

use crate::state::EncoderState;

verus! {

pub type GifPixelType = u8;
pub type GifByteType = u8;
pub type GifPrefixType = u32;
pub type GifWord = i32;
pub type GifRecordType = i32;

pub const GIF_ERROR: i32 = 0;
pub const GIF_OK: i32 = 1;

pub const UNDEFINED_RECORD_TYPE: GifRecordType = 0;
pub const SCREEN_DESC_RECORD_TYPE: GifRecordType = 1;
pub const IMAGE_DESC_RECORD_TYPE: GifRecordType = 2;
pub const EXTENSION_RECORD_TYPE: GifRecordType = 3;
pub const TERMINATE_RECORD_TYPE: GifRecordType = 4;

pub const CONTINUE_EXT_FUNC_CODE: i32 = 0x00;
pub const COMMENT_EXT_FUNC_CODE: i32 = 0xfe;
pub const GRAPHICS_EXT_FUNC_CODE: i32 = 0xf9;
pub const PLAINTEXT_EXT_FUNC_CODE: i32 = 0x01;
pub const APPLICATION_EXT_FUNC_CODE: i32 = 0xff;

pub const DISPOSAL_UNSPECIFIED: i32 = 0;
pub const DISPOSE_DO_NOT: i32 = 1;
pub const DISPOSE_BACKGROUND: i32 = 2;
pub const DISPOSE_PREVIOUS: i32 = 3;
pub const NO_TRANSPARENT_COLOR: i32 = -1;

pub const E_GIF_ERR_OPEN_FAILED: i32 = 1;
pub const E_GIF_ERR_WRITE_FAILED: i32 = 2;
pub const E_GIF_ERR_HAS_SCRN_DSCR: i32 = 3;
pub const E_GIF_ERR_HAS_IMAG_DSCR: i32 = 4;
pub const E_GIF_ERR_NO_COLOR_MAP: i32 = 5;
pub const E_GIF_ERR_DATA_TOO_BIG: i32 = 6;
pub const E_GIF_ERR_NOT_ENOUGH_MEM: i32 = 7;
pub const E_GIF_ERR_DISK_IS_FULL: i32 = 8;
pub const E_GIF_ERR_CLOSE_FAILED: i32 = 9;
pub const E_GIF_ERR_NOT_WRITEABLE: i32 = 10;

pub const D_GIF_ERR_OPEN_FAILED: i32 = 101;
pub const D_GIF_ERR_READ_FAILED: i32 = 102;
pub const D_GIF_ERR_NOT_GIF_FILE: i32 = 103;
pub const D_GIF_ERR_NO_SCRN_DSCR: i32 = 104;
pub const D_GIF_ERR_NO_IMAG_DSCR: i32 = 105;
pub const D_GIF_ERR_NO_COLOR_MAP: i32 = 106;
pub const D_GIF_ERR_WRONG_RECORD: i32 = 107;
pub const D_GIF_ERR_DATA_TOO_BIG: i32 = 108;
pub const D_GIF_ERR_NOT_ENOUGH_MEM: i32 = 109;
pub const D_GIF_ERR_CLOSE_FAILED: i32 = 110;
pub const D_GIF_ERR_NOT_READABLE: i32 = 111;
pub const D_GIF_ERR_IMAGE_DEFECT: i32 = 112;
pub const D_GIF_ERR_EOF_TOO_SOON: i32 = 113;

pub const GIF_FONT_WIDTH: usize = 8;
pub const GIF_FONT_HEIGHT: usize = 8;

pub const HT_SIZE: usize = 8192;
pub const HT_KEY_MASK: u32 = 0x1FFF;
pub const HT_KEY_NUM_BITS: u32 = 13;
pub const HT_MAX_KEY: u32 = 8191;
pub const HT_MAX_CODE: u32 = 4095;
pub const HT_EMPTY_KEY: u32 = 0xFFFFF;

/// A C-compatible boolean: one byte, where any nonzero value means `true`.
#[derive(Copy, Clone, Default)]
pub struct GifBool(pub u8);

impl View for GifBool {
    type V = bool;

    open spec fn view(&self) -> bool {
        self.0 != 0
    }
}

impl GifBool {
    /// The byte that `new` and `set` store for `value`.
    pub open spec fn byte_of(value: bool) -> u8 {
        if value { 1u8 } else { 0u8 }
    }

    /// Builds the flag holding `value`, stored as 1 or 0.
    pub fn new(value: bool) -> (r: Self)
        ensures
            r.0 == Self::byte_of(value),
            r@ == value,
    {
        GifBool(if value { 1u8 } else { 0u8 })
    }

    /// Reads the flag: any nonzero byte is `true`.
    pub fn get(self) -> (r: bool)
        ensures
            r == self@,
            r == (self.0 != 0),
    {
        self.0 != 0
    }

    /// A flag built from, or set to, `value` reads back as `value`.
    pub proof fn lemma_round_trip(value: bool)
        ensures
            GifBool(Self::byte_of(value))@ == value,
    {
    }

    /// Stores `value` as 1 or 0.
    pub fn set(&mut self, value: bool)
        ensures
            final(self).0 == Self::byte_of(value),
            final(self)@ == value,
    {
        self.0 = if value { 1u8 } else { 0u8 };
    }
}

/// One palette entry.
#[derive(Copy, Clone, Default)]
pub struct GifColorType {
    pub Red: GifByteType,
    pub Green: GifByteType,
    pub Blue: GifByteType,
}

/// A color map; `Colors` owns the palette entries.
#[derive(Clone, Default)]
pub struct ColorMapObject {
    pub ColorCount: i32,
    pub BitsPerPixel: i32,
    pub SortFlag: GifBool,
    pub Colors: Vec<GifColorType>,
}

/// An image descriptor; `ColorMap` is the local color map, if any.
#[derive(Clone, Default)]
pub struct GifImageDesc {
    pub Left: GifWord,
    pub Top: GifWord,
    pub Width: GifWord,
    pub Height: GifWord,
    pub Interlace: GifBool,
    pub ColorMap: Option<ColorMapObject>,
}

/// One extension sub-block. `Bytes` is `None` where no data buffer is attached.
#[derive(Clone, Default)]
pub struct ExtensionBlock {
    pub ByteCount: i32,
    pub Bytes: Option<Vec<GifByteType>>,
    pub Function: i32,
}

/// A decoded image with its raster and the extension blocks that preceded it.
/// An empty `RasterBits` stands for a raster that was not allocated.
#[derive(Clone, Default)]
pub struct SavedImage {
    pub ImageDesc: GifImageDesc,
    pub RasterBits: Vec<GifByteType>,
    pub ExtensionBlockCount: i32,
    pub ExtensionBlocks: Vec<ExtensionBlock>,
}

/// A GIF file handle. `SavedImages` holds the `ImageCount` images read so far,
/// `ExtensionBlocks` the `ExtensionBlockCount` blocks not yet attached to an image,
/// and `Private` the encoder's state block, if one is attached.
#[derive(Default)]
pub struct GifFileType {
    pub SWidth: GifWord,
    pub SHeight: GifWord,
    pub SColorResolution: GifWord,
    pub SBackGroundColor: GifWord,
    pub AspectByte: GifByteType,
    pub SColorMap: Option<ColorMapObject>,
    pub ImageCount: i32,
    pub Image: GifImageDesc,
    pub SavedImages: Vec<SavedImage>,
    pub ExtensionBlockCount: i32,
    pub ExtensionBlocks: Vec<ExtensionBlock>,
    pub Error: i32,
    pub Private: Option<EncoderState>,
}

/// The fields of a graphics control extension.
#[derive(Copy, Clone, Default)]
pub struct GraphicsControlBlock {
    pub DisposalMode: i32,
    pub UserInputFlag: GifBool,
    pub DelayTime: i32,
    pub TransparentColor: i32,
}

/// The encoder's LZW hash table.
pub struct GifHashTableType {
    pub HTable: [u32; HT_SIZE],
}

impl ColorMapObject {
    /// Both maps hold the same counts, flag and colors.
    pub open spec fn same_as(&self, other: &Self) -> bool {
        &&& self.ColorCount == other.ColorCount
        &&& self.BitsPerPixel == other.BitsPerPixel
        &&& self.SortFlag == other.SortFlag
        &&& self.Colors@ == other.Colors@
    }
}

impl GifImageDesc {
    /// Both descriptors hold the same values, color map included.
    pub open spec fn same_as(&self, other: &Self) -> bool {
        &&& self.Left == other.Left
        &&& self.Top == other.Top
        &&& self.Width == other.Width
        &&& self.Height == other.Height
        &&& self.Interlace == other.Interlace
        &&& match (self.ColorMap, other.ColorMap) {
            (None, None) => true,
            (Some(a), Some(b)) => a.same_as(&b),
            _ => false,
        }
    }
}

impl SavedImage {
    /// The count field agrees with the list of extension blocks.
    pub open spec fn wf(&self) -> bool {
        self.ExtensionBlockCount as int == self.ExtensionBlocks@.len()
    }
}

impl GifFileType {
    /// The counts agree with the lists they describe, for the file and for each saved image.
    pub open spec fn wf(&self) -> bool {
        &&& self.ImageCount as int == self.SavedImages@.len()
        &&& self.ExtensionBlockCount as int == self.ExtensionBlocks@.len()
        &&& forall|i: int| 0 <= i < self.SavedImages@.len() ==> (#[trigger] self.SavedImages@[i]).wf()
    }

    /// The screen descriptor, the error code and the private state are the same in both.
    pub open spec fn same_screen(&self, other: &Self) -> bool {
        &&& self.SWidth == other.SWidth
        &&& self.SHeight == other.SHeight
        &&& self.SColorResolution == other.SColorResolution
        &&& self.SBackGroundColor == other.SBackGroundColor
        &&& self.AspectByte == other.AspectByte
        &&& self.SColorMap == other.SColorMap
        &&& self.Error == other.Error
        &&& self.Private == other.Private
    }

    /// Every field but `SavedImages` is the same in both.
    pub open spec fn same_apart_from_images(&self, other: &Self) -> bool {
        &&& self.SWidth == other.SWidth
        &&& self.SHeight == other.SHeight
        &&& self.SColorResolution == other.SColorResolution
        &&& self.SBackGroundColor == other.SBackGroundColor
        &&& self.AspectByte == other.AspectByte
        &&& self.SColorMap == other.SColorMap
        &&& self.ImageCount == other.ImageCount
        &&& self.Image == other.Image
        &&& self.ExtensionBlockCount == other.ExtensionBlockCount
        &&& self.ExtensionBlocks == other.ExtensionBlocks
        &&& self.Error == other.Error
        &&& self.Private == other.Private
    }
}

} // verus!
