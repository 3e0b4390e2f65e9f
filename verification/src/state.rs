use vstd::prelude::*;

use crate::ffi::{GifBool, GifFileType, GifHashTableType, GifImageDesc};

verus! {

pub const EXTENSION_INTRODUCER: u8 = 0x21;
pub const DESCRIPTOR_INTRODUCER: u8 = 0x2c;
pub const TERMINATOR_INTRODUCER: u8 = 0x3b;

pub const LZ_MAX_CODE: i32 = 4095;
pub const FLUSH_OUTPUT: i32 = 4096;
pub const FIRST_CODE: i32 = 4097;

pub const FILE_STATE_WRITE: i32 = 0x01;
pub const FILE_STATE_SCREEN: i32 = 0x02;
pub const FILE_STATE_IMAGE: i32 = 0x04;

/// The tag that marks an encoder's state block: the bytes of `EGIFRS03`.
pub open spec fn encoder_state_tag_bytes() -> Seq<u8> {
    seq![0x45u8, 0x47u8, 0x49u8, 0x46u8, 0x52u8, 0x53u8, 0x30u8, 0x33u8]
}

/// The tag that marks an encoder's state block.
pub fn encoder_state_tag() -> (r: [u8; 8])
    ensures
        r@ == encoder_state_tag_bytes(),
{
    let r: [u8; 8] = [0x45u8, 0x47u8, 0x49u8, 0x46u8, 0x52u8, 0x53u8, 0x30u8, 0x33u8];
    assert(r@ =~= encoder_state_tag_bytes());
    r
}

/// The encoder's state block. `write_func_set` tells whether an output callback is
/// installed and `file_open` whether an output stream is; the handles themselves stay
/// with the caller.
pub struct EncoderState {
    pub tag: [u8; 8],
    pub file_state: i32,
    pub file_handle: i32,
    pub bits_per_pixel: i32,
    pub clear_code: i32,
    pub eof_code: i32,
    pub running_code: i32,
    pub running_bits: i32,
    pub max_code1: i32,
    pub current_code: i32,
    pub current_shift_state: i32,
    pub current_shift_dword: u64,
    pub pixel_count: u64,
    pub file_open: bool,
    pub write_func_set: bool,
    pub output_buffer: [u8; 256],
    pub hash_table: Option<Box<GifHashTableType>>,
    pub gif89: bool,
}

/// A GIF file handle with every field zero, empty or absent.
pub fn alloc_gif_file() -> (r: GifFileType)
    ensures
        r.wf(),
        r.SWidth == 0 && r.SHeight == 0 && r.SColorResolution == 0 && r.SBackGroundColor == 0,
        r.AspectByte == 0,
        r.SColorMap is None,
        r.ImageCount == 0,
        r.SavedImages@.len() == 0,
        r.ExtensionBlockCount == 0,
        r.ExtensionBlocks@.len() == 0,
        r.Error == 0,
        r.Private is None,
        r.Image.Left == 0 && r.Image.Top == 0 && r.Image.Width == 0 && r.Image.Height == 0,
        r.Image.Interlace.0 == 0,
        r.Image.ColorMap is None,
{
    GifFileType {
        SWidth: 0,
        SHeight: 0,
        SColorResolution: 0,
        SBackGroundColor: 0,
        AspectByte: 0,
        SColorMap: None,
        ImageCount: 0,
        Image: GifImageDesc {
            Left: 0,
            Top: 0,
            Width: 0,
            Height: 0,
            Interlace: GifBool(0),
            ColorMap: None,
        },
        SavedImages: Vec::new(),
        ExtensionBlockCount: 0,
        ExtensionBlocks: Vec::new(),
        Error: 0,
        Private: None,
    }
}

/// A fresh encoder state: tagged, with `current_code` at `FIRST_CODE` and every other
/// field zero or absent.
pub fn alloc_encoder_state() -> (r: EncoderState)
    ensures
        r.tag@ == encoder_state_tag_bytes(),
        r.current_code == FIRST_CODE,
        r.file_state == 0 && r.file_handle == 0 && r.bits_per_pixel == 0,
        r.clear_code == 0 && r.eof_code == 0 && r.running_code == 0 && r.running_bits == 0,
        r.max_code1 == 0 && r.current_shift_state == 0,
        r.current_shift_dword == 0 && r.pixel_count == 0,
        !r.file_open && !r.write_func_set && !r.gif89,
        r.hash_table is None,
        forall|i: int| 0 <= i < 256 ==> r.output_buffer@[i] == 0,
{
    let buffer: [u8; 256] = [0u8; 256];
    EncoderState {
        tag: encoder_state_tag(),
        file_state: 0,
        file_handle: 0,
        bits_per_pixel: 0,
        clear_code: 0,
        eof_code: 0,
        running_code: 0,
        running_bits: 0,
        max_code1: 0,
        current_code: FIRST_CODE,
        current_shift_state: 0,
        current_shift_dword: 0,
        pixel_count: 0,
        file_open: false,
        write_func_set: false,
        output_buffer: buffer,
        hash_table: None,
        gif89: false,
    }
}

/// The state block, where it is one: present and carrying the encoder's tag.
pub open spec fn recognised_encoder_state(private: Option<EncoderState>) -> Option<EncoderState> {
    match private {
        Some(state) => if state.tag@ == encoder_state_tag_bytes() {
            Some(state)
        } else {
            None
        },
        None => None,
    }
}

/// A freshly allocated encoder state is recognised as one.
pub proof fn lemma_fresh_encoder_state_recognised(state: EncoderState)
    requires
        state.tag@ == encoder_state_tag_bytes(),
    ensures
        recognised_encoder_state(Some(state)) == Some(state),
{
}

/// A block whose tag differs from the encoder's in any byte, or no block, is not
/// recognised as an encoder state; a recognised block is the block given.
pub proof fn lemma_foreign_block_not_recognised(private: Option<EncoderState>, i: int)
    ensures
        private is None ==> recognised_encoder_state(private) is None,
        private matches Some(s) && 0 <= i < 8 && s.tag@[i] != encoder_state_tag_bytes()[i]
            ==> recognised_encoder_state(private) is None,
        recognised_encoder_state(private) matches Some(s) ==> private == Some(s),
{
}

/// Tells whether `tag` is the encoder's tag.
pub fn is_encoder_state_tag(tag: &[u8; 8]) -> (r: bool)
    ensures
        r == (tag@ == encoder_state_tag_bytes()),
{
    let expected = encoder_state_tag();
    let mut i: usize = 0;
    while i < 8
        invariant
            i <= 8,
            expected@ == encoder_state_tag_bytes(),
            forall|j: int| 0 <= j < i ==> tag@[j] == expected@[j],
        decreases 8 - i,
    {
        if tag[i] != expected[i] {
            assert(tag@[i as int] != encoder_state_tag_bytes()[i as int]);
            return false;
        }
        i = i + 1;
    }
    assert(tag@ =~= encoder_state_tag_bytes());
    true
}

/// Views a private block as the encoder's state: `None` where the block is absent or
/// does not carry the encoder's tag.
pub fn encoder_state_from_private(private: Option<&EncoderState>) -> (r: Option<&EncoderState>)
    ensures
        match private {
            Some(p) => match r {
                Some(s) => recognised_encoder_state(Some(*p)) == Some(*s),
                None => recognised_encoder_state(Some(*p)) is None,
            },
            None => r is None,
        },
{
    match private {
        None => None,
        Some(state) => if is_encoder_state_tag(&state.tag) {
            Some(state)
        } else {
            None
        },
    }
}

/// The encoder's state of a file: `None` where the file is absent or its private
/// block is not an encoder's state.
pub fn encoder_state(gif_file: Option<&GifFileType>) -> (r: Option<&EncoderState>)
    ensures
        match gif_file {
            Some(f) => match r {
                Some(s) => recognised_encoder_state(f.Private) == Some(*s),
                None => recognised_encoder_state(f.Private) is None,
            },
            None => r is None,
        },
{
    match gif_file {
        None => None,
        Some(file) => encoder_state_from_private(file.Private.as_ref()),
    }
}

} // verus!
