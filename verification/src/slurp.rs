use vstd::prelude::*;

use crate::ffi::{
    ColorMapObject, ExtensionBlock, GifColorType, GifFileType, GifImageDesc, SavedImage,
    CONTINUE_EXT_FUNC_CODE, D_GIF_ERR_NO_IMAG_DSCR, EXTENSION_RECORD_TYPE, GIF_ERROR, GIF_OK,
    IMAGE_DESC_RECORD_TYPE, TERMINATE_RECORD_TYPE,
};
use crate::helpers::{block_holds, GifAddExtensionBlock};
use crate::interlace::{is_interlaced_row, lemma_next_interlaced_row, next_interlaced_row, next_row};

verus! {

/// Removes the last saved image, where there is one.
pub fn DGifDecreaseImageCounter(GifFile: &mut GifFileType)
    requires
        old(GifFile).wf(),
    ensures
        final(GifFile).wf(),
        old(GifFile).ImageCount <= 0 ==> *final(GifFile) == *old(GifFile),
        old(GifFile).ImageCount > 0 ==> {
            &&& final(GifFile).same_screen(&*old(GifFile))
            &&& final(GifFile).Image == old(GifFile).Image
            &&& final(GifFile).ExtensionBlockCount == old(GifFile).ExtensionBlockCount
            &&& final(GifFile).ExtensionBlocks == old(GifFile).ExtensionBlocks
            &&& final(GifFile).ImageCount == old(GifFile).ImageCount - 1
            &&& final(GifFile).SavedImages@ == old(GifFile).SavedImages@.drop_last()
        },
{
    if GifFile.SavedImages.len() == 0 || GifFile.ImageCount <= 0 {
        return;
    }
    let _ = GifFile.SavedImages.pop();
    GifFile.ImageCount = GifFile.ImageCount - 1;
}

/// Where `DGifSlurp` stands between two reads of the decoder.
#[derive(Copy, Clone, PartialEq, Eq, Structural, Debug)]
pub enum SlurpPhase {
    /// The next record type is to be read.
    RecordType,
    /// An image descriptor is to be read.
    ImageDesc,
    /// The whole raster of a non-interlaced image is to be read.
    Raster,
    /// Row `row` of interlace pass `pass` of the last image is to be read.
    InterlacedRow { pass: usize, row: i32 },
    /// The first sub-block of an extension is to be read.
    Extension,
    /// The next sub-block of an extension is to be read.
    ExtensionNext,
    /// The slurp has ended with this result.
    Finished(i32),
}

/// What the decoder is asked to do next.
#[derive(Copy, Clone, PartialEq, Eq, Structural, Debug)]
pub enum SlurpAction {
    GetRecordType,
    GetImageDesc,
    /// Read this many pixels.
    GetLine(usize),
    GetExtension,
    GetExtensionNext,
    /// Stop and return this result.
    Finish(i32),
}

/// What the decoder answered.
pub enum SlurpEvent {
    /// The read failed.
    Failed,
    RecordType(i32),
    ImageDesc(GifImageDesc),
    /// The pixels read.
    Line(Vec<u8>),
    /// The extension code and its first sub-block (length byte first), if any.
    Extension(i32, Option<Vec<u8>>),
    /// The next sub-block (length byte first), or `None` at the end of the extension.
    ExtensionNext(Option<Vec<u8>>),
}

/// An image of this width and height is accepted: both positive and the pixel count
/// within `i32`.
pub open spec fn image_dims_ok(width: int, height: int) -> bool {
    0 < width && 0 < height && width * height <= i32::MAX
}

/// A sub-block as the decoder hands it over: a length byte followed by at least that
/// many bytes.
pub open spec fn sub_block_ok(block: Seq<u8>) -> bool {
    block.len() >= 1 && block.len() >= 1 + block[0]
}

/// The data bytes of a sub-block.
pub open spec fn sub_block_data(block: Seq<u8>) -> Seq<u8> {
    block.subrange(1, 1 + block[0] as int)
}

/// `raster` with the bytes from `start` on replaced by `line`.
pub open spec fn raster_with_line(raster: Seq<u8>, start: int, line: Seq<u8>) -> Seq<u8> {
    raster.subrange(0, start) + line + raster.subrange(start + line.len(), raster.len() as int)
}

impl SlurpPhase {
    /// The file holds what this phase reads into: a last image with accepted dimensions
    /// and a raster of its size, and for interlaced rows a row of its pass within the image.
    pub open spec fn consistent(self, file: GifFileType) -> bool {
        match self {
            SlurpPhase::Raster => {
                &&& file.SavedImages@.len() > 0
                &&& last_image_ready(file)
                &&& !file.SavedImages@.last().ImageDesc.Interlace@
            },
            SlurpPhase::InterlacedRow { pass, row } => {
                &&& file.SavedImages@.len() > 0
                &&& last_image_ready(file)
                &&& file.SavedImages@.last().ImageDesc.Interlace@
                &&& is_interlaced_row(pass as int, row as int)
                &&& row < file.SavedImages@.last().ImageDesc.Height
            },
            _ => true,
        }
    }
}

/// The last image has accepted dimensions and a raster of its size.
pub open spec fn last_image_ready(file: GifFileType) -> bool {
    let desc = file.SavedImages@.last().ImageDesc;
    &&& image_dims_ok(desc.Width as int, desc.Height as int)
    &&& file.SavedImages@.last().RasterBits@.len() == desc.Width * desc.Height
}

/// The decoder request that goes with `phase`.
pub open spec fn slurp_action(phase: SlurpPhase, file: GifFileType) -> SlurpAction {
    let desc = file.SavedImages@.last().ImageDesc;
    match phase {
        SlurpPhase::RecordType => SlurpAction::GetRecordType,
        SlurpPhase::ImageDesc => SlurpAction::GetImageDesc,
        SlurpPhase::Raster => SlurpAction::GetLine((desc.Width * desc.Height) as usize),
        SlurpPhase::InterlacedRow { .. } => SlurpAction::GetLine(desc.Width as usize),
        SlurpPhase::Extension => SlurpAction::GetExtension,
        SlurpPhase::ExtensionNext => SlurpAction::GetExtensionNext,
        SlurpPhase::Finished(code) => SlurpAction::Finish(code),
    }
}

/// Writing a line into a raster keeps its length, puts the line's bytes from `start` on
/// and leaves every other byte as it was.
pub proof fn lemma_raster_with_line(raster: Seq<u8>, start: int, line: Seq<u8>)
    requires
        0 <= start,
        start + line.len() <= raster.len(),
    ensures
        raster_with_line(raster, start, line).len() == raster.len(),
        forall|k: int| 0 <= k < line.len() ==> #[trigger] raster_with_line(raster, start, line)[start + k]
            == line[k],
        forall|k: int| 0 <= k < raster.len() && !(start <= k < start + line.len())
            ==> #[trigger] raster_with_line(raster, start, line)[k] == raster[k],
{
}

/// The data of a sub-block are the bytes after its length byte, as many as it gives.
pub proof fn lemma_sub_block_data(block: Seq<u8>)
    requires
        sub_block_ok(block),
    ensures
        sub_block_data(block).len() == block[0] as int,
        forall|k: int| 0 <= k < block[0] ==> #[trigger] sub_block_data(block)[k] == block[k + 1],
{
}

/// The line requested for an image is exactly what its raster takes: all of it for a
/// non-interlaced image, one row (a positive width, `height` of which fill the raster)
/// for an interlaced one; and a line of that length is what the step accepts.
pub proof fn lemma_line_request_fits_raster(phase: SlurpPhase, file: GifFileType, line: Vec<u8>)
    requires
        phase.consistent(file),
    ensures
        phase is Raster ==> slurp_action(phase, file) == SlurpAction::GetLine(
            file.SavedImages@.last().RasterBits@.len() as usize,
        ),
        phase is InterlacedRow ==> (slurp_action(phase, file) matches SlurpAction::GetLine(n) && n > 0
            && n * file.SavedImages@.last().ImageDesc.Height == file.SavedImages@.last().RasterBits@.len()),
        phase is Raster || phase is InterlacedRow ==> (slurp_action(phase, file) matches SlurpAction::GetLine(n)
            && (event_answers(phase, file, SlurpEvent::Line(line)) <==> line@.len() == n)),
        phase == SlurpPhase::RecordType ==> slurp_action(phase, file) == SlurpAction::GetRecordType,
        phase == SlurpPhase::ImageDesc ==> slurp_action(phase, file) == SlurpAction::GetImageDesc,
        phase == SlurpPhase::Extension ==> slurp_action(phase, file) == SlurpAction::GetExtension,
        phase == SlurpPhase::ExtensionNext ==> slurp_action(phase, file) == SlurpAction::GetExtensionNext,
        phase matches SlurpPhase::Finished(code) ==> slurp_action(phase, file) == SlurpAction::Finish(code),
{
    let desc = file.SavedImages@.last().ImageDesc;
    if phase is Raster || phase is InterlacedRow {
        assert(desc.Width * desc.Height <= i32::MAX);
        assert(desc.Width * desc.Height >= desc.Width) by (nonlinear_arith)
            requires desc.Height > 0, desc.Width > 0;
    }
}

/// `event` is an answer to the request of `phase`: a failure, or the value that request
/// yields, with lines of the requested length and well-formed sub-blocks.
pub open spec fn event_answers(phase: SlurpPhase, file: GifFileType, event: SlurpEvent) -> bool {
    let desc = file.SavedImages@.last().ImageDesc;
    match (phase, event) {
        (SlurpPhase::Finished(_), _) => false,
        (_, SlurpEvent::Failed) => true,
        (SlurpPhase::RecordType, SlurpEvent::RecordType(_)) => true,
        (SlurpPhase::ImageDesc, SlurpEvent::ImageDesc(_)) => true,
        (SlurpPhase::Raster, SlurpEvent::Line(line)) => line@.len() == desc.Width * desc.Height,
        (SlurpPhase::InterlacedRow { .. }, SlurpEvent::Line(line)) => line@.len() == desc.Width,
        (SlurpPhase::Extension, SlurpEvent::Extension(_, block)) => block matches Some(b)
            ==> sub_block_ok(b@),
        (SlurpPhase::ExtensionNext, SlurpEvent::ExtensionNext(block)) => block matches Some(b)
            ==> sub_block_ok(b@),
        _ => false,
    }
}

/// `after` is `before` with the last image's raster set to `raster` and, where
/// `attach` holds and the file has pending extension blocks, those blocks moved to
/// the last image.
pub open spec fn last_image_updated(
    before: GifFileType,
    after: GifFileType,
    raster: Seq<u8>,
    attach: bool,
) -> bool {
    let old_image = before.SavedImages@.last();
    let new_image = after.SavedImages@.last();
    &&& after.same_screen(&before)
    &&& after.Image == before.Image
    &&& after.ImageCount == before.ImageCount
    &&& after.SavedImages@.len() == before.SavedImages@.len()
    &&& after.SavedImages@.drop_last() == before.SavedImages@.drop_last()
    &&& new_image.ImageDesc == old_image.ImageDesc
    &&& new_image.RasterBits@ == raster
    &&& if attach && before.ExtensionBlocks@.len() > 0 {
        &&& new_image.ExtensionBlocks == before.ExtensionBlocks
        &&& new_image.ExtensionBlockCount == before.ExtensionBlockCount
        &&& after.ExtensionBlocks@.len() == 0
        &&& after.ExtensionBlockCount == 0
    } else {
        &&& new_image.ExtensionBlocks == old_image.ExtensionBlocks
        &&& new_image.ExtensionBlockCount == old_image.ExtensionBlockCount
        &&& after.ExtensionBlocks == before.ExtensionBlocks
        &&& after.ExtensionBlockCount == before.ExtensionBlockCount
    }
}

/// `after` is `before` with one more pending extension block, of function `function`,
/// holding `data`.
pub open spec fn pending_block_added(
    before: GifFileType,
    after: GifFileType,
    function: i32,
    data: Seq<u8>,
) -> bool {
    &&& after.same_screen(&before)
    &&& after.Image == before.Image
    &&& after.ImageCount == before.ImageCount
    &&& after.SavedImages == before.SavedImages
    &&& after.ExtensionBlockCount == before.ExtensionBlockCount + 1
    &&& after.ExtensionBlocks@.len() == before.ExtensionBlocks@.len() + 1
    &&& after.ExtensionBlocks@.drop_last() == before.ExtensionBlocks@
    &&& block_holds(after.ExtensionBlocks@.last(), function, data)
}

/// `after` is `before` without its last image.
pub open spec fn last_image_dropped(before: GifFileType, after: GifFileType) -> bool {
    &&& after.same_screen(&before)
    &&& after.Image == before.Image
    &&& after.ExtensionBlockCount == before.ExtensionBlockCount
    &&& after.ExtensionBlocks == before.ExtensionBlocks
    &&& after.ImageCount == before.ImageCount - 1
    &&& after.SavedImages@ == before.SavedImages@.drop_last()
}

/// The outcome of an image descriptor `desc` read in `before`.
pub open spec fn image_desc_outcome(
    before: GifFileType,
    after: GifFileType,
    phase: SlurpPhase,
    desc: GifImageDesc,
) -> bool {
    if before.ImageCount == i32::MAX {
        phase == SlurpPhase::Finished(GIF_ERROR) && after == before
    } else if !image_dims_ok(desc.Width as int, desc.Height as int) {
        phase == SlurpPhase::Finished(GIF_ERROR) && after == (GifFileType { Image: desc, ..before })
    } else {
        let image = after.SavedImages@.last();
        &&& after.same_screen(&before)
        &&& after.Image == desc
        &&& after.ExtensionBlockCount == before.ExtensionBlockCount
        &&& after.ExtensionBlocks == before.ExtensionBlocks
        &&& after.ImageCount == before.ImageCount + 1
        &&& after.SavedImages@.len() == before.SavedImages@.len() + 1
        &&& after.SavedImages@.drop_last() == before.SavedImages@
        &&& image.ImageDesc.same_as(&desc)
        &&& image.RasterBits@ == Seq::new((desc.Width * desc.Height) as nat, |i: int| 0u8)
        &&& image.ExtensionBlockCount == 0
        &&& image.ExtensionBlocks@.len() == 0
        &&& phase == if desc.Interlace@ {
            SlurpPhase::InterlacedRow { pass: 0, row: 0 }
        } else {
            SlurpPhase::Raster
        }
    }
}

/// Copies a color map.
fn copy_color_map(map: &ColorMapObject) -> (r: ColorMapObject)
    ensures
        r.same_as(map),
{
    let mut colors: Vec<GifColorType> = Vec::new();
    let mut i: usize = 0;
    while i < map.Colors.len()
        invariant
            i <= map.Colors@.len(),
            colors@ == map.Colors@.subrange(0, i as int),
        decreases map.Colors@.len() - i,
    {
        colors.push(map.Colors[i]);
        i = i + 1;
        assert(colors@ =~= map.Colors@.subrange(0, i as int));
    }
    assert(colors@ =~= map.Colors@);
    ColorMapObject {
        ColorCount: map.ColorCount,
        BitsPerPixel: map.BitsPerPixel,
        SortFlag: map.SortFlag,
        Colors: colors,
    }
}

/// Copies an image descriptor with its color map.
fn copy_image_desc(desc: &GifImageDesc) -> (r: GifImageDesc)
    ensures
        r.same_as(desc),
{
    let map = match &desc.ColorMap {
        Some(m) => Some(copy_color_map(m)),
        None => None,
    };
    GifImageDesc {
        Left: desc.Left,
        Top: desc.Top,
        Width: desc.Width,
        Height: desc.Height,
        Interlace: desc.Interlace,
        ColorMap: map,
    }
}

/// Copies the data bytes of a sub-block.
fn sub_block_payload(block: &Vec<u8>) -> (r: Vec<u8>)
    requires
        sub_block_ok(block@),
    ensures
        r@ == sub_block_data(block@),
{
    let len = block[0] as usize;
    let mut r: Vec<u8> = Vec::new();
    let mut i: usize = 0;
    while i < len
        invariant
            i <= len,
            len == block@[0],
            sub_block_ok(block@),
            r@ == block@.subrange(1, 1 + i as int),
        decreases len - i,
    {
        r.push(block[i + 1]);
        i = i + 1;
        assert(r@ =~= block@.subrange(1, 1 + i as int));
    }
    r
}

/// Moves the pending extension blocks of the file to `image`, where there are any.
fn attach_pending_blocks(GifFile: &mut GifFileType, image: &mut SavedImage)
    ensures
        final(GifFile).same_screen(&*old(GifFile)),
        final(GifFile).Image == old(GifFile).Image,
        final(GifFile).ImageCount == old(GifFile).ImageCount,
        final(GifFile).SavedImages == old(GifFile).SavedImages,
        final(image).ImageDesc == old(image).ImageDesc,
        final(image).RasterBits == old(image).RasterBits,
        if old(GifFile).ExtensionBlocks@.len() > 0 {
            &&& final(image).ExtensionBlocks == old(GifFile).ExtensionBlocks
            &&& final(image).ExtensionBlockCount == old(GifFile).ExtensionBlockCount
            &&& final(GifFile).ExtensionBlocks@.len() == 0
            &&& final(GifFile).ExtensionBlockCount == 0
        } else {
            &&& *final(image) == *old(image)
            &&& *final(GifFile) == *old(GifFile)
        },
{
    if GifFile.ExtensionBlocks.len() > 0 {
        let mut moved: Vec<ExtensionBlock> = Vec::new();
        std::mem::swap(&mut moved, &mut GifFile.ExtensionBlocks);
        image.ExtensionBlocks = moved;
        image.ExtensionBlockCount = GifFile.ExtensionBlockCount;
        GifFile.ExtensionBlockCount = 0;
    }
}

/// The decoder request that goes with `phase`.
fn action_for(GifFile: &GifFileType, phase: SlurpPhase) -> (a: SlurpAction)
    requires
        phase.consistent(*GifFile),
    ensures
        a == slurp_action(phase, *GifFile),
{
    match phase {
        SlurpPhase::RecordType => SlurpAction::GetRecordType,
        SlurpPhase::ImageDesc => SlurpAction::GetImageDesc,
        SlurpPhase::Raster => {
            let last = GifFile.SavedImages.len() - 1;
            let desc = &GifFile.SavedImages[last].ImageDesc;
            SlurpAction::GetLine((desc.Width * desc.Height) as usize)
        },
        SlurpPhase::InterlacedRow { .. } => {
            let last = GifFile.SavedImages.len() - 1;
            SlurpAction::GetLine(GifFile.SavedImages[last].ImageDesc.Width as usize)
        },
        SlurpPhase::Extension => SlurpAction::GetExtension,
        SlurpPhase::ExtensionNext => SlurpAction::GetExtensionNext,
        SlurpPhase::Finished(code) => SlurpAction::Finish(code),
    }
}

/// Begins a slurp: the file's pending extension blocks are dropped, and the first request
/// is for a record type.
pub fn slurp_start(GifFile: &mut GifFileType) -> (phase: SlurpPhase)
    requires
        old(GifFile).wf(),
    ensures
        final(GifFile).wf(),
        phase == SlurpPhase::RecordType,
        final(GifFile).same_screen(&*old(GifFile)),
        final(GifFile).Image == old(GifFile).Image,
        final(GifFile).ImageCount == old(GifFile).ImageCount,
        final(GifFile).SavedImages == old(GifFile).SavedImages,
        final(GifFile).ExtensionBlockCount == 0,
        final(GifFile).ExtensionBlocks@.len() == 0,
{
    GifFile.ExtensionBlocks = Vec::new();
    GifFile.ExtensionBlockCount = 0;
    SlurpPhase::RecordType
}

/// One step of `DGifSlurp`: takes the decoder's answer to the request of `phase`,
/// updates the file and the phase, and returns the next request.
///
/// A record type leads to an image descriptor, to an extension, to the end (an error
/// where no image was read), or is skipped. An accepted image descriptor appends a saved
/// image with a zeroed raster, which is then filled in one read, or row by row in
/// interlace order; once it is complete, the pending extension blocks move to it. An
/// image with a non-positive side or more than `i32::MAX` pixels is dropped with an
/// error, as is the image whose raster read fails. Each extension sub-block becomes a
/// pending extension block (the first with the extension's code, the rest as
/// continuations). Any other failed read ends with an error, leaving the file as it was.
#[verifier::rlimit(40)]
pub fn slurp_step(GifFile: &mut GifFileType, phase: &mut SlurpPhase, event: SlurpEvent) -> (action: SlurpAction)
    requires
        old(GifFile).wf(),
        old(phase).consistent(*old(GifFile)),
        event_answers(*old(phase), *old(GifFile), event),
    ensures
        final(GifFile).wf(),
        final(phase).consistent(*final(GifFile)),
        action == slurp_action(*final(phase), *final(GifFile)),
        *final(phase) == SlurpPhase::Finished(GIF_OK) ==> final(GifFile).ImageCount > 0,
        match (*old(phase), event) {
            (SlurpPhase::Raster, SlurpEvent::Failed) => *final(phase) == SlurpPhase::Finished(GIF_ERROR)
                && last_image_dropped(*old(GifFile), *final(GifFile)),
            (SlurpPhase::InterlacedRow { .. }, SlurpEvent::Failed) => *final(phase)
                == SlurpPhase::Finished(GIF_ERROR) && last_image_dropped(*old(GifFile), *final(GifFile)),
            (_, SlurpEvent::Failed) => *final(phase) == SlurpPhase::Finished(GIF_ERROR)
                && *final(GifFile) == *old(GifFile),
            (_, SlurpEvent::RecordType(t)) => if t == IMAGE_DESC_RECORD_TYPE {
                *final(phase) == SlurpPhase::ImageDesc && *final(GifFile) == *old(GifFile)
            } else if t == EXTENSION_RECORD_TYPE {
                *final(phase) == SlurpPhase::Extension && *final(GifFile) == *old(GifFile)
            } else if t == TERMINATE_RECORD_TYPE {
                if old(GifFile).ImageCount == 0 {
                    *final(phase) == SlurpPhase::Finished(GIF_ERROR) && *final(GifFile) == (GifFileType {
                        Error: D_GIF_ERR_NO_IMAG_DSCR,
                        ..*old(GifFile)
                    })
                } else {
                    *final(phase) == SlurpPhase::Finished(GIF_OK) && *final(GifFile) == *old(GifFile)
                }
            } else {
                *final(phase) == SlurpPhase::RecordType && *final(GifFile) == *old(GifFile)
            },
            (_, SlurpEvent::ImageDesc(desc)) => image_desc_outcome(
                *old(GifFile),
                *final(GifFile),
                *final(phase),
                desc,
            ),
            (SlurpPhase::Raster, SlurpEvent::Line(line)) => *final(phase) == SlurpPhase::RecordType
                && last_image_updated(*old(GifFile), *final(GifFile), line@, true),
            (SlurpPhase::InterlacedRow { pass, row }, SlurpEvent::Line(line)) => {
                let desc = old(GifFile).SavedImages@.last().ImageDesc;
                let raster = raster_with_line(
                    old(GifFile).SavedImages@.last().RasterBits@,
                    row * desc.Width,
                    line@,
                );
                match next_interlaced_row(pass as int, row as int, desc.Height as int) {
                    Some((p, r)) => *final(phase) == (SlurpPhase::InterlacedRow {
                        pass: p as usize,
                        row: r as i32,
                    }) && last_image_updated(*old(GifFile), *final(GifFile), raster, false),
                    None => *final(phase) == SlurpPhase::RecordType && last_image_updated(
                        *old(GifFile),
                        *final(GifFile),
                        raster,
                        true,
                    ),
                }
            },
            (_, SlurpEvent::Extension(function, block)) => match block {
                None => *final(phase) == SlurpPhase::ExtensionNext && *final(GifFile) == *old(GifFile),
                Some(b) => if old(GifFile).ExtensionBlockCount == i32::MAX {
                    *final(phase) == SlurpPhase::Finished(GIF_ERROR) && *final(GifFile) == *old(GifFile)
                } else {
                    *final(phase) == SlurpPhase::ExtensionNext && pending_block_added(
                        *old(GifFile),
                        *final(GifFile),
                        function,
                        sub_block_data(b@),
                    )
                },
            },
            (_, SlurpEvent::ExtensionNext(block)) => match block {
                None => *final(phase) == SlurpPhase::RecordType && *final(GifFile) == *old(GifFile),
                Some(b) => if old(GifFile).ExtensionBlockCount == i32::MAX {
                    *final(phase) == SlurpPhase::Finished(GIF_ERROR) && *final(GifFile) == *old(GifFile)
                } else {
                    *final(phase) == SlurpPhase::ExtensionNext && pending_block_added(
                        *old(GifFile),
                        *final(GifFile),
                        CONTINUE_EXT_FUNC_CODE,
                        sub_block_data(b@),
                    )
                },
            },
            _ => true,
        },
{
    let current = *phase;
    match event {
        SlurpEvent::Failed => {
            match current {
                SlurpPhase::Raster | SlurpPhase::InterlacedRow { .. } => {
                    DGifDecreaseImageCounter(GifFile);
                },
                _ => {},
            }
            *phase = SlurpPhase::Finished(GIF_ERROR);
        },
        SlurpEvent::RecordType(record_type) => {
            if record_type == IMAGE_DESC_RECORD_TYPE {
                *phase = SlurpPhase::ImageDesc;
            } else if record_type == EXTENSION_RECORD_TYPE {
                *phase = SlurpPhase::Extension;
            } else if record_type == TERMINATE_RECORD_TYPE {
                if GifFile.ImageCount == 0 {
                    GifFile.Error = D_GIF_ERR_NO_IMAG_DSCR;
                    *phase = SlurpPhase::Finished(GIF_ERROR);
                } else {
                    *phase = SlurpPhase::Finished(GIF_OK);
                }
            } else {
                *phase = SlurpPhase::RecordType;
            }
        },
        SlurpEvent::ImageDesc(desc) => {
            if GifFile.ImageCount == i32::MAX {
                *phase = SlurpPhase::Finished(GIF_ERROR);
            } else {
                let width = desc.Width;
                let height = desc.Height;
                let interlace = desc.Interlace.get();
                let saved_desc = copy_image_desc(&desc);
                GifFile.Image = desc;
                if width <= 0 || height <= 0 || width > i32::MAX / height {
                    proof {
                        if 0 < width && 0 < height {
                            assert(width * height > i32::MAX) by (nonlinear_arith)
                                requires
                                    0 < height,
                                    width > i32::MAX / height;
                        }
                    }
                    *phase = SlurpPhase::Finished(GIF_ERROR);
                } else {
                    proof {
                        assert(width * height <= i32::MAX) by (nonlinear_arith)
                            requires
                                0 < height,
                                0 < width,
                                width <= i32::MAX / height;
                    }
                    let size = (width * height) as usize;
                    let raster = vec![0u8; size];
                    proof {
                        assert(raster@ =~= Seq::new((width * height) as nat, |i: int| 0u8));
                    }
                    let image = SavedImage {
                        ImageDesc: saved_desc,
                        RasterBits: raster,
                        ExtensionBlockCount: 0,
                        ExtensionBlocks: Vec::new(),
                    };
                    GifFile.SavedImages.push(image);
                    GifFile.ImageCount = GifFile.ImageCount + 1;
                    proof {
                        assert(GifFile.SavedImages@.drop_last() =~= old(GifFile).SavedImages@);
                        assert forall|i: int| 0 <= i < GifFile.SavedImages@.len()
                            implies (#[trigger] GifFile.SavedImages@[i]).wf() by {
                            if i < old(GifFile).SavedImages@.len() {
                                assert(GifFile.SavedImages@[i] == old(GifFile).SavedImages@[i]);
                            }
                        }
                    }
                    if interlace {
                        *phase = SlurpPhase::InterlacedRow { pass: 0, row: 0 };
                    } else {
                        *phase = SlurpPhase::Raster;
                    }
                }
            }
        },
        SlurpEvent::Line(line) => {
            let mut image = GifFile.SavedImages.pop().unwrap();
            let ghost before_image = image;
            let ghost rest = GifFile.SavedImages@;
            match current {
                SlurpPhase::InterlacedRow { pass, row } => {
                    let width = image.ImageDesc.Width;
                    let height = image.ImageDesc.Height;
                    proof {
                        assert(row * width + width <= width * height) by (nonlinear_arith)
                            requires
                                0 <= row < height,
                                0 < width;
                    }
                    let start = (row as usize) * (width as usize);
                    let count = width as usize;
                    let mut j: usize = 0;
                    while j < count
                        invariant
                            j <= count,
                            start + count <= usize::MAX,
                            count == line@.len(),
                            start + count <= image.RasterBits@.len(),
                            image.RasterBits@.len() == before_image.RasterBits@.len(),
                            image.ImageDesc == before_image.ImageDesc,
                            image.ExtensionBlocks == before_image.ExtensionBlocks,
                            image.ExtensionBlockCount == before_image.ExtensionBlockCount,
                            image.RasterBits@ == raster_with_line(
                                before_image.RasterBits@,
                                start as int,
                                line@.subrange(0, j as int),
                            ),
                        decreases count - j,
                    {
                        image.RasterBits.set(start + j, line[j]);
                        j = j + 1;
                        assert(image.RasterBits@ =~= raster_with_line(
                            before_image.RasterBits@,
                            start as int,
                            line@.subrange(0, j as int),
                        ));
                    }
                    assert(line@.subrange(0, count as int) =~= line@);
                    match next_row(pass, row, height) {
                        Some((next_pass, next_row)) => {
                            proof {
                                lemma_next_interlaced_row(pass as int, row as int, height as int);
                            }
                            *phase = SlurpPhase::InterlacedRow { pass: next_pass, row: next_row };
                        },
                        None => {
                            attach_pending_blocks(GifFile, &mut image);
                            *phase = SlurpPhase::RecordType;
                        },
                    }
                },
                _ => {
                    image.RasterBits = line;
                    attach_pending_blocks(GifFile, &mut image);
                    *phase = SlurpPhase::RecordType;
                },
            }
            GifFile.SavedImages.push(image);
            proof {
                assert(GifFile.SavedImages@.drop_last() =~= rest);
                assert(rest =~= old(GifFile).SavedImages@.drop_last());
                assert forall|i: int| 0 <= i < GifFile.SavedImages@.len()
                    implies (#[trigger] GifFile.SavedImages@[i]).wf() by {
                    if i < rest.len() {
                        assert(GifFile.SavedImages@[i] == old(GifFile).SavedImages@[i]);
                    }
                }
            }
        },
        SlurpEvent::Extension(function, block) => {
            match block {
                None => {
                    *phase = SlurpPhase::ExtensionNext;
                },
                Some(b) => {
                    let data = sub_block_payload(&b);
                    if GifAddExtensionBlock(
                        &mut GifFile.ExtensionBlockCount,
                        &mut GifFile.ExtensionBlocks,
                        function,
                        b[0] as u32,
                        data.as_slice(),
                    ) == GIF_ERROR {
                        *phase = SlurpPhase::Finished(GIF_ERROR);
                    } else {
                        assert(data@.subrange(0, b@[0] as int) =~= data@);
                        *phase = SlurpPhase::ExtensionNext;
                    }
                },
            }
        },
        SlurpEvent::ExtensionNext(block) => {
            match block {
                None => {
                    *phase = SlurpPhase::RecordType;
                },
                Some(b) => {
                    let data = sub_block_payload(&b);
                    if GifAddExtensionBlock(
                        &mut GifFile.ExtensionBlockCount,
                        &mut GifFile.ExtensionBlocks,
                        CONTINUE_EXT_FUNC_CODE,
                        b[0] as u32,
                        data.as_slice(),
                    ) == GIF_ERROR {
                        *phase = SlurpPhase::Finished(GIF_ERROR);
                    } else {
                        assert(data@.subrange(0, b@[0] as int) =~= data@);
                        *phase = SlurpPhase::ExtensionNext;
                    }
                },
            }
        },
    }
    action_for(GifFile, *phase)
}

} // verus!
