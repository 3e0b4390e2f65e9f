use giflib::ffi::{
    GifBool, GifFileType, GifImageDesc, SavedImage, CONTINUE_EXT_FUNC_CODE, COMMENT_EXT_FUNC_CODE,
    D_GIF_ERR_NO_IMAG_DSCR, EXTENSION_RECORD_TYPE, GIF_ERROR, GIF_OK, IMAGE_DESC_RECORD_TYPE,
    TERMINATE_RECORD_TYPE,
};
use giflib::slurp::{slurp_start, slurp_step, DGifDecreaseImageCounter, SlurpAction, SlurpEvent, SlurpPhase};
use giflib::state::alloc_gif_file;

fn desc(width: i32, height: i32, interlace: bool) -> GifImageDesc {
    GifImageDesc {
        Left: 0,
        Top: 0,
        Width: width,
        Height: height,
        Interlace: GifBool::new(interlace),
        ColorMap: None,
    }
}

fn run(file: &mut GifFileType, events: Vec<SlurpEvent>) -> Vec<SlurpAction> {
    let mut phase = slurp_start(file);
    let mut actions = vec![SlurpAction::GetRecordType];
    for event in events {
        actions.push(slurp_step(file, &mut phase, event));
    }
    actions
}

#[test]
fn slurp_one_plain_image_with_extension() {
    let mut file = alloc_gif_file();
    let actions = run(
        &mut file,
        vec![
            SlurpEvent::RecordType(EXTENSION_RECORD_TYPE),
            SlurpEvent::Extension(COMMENT_EXT_FUNC_CODE, Some(vec![2, b'h', b'i', 99])),
            SlurpEvent::ExtensionNext(Some(vec![1, b'!'])),
            SlurpEvent::ExtensionNext(None),
            SlurpEvent::RecordType(IMAGE_DESC_RECORD_TYPE),
            SlurpEvent::ImageDesc(desc(2, 2, false)),
            SlurpEvent::Line(vec![1, 2, 3, 4]),
            SlurpEvent::RecordType(TERMINATE_RECORD_TYPE),
        ],
    );
    assert_eq!(
        actions,
        vec![
            SlurpAction::GetRecordType,
            SlurpAction::GetExtension,
            SlurpAction::GetExtensionNext,
            SlurpAction::GetExtensionNext,
            SlurpAction::GetRecordType,
            SlurpAction::GetImageDesc,
            SlurpAction::GetLine(4),
            SlurpAction::GetRecordType,
            SlurpAction::Finish(GIF_OK),
        ]
    );
    assert_eq!(file.ImageCount, 1);
    let image = &file.SavedImages[0];
    assert_eq!(image.RasterBits, vec![1, 2, 3, 4]);
    assert_eq!(image.ExtensionBlockCount, 2);
    assert_eq!(image.ExtensionBlocks[0].Function, COMMENT_EXT_FUNC_CODE);
    assert_eq!(image.ExtensionBlocks[0].Bytes, Some(vec![b'h', b'i']));
    assert_eq!(image.ExtensionBlocks[1].Function, CONTINUE_EXT_FUNC_CODE);
    assert_eq!(image.ExtensionBlocks[1].Bytes, Some(vec![b'!']));
    assert_eq!(file.ExtensionBlockCount, 0);
    assert!(file.ExtensionBlocks.is_empty());
    assert_eq!(file.Image.Width, 2);
}

#[test]
fn slurp_interlaced_rows_land_in_place() {
    let mut file = alloc_gif_file();
    let actions = run(
        &mut file,
        vec![
            SlurpEvent::RecordType(IMAGE_DESC_RECORD_TYPE),
            SlurpEvent::ImageDesc(desc(1, 5, true)),
            SlurpEvent::Line(vec![10]),
            SlurpEvent::Line(vec![14]),
            SlurpEvent::Line(vec![12]),
            SlurpEvent::Line(vec![11]),
            SlurpEvent::Line(vec![13]),
            SlurpEvent::RecordType(TERMINATE_RECORD_TYPE),
        ],
    );
    assert_eq!(actions[2..7].to_vec(), vec![SlurpAction::GetLine(1); 5]);
    assert_eq!(actions[7], SlurpAction::GetRecordType);
    assert_eq!(actions[8], SlurpAction::Finish(GIF_OK));
    assert_eq!(file.SavedImages[0].RasterBits, vec![10, 11, 12, 13, 14]);
}

#[test]
fn slurp_interlaced_ten_rows_order() {
    let mut file = alloc_gif_file();
    let mut phase = slurp_start(&mut file);
    slurp_step(&mut file, &mut phase, SlurpEvent::RecordType(IMAGE_DESC_RECORD_TYPE));
    slurp_step(&mut file, &mut phase, SlurpEvent::ImageDesc(desc(2, 10, true)));
    let order = [0u8, 8, 4, 2, 6, 1, 3, 5, 7, 9];
    let mut rows = Vec::new();
    for &row in order.iter() {
        if let SlurpPhase::InterlacedRow { row: r, .. } = phase {
            rows.push(r as u8);
        }
        slurp_step(&mut file, &mut phase, SlurpEvent::Line(vec![row, row]));
    }
    assert_eq!(rows, order.to_vec());
    assert_eq!(phase, SlurpPhase::RecordType);
    let expected: Vec<u8> = (0..10u8).flat_map(|r| vec![r, r]).collect();
    assert_eq!(file.SavedImages[0].RasterBits, expected);
}

#[test]
fn slurp_without_images_fails() {
    let mut file = alloc_gif_file();
    let actions = run(&mut file, vec![SlurpEvent::RecordType(TERMINATE_RECORD_TYPE)]);
    assert_eq!(actions.last(), Some(&SlurpAction::Finish(GIF_ERROR)));
    assert_eq!(file.Error, D_GIF_ERR_NO_IMAG_DSCR);
}

#[test]
fn slurp_skips_unknown_records() {
    let mut file = alloc_gif_file();
    let actions = run(&mut file, vec![SlurpEvent::RecordType(0), SlurpEvent::RecordType(7)]);
    assert_eq!(actions, vec![SlurpAction::GetRecordType; 3]);
}

#[test]
fn slurp_rejects_bad_dimensions() {
    for (w, h) in [(0, 5), (5, 0), (-1, 3), (65536, 65536), (i32::MAX, 2)] {
        let mut file = alloc_gif_file();
        let actions = run(
            &mut file,
            vec![SlurpEvent::RecordType(IMAGE_DESC_RECORD_TYPE), SlurpEvent::ImageDesc(desc(w, h, false))],
        );
        assert_eq!(actions.last(), Some(&SlurpAction::Finish(GIF_ERROR)));
        assert_eq!(file.ImageCount, 0);
        assert!(file.SavedImages.is_empty());
        assert_eq!(file.Image.Width, w);
    }
}

#[test]
fn slurp_read_failure_drops_image() {
    let mut file = alloc_gif_file();
    let actions = run(
        &mut file,
        vec![
            SlurpEvent::RecordType(IMAGE_DESC_RECORD_TYPE),
            SlurpEvent::ImageDesc(desc(1, 1, false)),
            SlurpEvent::Line(vec![5]),
            SlurpEvent::RecordType(IMAGE_DESC_RECORD_TYPE),
            SlurpEvent::ImageDesc(desc(3, 3, true)),
            SlurpEvent::Line(vec![1, 2, 3]),
            SlurpEvent::Failed,
        ],
    );
    assert_eq!(actions.last(), Some(&SlurpAction::Finish(GIF_ERROR)));
    assert_eq!(file.ImageCount, 1);
    assert_eq!(file.SavedImages.len(), 1);
    assert_eq!(file.SavedImages[0].RasterBits, vec![5]);
}

#[test]
fn slurp_extension_failure_keeps_file() {
    let mut file = alloc_gif_file();
    let actions = run(
        &mut file,
        vec![SlurpEvent::RecordType(EXTENSION_RECORD_TYPE), SlurpEvent::Extension(1, None), SlurpEvent::Failed],
    );
    assert_eq!(actions.last(), Some(&SlurpAction::Finish(GIF_ERROR)));
    assert!(file.ExtensionBlocks.is_empty());
}

#[test]
fn slurp_start_drops_pending_blocks() {
    let mut file = alloc_gif_file();
    file.ExtensionBlocks.push(Default::default());
    file.ExtensionBlockCount = 1;
    let phase = slurp_start(&mut file);
    assert_eq!(phase, SlurpPhase::RecordType);
    assert_eq!(file.ExtensionBlockCount, 0);
    assert!(file.ExtensionBlocks.is_empty());
}

#[test]
fn decrease_image_counter_drops_last() {
    let mut file = alloc_gif_file();
    for n in 1..=3u8 {
        file.SavedImages.push(SavedImage { RasterBits: vec![n], ..Default::default() });
        file.ImageCount += 1;
    }
    DGifDecreaseImageCounter(&mut file);
    assert_eq!(file.ImageCount, 2);
    assert_eq!(file.SavedImages.len(), 2);
    assert_eq!(file.SavedImages[1].RasterBits, vec![2]);
}

#[test]
fn decrease_image_counter_empty_file() {
    let mut file = alloc_gif_file();
    DGifDecreaseImageCounter(&mut file);
    assert_eq!(file.ImageCount, 0);
    assert!(file.SavedImages.is_empty());
}
