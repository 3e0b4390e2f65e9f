use giflib::io::{callback_count, internal_write_plan, transfer_plan, TransferPlan};
use giflib::state::{alloc_encoder_state, alloc_gif_file, encoder_state, encoder_state_from_private, FIRST_CODE};

#[test]
fn fresh_file_is_empty() {
    let file = alloc_gif_file();
    assert_eq!(file.ImageCount, 0);
    assert!(file.SavedImages.is_empty());
    assert!(file.SColorMap.is_none());
    assert!(file.Private.is_none());
    assert_eq!(file.Error, 0);
}

#[test]
fn fresh_encoder_state_is_tagged() {
    let state = alloc_encoder_state();
    assert_eq!(&state.tag, b"EGIFRS03");
    assert_eq!(state.current_code, FIRST_CODE);
    assert_eq!(state.current_code, 4097);
    assert_eq!(state.running_code, 0);
    assert!(state.output_buffer.iter().all(|&b| b == 0));
    assert!(encoder_state_from_private(Some(&state)).is_some());
}

#[test]
fn foreign_block_is_not_an_encoder_state() {
    let mut state = alloc_encoder_state();
    state.tag[7] = b'4';
    assert!(encoder_state_from_private(Some(&state)).is_none());
    assert!(encoder_state_from_private(None).is_none());
}

#[test]
fn encoder_state_of_file() {
    let mut file = alloc_gif_file();
    assert!(encoder_state(Some(&file)).is_none());
    assert!(encoder_state(None).is_none());
    file.Private = Some(alloc_encoder_state());
    assert_eq!(encoder_state(Some(&file)).map(|s| s.current_code), Some(FIRST_CODE));
}

#[test]
fn transfer_plans() {
    assert_eq!(transfer_plan(0, true, true), TransferPlan::Nothing);
    assert_eq!(transfer_plan(10, true, true), TransferPlan::Callback(10));
    assert_eq!(transfer_plan(10, false, true), TransferPlan::Stream(10));
    assert_eq!(transfer_plan(10, false, false), TransferPlan::Nothing);
    assert_eq!(transfer_plan(i32::MAX as usize, true, false), TransferPlan::Callback(i32::MAX));
    assert_eq!(transfer_plan(i32::MAX as usize + 1, true, true), TransferPlan::Nothing);
}

#[test]
fn callback_counts() {
    assert_eq!(callback_count(-1), 0);
    assert_eq!(callback_count(i32::MIN), 0);
    assert_eq!(callback_count(0), 0);
    assert_eq!(callback_count(17), 17);
}

#[test]
fn write_plan_needs_encoder_state() {
    let mut file = alloc_gif_file();
    assert_eq!(internal_write_plan(Some(&file), 4), TransferPlan::Nothing);
    assert_eq!(internal_write_plan(None, 4), TransferPlan::Nothing);
    let mut state = alloc_encoder_state();
    state.file_open = true;
    file.Private = Some(state);
    assert_eq!(internal_write_plan(Some(&file), 4), TransferPlan::Stream(4));
    assert_eq!(internal_write_plan(Some(&file), 0), TransferPlan::Nothing);
    if let Some(s) = file.Private.as_mut() {
        s.write_func_set = true;
    }
    assert_eq!(internal_write_plan(Some(&file), 4), TransferPlan::Callback(4));
}
