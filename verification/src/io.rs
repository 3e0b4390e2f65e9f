use vstd::prelude::*;

use crate::ffi::GifFileType;
use crate::state::{encoder_state, recognised_encoder_state};

verus! {

/// How a read or a write of `len` bytes is carried out.
#[derive(Copy, Clone, PartialEq, Eq, Structural, Debug)]
pub enum TransferPlan {
    /// Nothing is transferred; the count is 0.
    Nothing,
    /// The installed callback is called for this many bytes.
    Callback(i32),
    /// The stream is read or written for this many bytes.
    Stream(usize),
}

/// The plan for transferring `len` bytes: nothing for zero bytes; the callback where one
/// is installed (nothing where `len` does not fit in an `i32`); else the stream where one
/// is open; else nothing.
pub open spec fn transfer_plan_spec(len: usize, callback_set: bool, file_open: bool) -> TransferPlan {
    if len == 0 {
        TransferPlan::Nothing
    } else if callback_set {
        if len <= i32::MAX {
            TransferPlan::Callback(len as i32)
        } else {
            TransferPlan::Nothing
        }
    } else if file_open {
        TransferPlan::Stream(len)
    } else {
        TransferPlan::Nothing
    }
}

/// Every nonzero transfer goes through a channel that can carry it: the callback where one
/// is installed and `len` fits in an `i32`, else the open stream; nothing is transferred
/// only for zero bytes, for a length the installed callback cannot take, or where no
/// channel is there.
pub proof fn lemma_transfer_plan_channels(len: usize, callback_set: bool, file_open: bool)
    ensures
        ({
            let p = transfer_plan_spec(len, callback_set, file_open);
            &&& len == 0 ==> p == TransferPlan::Nothing
            &&& len > 0 && callback_set && len <= i32::MAX ==> p == TransferPlan::Callback(len as i32)
            &&& len > 0 && !callback_set && file_open ==> p == TransferPlan::Stream(len)
            &&& p == TransferPlan::Nothing ==> len == 0 || (callback_set && len > i32::MAX)
                || (!callback_set && !file_open)
            &&& p matches TransferPlan::Callback(n) ==> callback_set && n as int == len as int && n > 0
            &&& p matches TransferPlan::Stream(n) ==> !callback_set && file_open && n == len && n > 0
        }),
{
}

/// Chooses how `len` bytes are transferred.
pub fn transfer_plan(len: usize, callback_set: bool, file_open: bool) -> (p: TransferPlan)
    ensures
        p == transfer_plan_spec(len, callback_set, file_open),
        len == 0 ==> p == TransferPlan::Nothing,
        len > 0 && callback_set && len <= i32::MAX ==> p == TransferPlan::Callback(len as i32),
        len > 0 && callback_set && len > i32::MAX ==> p == TransferPlan::Nothing,
        len > 0 && !callback_set && file_open ==> p == TransferPlan::Stream(len),
        len > 0 && !callback_set && !file_open ==> p == TransferPlan::Nothing,
{
    if len == 0 {
        return TransferPlan::Nothing;
    }
    if callback_set {
        if len <= i32::MAX as usize {
            TransferPlan::Callback(len as i32)
        } else {
            TransferPlan::Nothing
        }
    } else if file_open {
        TransferPlan::Stream(len)
    } else {
        TransferPlan::Nothing
    }
}

/// The byte count a callback's result stands for: a negative result counts as 0.
pub fn callback_count(result: i32) -> (r: usize)
    ensures
        result < 0 ==> r == 0,
        result >= 0 ==> r as int == result as int,
{
    if result < 0 {
        0
    } else {
        result as usize
    }
}

/// How writing `len` bytes to `gif_file` is carried out: nothing where the file has no
/// encoder state, else as `transfer_plan` decides from that state.
pub fn internal_write_plan(gif_file: Option<&GifFileType>, len: usize) -> (p: TransferPlan)
    ensures
        match gif_file {
            Some(f) => match recognised_encoder_state(f.Private) {
                Some(state) => {
                    &&& len > 0 && state.write_func_set && len <= i32::MAX ==> p
                        == TransferPlan::Callback(len as i32)
                    &&& len > 0 && !state.write_func_set && state.file_open ==> p
                        == TransferPlan::Stream(len)
                },
                None => p == TransferPlan::Nothing,
            },
            None => p == TransferPlan::Nothing,
        },
        p == match gif_file {
            Some(f) => match recognised_encoder_state(f.Private) {
                Some(state) => transfer_plan_spec(len, state.write_func_set, state.file_open),
                None => TransferPlan::Nothing,
            },
            None => TransferPlan::Nothing,
        },
{
    match encoder_state(gif_file) {
        None => TransferPlan::Nothing,
        Some(state) => transfer_plan(len, state.write_func_set, state.file_open),
    }
}

} // verus!
