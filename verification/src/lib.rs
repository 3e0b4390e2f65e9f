#![allow(non_snake_case)]
#![allow(non_camel_case_types)]

pub mod ffi;
pub mod state;
pub mod memory;
pub mod gcb;
pub mod helpers;
pub mod interlace;
pub mod slurp;
pub mod io;
