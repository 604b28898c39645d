//! Hotline core library: graphics resource formats and layouts, image
//! description handling, descriptor heap bookkeeping and plugin scheduling.

use vstd::prelude::*;

pub mod client;
pub mod gfx;
pub mod image;
pub mod imdraw;
pub mod os;
pub mod text;

verus! {

/// Errors raised by the library, carrying a human readable message.
#[derive(Debug, Clone)]
pub struct Error {
    pub msg: String,
}

} // verus!
