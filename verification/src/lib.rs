//! A driver for Intel High Definition Audio controllers, written so that every
//! decision it takes is proved against its contract: register scripts, the
//! CORB/RIRB verb exchange, codec discovery, output path search, stream
//! formats and PCM buffers. The hardware accesses themselves are performed by
//! the caller, one [`script::HwOp`] at a time.
use vstd::prelude::*;

pub mod registers;
pub mod script;
pub mod codec;
pub mod widget;
pub mod stream;
pub mod driver;
pub mod init;

verus! {
} // verus!
