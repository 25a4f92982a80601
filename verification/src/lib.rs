//! Decision logic of an early-boot init hijacker: boot configuration parsing,
//! attribute-preserving filesystem protocols, byte-pattern patching and the
//! boot-stage orchestrator, all free of I/O and verified.
//!
//! The library makes no system call. Every operation that needs the
//! operating system takes a [`sys::Replay`], the record of the replies that
//! its calls have received so far, and returns a [`sys::Step`]: the next
//! call to make, or its result. The caller makes the call, adds the reply
//! to the record and runs the operation again from the start. The contract
//! of each operation says exactly which call follows which replies.

pub mod bootconfig;
pub mod call;
pub mod cstr;
pub mod dir;
pub mod file;
pub mod file_laws;
pub mod init;
pub mod init_laws;
pub mod known;
pub mod logging;
pub mod mapped;
pub mod mount;
pub mod patch;
pub mod path;
pub mod result;
pub mod sys;
pub mod text;

use crate::cstr::Utf8CStr;
use vstd::prelude::*;

verus! {

/// The security labels of an overlay path: of its source and of its
/// destination.
pub struct OverlayAttr(pub Utf8CStr, pub Utf8CStr);

} // verus!
