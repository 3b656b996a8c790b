//! The guest's side of the boundary: what a guest makes of the status
//! codes that the host functions return.
//!
//! The guest calls the host's `infer`, hands the status to [`infer`],
//! passes the buffer it gets to the host's `get_output`, and hands that
//! status and the buffer to [`get_output`].

use vstd::prelude::*;
use crate::bridge::{STATUS_FAILED, STATUS_UNAVAILABLE};

verus! {

/// What the guest reports for a call that failed by itself.
pub open spec fn infer_error() -> Seq<char> {
    "infer error"@
}

/// What the guest reports for a host without a session.
pub open spec fn runtime_error() -> Seq<char> {
    "runtime error"@
}

/// Reads the status that the host's `infer` returned: an error where the
/// call failed or the host has no session, and else a buffer of as many
/// zero bytes as the audio is long, for the host's `get_output` to fill.
pub fn infer(status: i32) -> (r: Result<Vec<u8>, &'static str>)
    requires
        status >= STATUS_UNAVAILABLE,
    ensures
        match r {
            Ok(buf) => status >= 0 && buf@ == Seq::new(status as nat, |i: int| 0u8),
            Err(message) => if status == STATUS_FAILED {
                message@ == infer_error()
            } else {
                status == STATUS_UNAVAILABLE && message@ == runtime_error()
            },
        },
{
    if status == STATUS_FAILED {
        Err("infer error")
    } else if status == STATUS_UNAVAILABLE {
        Err("runtime error")
    } else {
        let buf = vec![0u8; status as usize];
        assert(buf@ =~= Seq::new(status as nat, |i: int| 0u8));
        Ok(buf)
    }
}

/// Reads the status that the host's `get_output` returned for `buf`: an
/// error where the host has no session, and else the buffer.
pub fn get_output(status: i32, buf: Vec<u8>) -> (r: Result<Vec<u8>, &'static str>)
    ensures
        match r {
            Ok(wav) => status != STATUS_UNAVAILABLE && wav == buf,
            Err(message) => status == STATUS_UNAVAILABLE && message@ == runtime_error(),
        },
{
    if status == STATUS_UNAVAILABLE {
        Err("runtime error")
    } else {
        Ok(buf)
    }
}

} // verus!
