//! Result codes of the foreign boundary.
//!
//! Every boundary entry point answers with one of these codes; no fault is
//! ever allowed to unwind across the boundary. The mappings from library
//! results to codes live here too, so the boundary layer itself holds no
//! decisions.

use crate::error::ZenithError;
use vstd::prelude::*;

verus! {

/// Success.
pub const SUCCESS: i32 = 0;

/// A null pointer was passed.
pub const NULL_POINTER: i32 = -1;

/// The ingress queue is full (also used for a failed plugin load).
pub const BUFFER_FULL: i32 = -2;

/// A fault was caught at the boundary.
pub const PANIC: i32 = -3;

/// The caller-supplied columnar payload could not be converted.
pub const FFI_ERROR: i32 = -4;

/// Initialization failed.
pub const INIT_FAILED: i32 = -5;

/// The code a publish attempt answers with: zero for success, the
/// buffer-full code otherwise.
pub fn publish_code(r: &Result<(), ZenithError>) -> (code: i32)
    ensures
        code == if r is Ok {
            SUCCESS as int
        } else {
            BUFFER_FULL as int
        },
{
    match r {
        Ok(_) => SUCCESS,
        Err(_) => BUFFER_FULL,
    }
}

/// The code a plugin-load attempt answers with: zero for success, the
/// buffer-full code — reused for a failed load — otherwise.
pub fn load_plugin_code(r: &Result<(), ZenithError>) -> (code: i32)
    ensures
        code == if r is Ok {
            SUCCESS as int
        } else {
            BUFFER_FULL as int
        },
{
    match r {
        Ok(_) => SUCCESS,
        Err(_) => BUFFER_FULL,
    }
}

} // verus!
