//! Decisions on what the platform's environment-expansion entry point
//! reports.

use vstd::prelude::*;
use crate::text::{c_string_lossy, c_text};

verus! {

/// Size of the buffer that receives an expansion.
pub const EXPAND_BUFFER_SIZE: usize = 1024;

/// A zero-filled buffer of the size handed to the expansion entry point.
pub fn expand_buffer() -> (r: Vec<u8>)
    ensures
        r@ == Seq::new(EXPAND_BUFFER_SIZE as nat, |i: int| 0u8),
{
    let r = vec![0u8; EXPAND_BUFFER_SIZE];
    proof {
        assert(r@ =~= Seq::new(EXPAND_BUFFER_SIZE as nat, |i: int| 0u8));
    }
    r
}

/// The outcome of an expansion: `nchars` is the count that the expansion
/// entry point returned, `dst` the buffer it filled. A count of zero, or one
/// beyond the buffer's fixed size, means "not expandable"; otherwise the
/// expansion is the buffer's text up to its first NUL.
pub fn expansion_result(nchars: u32, dst: &[u8]) -> (r: Option<String>)
    ensures
        match r {
            Some(s) => 0 < nchars <= EXPAND_BUFFER_SIZE && s@ == c_text(dst@),
            None => nchars == 0 || nchars > EXPAND_BUFFER_SIZE,
        },
{
    if nchars == 0 || nchars as usize > EXPAND_BUFFER_SIZE {
        None
    } else {
        Some(c_string_lossy(dst))
    }
}

} // verus!
