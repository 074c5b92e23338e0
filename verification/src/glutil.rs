//! Utility functions for some common OpenGL operations: compiling shaders,
//! linking programs, and sizing vertex buffers.

pub mod shader;
pub mod types;

use vstd::prelude::*;

verus! {

/// The number of bytes a single vertex-data value occupies on the GPU
/// (the size of a 32-bit float).
pub const VERTEX_VALUE_BYTES: usize = 4;

/// The number of bytes a vertex buffer holding `count` 32-bit values
/// occupies, as handed to the buffer-allocation call.
///
/// Returns `None` when the byte count would not fit in `usize`.
pub fn vertex_buffer_byte_len(count: usize) -> (r: Option<usize>)
    ensures
        count * VERTEX_VALUE_BYTES <= usize::MAX ==> r == Some((count * VERTEX_VALUE_BYTES) as usize),
        count * VERTEX_VALUE_BYTES > usize::MAX ==> r is None,
{
    count.checked_mul(VERTEX_VALUE_BYTES)
}

} // verus!
