//! Vertex-buffer layout arithmetic.
//!
//! A mesh vertex is uploaded as eight consecutive 32-bit words: three
//! for the position, three for the normal, two for the texture
//! coordinate.  Instanced draws add one model matrix per instance,
//! uploaded as four consecutive four-component columns fed to four
//! successive attribute locations.  The functions here describe these
//! layouts to the renderer and compute the exact byte sizes of the
//! buffers that hold them, refusing counts whose sizes overflow.

use vstd::prelude::*;

verus! {

/// Bytes of one mesh vertex: eight 32-bit words.
pub const VERTEX_STRIDE: u32 = 32;

/// Byte offset of the normal inside a vertex.
pub const NORMAL_OFFSET: u32 = 12;

/// Byte offset of the texture coordinate inside a vertex.
pub const TEXTURE_COORDINATE_OFFSET: u32 = 24;

/// Bytes of one instance model matrix: sixteen 32-bit words.
pub const MATRIX_STRIDE: u32 = 64;

/// Bytes of one matrix column: four 32-bit words.
pub const COLUMN_STRIDE: u32 = 16;

/// One entry of a vertex-attribute layout, in the units the graphics
/// API expects: an attribute location, the number of 32-bit components
/// fetched for it, its byte offset inside one element, the byte stride
/// between consecutive elements, and the instancing divisor (`0` for
/// per-vertex data, `1` for per-instance data).
#[derive(Clone, Copy, Debug, PartialEq, Eq, Structural)]
pub struct VertexAttribute {
    pub location: u32,
    pub components: u32,
    pub byte_offset: u32,
    pub stride: u32,
    pub divisor: u32,
}

/// Layout of one mesh vertex: position at location 0, normal at
/// location 1, texture coordinate at location 2, all packed with the
/// vertex stride and fetched per vertex.
pub fn vertex_attributes() -> (r: Vec<VertexAttribute>)
    ensures
        r@.len() == 3,
        r@[0] == (VertexAttribute {
            location: 0,
            components: 3,
            byte_offset: 0,
            stride: VERTEX_STRIDE,
            divisor: 0,
        }),
        r@[1] == (VertexAttribute {
            location: 1,
            components: 3,
            byte_offset: NORMAL_OFFSET,
            stride: VERTEX_STRIDE,
            divisor: 0,
        }),
        r@[2] == (VertexAttribute {
            location: 2,
            components: 2,
            byte_offset: TEXTURE_COORDINATE_OFFSET,
            stride: VERTEX_STRIDE,
            divisor: 0,
        }),
{
    let mut r: Vec<VertexAttribute> = Vec::new();
    r.push(VertexAttribute {
        location: 0,
        components: 3,
        byte_offset: 0,
        stride: VERTEX_STRIDE,
        divisor: 0,
    });
    r.push(VertexAttribute {
        location: 1,
        components: 3,
        byte_offset: NORMAL_OFFSET,
        stride: VERTEX_STRIDE,
        divisor: 0,
    });
    r.push(VertexAttribute {
        location: 2,
        components: 2,
        byte_offset: TEXTURE_COORDINATE_OFFSET,
        stride: VERTEX_STRIDE,
        divisor: 0,
    });
    r
}

/// Layout of one instance model matrix: its four columns go to four
/// consecutive attribute locations starting at `first_location`, each
/// fetched once per instance.
pub fn instance_attributes(first_location: u32) -> (r: Vec<VertexAttribute>)
    requires
        first_location + 3 <= u32::MAX,
    ensures
        r@.len() == 4,
        forall|i: int| 0 <= i < 4 ==> r@[i] == (VertexAttribute {
            location: (first_location + i) as u32,
            components: 4,
            byte_offset: (COLUMN_STRIDE * i) as u32,
            stride: MATRIX_STRIDE,
            divisor: 1,
        }),
{
    let mut r: Vec<VertexAttribute> = Vec::new();
    let mut column: u32 = 0;
    while column < 4
        invariant
            column <= 4,
            first_location + 3 <= u32::MAX,
            r@.len() == column,
            forall|i: int| 0 <= i < column ==> r@[i] == (VertexAttribute {
                location: (first_location + i) as u32,
                components: 4,
                byte_offset: (COLUMN_STRIDE * i) as u32,
                stride: MATRIX_STRIDE,
                divisor: 1,
            }),
        decreases 4 - column,
    {
        r.push(VertexAttribute {
            location: first_location + column,
            components: 4,
            byte_offset: COLUMN_STRIDE * column,
            stride: MATRIX_STRIDE,
            divisor: 1,
        });
        column = column + 1;
    }
    r
}

/// Byte size of a buffer holding `count` elements of `stride` bytes
/// each, or `None` when that size does not fit in memory.
fn buffer_size(count: usize, stride: usize) -> (r: Option<usize>)
    ensures
        (match r {
            Some(n) => n == count * stride,
            None => count * stride > usize::MAX,
        }),
{
    count.checked_mul(stride)
}

/// Byte size of a vertex buffer holding `count` mesh vertices, or
/// `None` when that size does not fit in memory.
pub fn vertex_buffer_size(count: usize) -> (r: Option<usize>)
    ensures
        (match r {
            Some(n) => n == count * VERTEX_STRIDE,
            None => count * VERTEX_STRIDE > usize::MAX,
        }),
{
    buffer_size(count, VERTEX_STRIDE as usize)
}

/// Byte size of an index buffer holding `count` 32-bit indices, or
/// `None` when that size does not fit in memory.
pub fn index_buffer_size(count: usize) -> (r: Option<usize>)
    ensures
        (match r {
            Some(n) => n == count * 4,
            None => count * 4 > usize::MAX,
        }),
{
    buffer_size(count, 4)
}

/// Byte size of an instance buffer holding `count` model matrices, or
/// `None` when that size does not fit in memory.
pub fn matrix_buffer_size(count: usize) -> (r: Option<usize>)
    ensures
        (match r {
            Some(n) => n == count * MATRIX_STRIDE,
            None => count * MATRIX_STRIDE > usize::MAX,
        }),
{
    buffer_size(count, MATRIX_STRIDE as usize)
}

} // verus!
