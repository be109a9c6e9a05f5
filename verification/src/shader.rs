//! The triangle that both vertex stages draw, as far as whole numbers go.

use vstd::prelude::*;

verus! {

/// A vertex index read as a signed 32-bit number, as the vertex stage reads
/// it: the upper half of the indices stands for the negative numbers.
pub open spec fn signed_index(vertex_index: u32) -> int {
    if vertex_index <= i32::MAX {
        vertex_index as int
    } else {
        vertex_index - 0x1_0000_0000
    }
}

/// Twice the horizontal clip coordinate of the corner that `vertex_index`
/// selects: one less the signed index. For the two indices whose signed
/// readings are the lowest numbers there are, the difference is more than a
/// signed 32-bit number holds and wraps round to the low end.
pub open spec fn corner_x(vertex_index: u32) -> int {
    let difference = 1 - signed_index(vertex_index);
    if difference > i32::MAX {
        difference - 0x1_0000_0000
    } else {
        difference
    }
}

/// Twice the vertical clip coordinate of the corner that `vertex_index`
/// selects: up for an odd index, down for an even one.
pub open spec fn corner_y(vertex_index: u32) -> int {
    2 * (vertex_index % 2) - 1
}

/// The corner of the triangle that `vertex_index` selects, in halves of a clip
/// unit: the vertex stage takes half of each number as a coordinate. The
/// arithmetic is that of signed 32-bit numbers and wraps round as it does on
/// the device.
pub fn triangle_corner(vertex_index: u32) -> (corner: (i32, i32))
    ensures
        corner.0 == corner_x(vertex_index),
        corner.1 == corner_y(vertex_index),
{
    let x: i32 = if vertex_index <= 0x7fff_ffff {
        1 - (vertex_index as i32)
    } else if vertex_index == 0x8000_0000 {
        i32::MIN + 1
    } else if vertex_index == 0x8000_0001 {
        i32::MIN
    } else {
        let back: u32 = 0xffff_ffff - vertex_index;
        (back as i32) + 2
    };
    let y: i32 = if vertex_index % 2 == 1 {
        1
    } else {
        -1
    };
    (x, y)
}

/// The first three indices select the corners of a triangle that is as wide
/// and as high as one clip unit and is wound against the clock: right below,
/// middle above, left below.
pub proof fn lemma_first_three_corners()
    ensures
        (corner_x(0), corner_y(0)) == (1int, -1int),
        (corner_x(1), corner_y(1)) == (0int, 1int),
        (corner_x(2), corner_y(2)) == (-1int, -1int),
{
}

} // verus!
