use vstd::prelude::*;

use crate::color::Rgba;
use crate::geometry::Vertex;

verus! {

/// The six indices that triangulate bar `i` as two triangles over its
/// four vertices `4i .. 4i+3`.
pub open spec fn spec_bar_indices(i: int, k: int) -> int {
    if k == 0 {
        4 * i
    } else if k == 1 {
        4 * i + 1
    } else if k == 2 {
        4 * i + 2
    } else if k == 3 {
        4 * i + 1
    } else if k == 4 {
        4 * i + 2
    } else {
        4 * i + 3
    }
}

/// The static index buffer: computed once from the bar count at
/// startup and never changed afterwards, since the bar count is fixed
/// for the process lifetime.
pub fn build_index_buffer(bar_count: u32) -> (r: Vec<u16>)
    requires
        1 <= bar_count <= 16384,
    ensures
        r@.len() == 6 * bar_count as int,
        forall|i: int, k: int| 0 <= i < bar_count as int && 0 <= k < 6 ==> r@[6 * i + k]
            == spec_bar_indices(i, k) as u16,
{
    let mut r: Vec<u16> = Vec::new();
    let mut i: usize = 0;
    while i < bar_count as usize
        invariant
            bar_count <= 16384,
            0 <= i <= bar_count as int,
            r@.len() == 6 * i,
            forall|j: int, k: int| 0 <= j < i && 0 <= k < 6 ==> r@[6 * j + k]
                == spec_bar_indices(j, k) as u16,
        decreases bar_count as int - i,
    {
        let base: u16 = 4 * (i as u16);
        r.push(base);
        r.push(base + 1);
        r.push(base + 2);
        r.push(base + 1);
        r.push(base + 2);
        r.push(base + 3);
        proof {
            assert forall|j: int, k: int| 0 <= j < i + 1 && 0 <= k < 6 implies r@[6 * j + k]
                == spec_bar_indices(j, k) as u16 by {
                if j == i as int {
                    assert(r@[6 * j + k] == r@[r@.len() - 6 + k]);
                }
            }
        }
        i = i + 1;
    }
    r
}

/// The 16-byte header of the gradient-table resource: the color count
/// as a little-endian 32-bit value, then 12 bytes of zero padding so
/// the RGBA quads that follow start 16-byte aligned.
pub fn gradient_header(count: u32) -> (r: Vec<u8>)
    ensures
        r@.len() == 16,
        r@[0] == count as int % 256,
        r@[1] == (count as int / 256) % 256,
        r@[2] == (count as int / 65536) % 256,
        r@[3] == (count as int / 16777216) % 256,
        forall|i: int| 4 <= i < 16 ==> r@[i] == 0,
{
    let mut r: Vec<u8> = Vec::new();
    r.push((count % 256) as u8);
    r.push(((count / 256) % 256) as u8);
    r.push(((count / 65536) % 256) as u8);
    r.push(((count / 16777216) % 256) as u8);
    let mut i: usize = 0;
    while i < 12
        invariant
            0 <= i <= 12,
            r@.len() == 4 + i,
            r@[0] == count as int % 256,
            r@[1] == (count as int / 256) % 256,
            r@[2] == (count as int / 65536) % 256,
            r@[3] == (count as int / 16777216) % 256,
            forall|j: int| 4 <= j < r@.len() ==> r@[j] == 0,
        decreases 12 - i,
    {
        r.push(0);
        i = i + 1;
    }
    r
}

/// The flattened RGBA quads of the gradient table, in color order.
pub open spec fn spec_gradient_quads(colors: Seq<Rgba>) -> Seq<crate::rational::Rat> {
    Seq::new(
        4 * colors.len(),
        |k: int|
            {
                let c = colors[k / 4];
                if k % 4 == 0 {
                    c.r
                } else if k % 4 == 1 {
                    c.g
                } else if k % 4 == 2 {
                    c.b
                } else {
                    c.a
                }
            },
    )
}

/// Flatten the gradient colors into the channel sequence that is
/// uploaded after the header: r, g, b, a for each color in order.
pub fn gradient_quads(colors: &Vec<Rgba>) -> (r: Vec<crate::rational::Rat>)
    ensures
        r@ == spec_gradient_quads(colors@),
        r@.len() == 4 * colors@.len(),
{
    let mut r: Vec<crate::rational::Rat> = Vec::new();
    let mut i: usize = 0;
    while i < colors.len()
        invariant
            0 <= i <= colors@.len(),
            r@.len() == 4 * i,
            forall|k: int| 0 <= k < r@.len() ==> r@[k] == spec_gradient_quads(colors@)[k],
        decreases colors@.len() - i,
    {
        let c = colors[i];
        r.push(c.r);
        r.push(c.g);
        r.push(c.b);
        r.push(c.a);
        proof {
            assert forall|k: int| 0 <= k < r@.len() implies r@[k]
                == spec_gradient_quads(colors@)[k] by {
                if k >= 4 * i {
                    assert(k / 4 == i as int);
                }
            }
        }
        i = i + 1;
    }
    proof {
        assert(r@ =~= spec_gradient_quads(colors@));
    }
    r
}

/// Everything one frame hands to the graphics context: the vertex
/// buffer to upload, the number of indices the draw covers, the
/// viewport-size uniform, and the clear color.
pub struct DrawPlan {
    pub vertices: Vec<Vertex>,
    pub index_count: u32,
    pub viewport_width: u32,
    pub viewport_height: u32,
    pub background: Rgba,
}

} // verus!
