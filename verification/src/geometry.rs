use vstd::prelude::*;

use crate::rational::Rat;

verus! {

/// One vertex in normalized device coordinates.
#[derive(Clone, Copy, Debug, PartialEq, Eq, Structural)]
pub struct Vertex {
    pub x: Rat,
    pub y: Rat,
}

/// Layout parameters are accepted when the bar count fits the 16-bit
/// index buffer (4 vertices per bar, so at most 16384 bars) and the gap
/// ratio is a non-negative rational small enough that every coordinate
/// numerator fits an `i64`.
pub open spec fn layout_ok(bar_count: int, gap: Rat) -> bool {
    &&& 1 <= bar_count <= 16384
    &&& 0 <= gap.num <= 1000000
    &&& 1 <= gap.den <= 1000000
}

/// The common denominator of every horizontal coordinate:
/// `bar_count * gap.den + (bar_count - 1) * gap.num`.
///
/// With the gap ratio written `p / q`, the bar width is
/// `2 / (bar_count + (bar_count - 1) * p / q) = 2 q / layout_den`.
pub open spec fn layout_den(bar_count: int, gap: Rat) -> int {
    bar_count * gap.den + (bar_count - 1) * gap.num
}

/// Numerator of the bar width over the common denominator.
pub open spec fn bar_width_num(gap: Rat) -> int {
    2 * gap.den
}

/// Numerator of the gap width (`bar_width * gap`) over the common denominator.
pub open spec fn gap_width_num(gap: Rat) -> int {
    2 * gap.num
}

/// Numerator of the left edge of bar `i` over the common denominator:
/// `i * (bar_width + gap_width) - 1`.
pub open spec fn x_left_num(i: int, bar_count: int, gap: Rat) -> int {
    2 * i * (gap.num + gap.den) - layout_den(bar_count, gap)
}

/// Numerator of the right edge of bar `i`: its left edge plus one bar width.
pub open spec fn x_right_num(i: int, bar_count: int, gap: Rat) -> int {
    x_left_num(i, bar_count, gap) + 2 * gap.den
}

/// Top edge of a bar with normalized magnitude `m`: `2 * m - 1`,
/// over the magnitude's own denominator.
pub open spec fn spec_y_top(m: Rat) -> Rat {
    Rat { num: (2 * m.num - m.den) as i64, den: m.den }
}

/// Bottom edge of every bar: the baseline `-1`.
pub open spec fn spec_y_bottom() -> Rat {
    Rat { num: -1i64, den: 1i64 }
}

/// A normalized magnitude: a well-formed rational in [0, 1] whose
/// denominator is small enough for the geometry arithmetic.
pub open spec fn mag_ok(m: Rat) -> bool {
    m.in_unit_interval() && m.den <= 1000000000
}

/// Vertex `k` of the buffer: bar `k / 4`, corner `k % 4`, in the fixed
/// order (left, top), (right, top), (left, bottom), (right, bottom)
/// that the static index buffer triangulates.
pub open spec fn spec_vertex(mags: Seq<Rat>, bar_count: int, gap: Rat, k: int) -> Vertex {
    let i = k / 4;
    let xl = Rat { num: x_left_num(i, bar_count, gap) as i64, den: layout_den(bar_count, gap) as i64 };
    let xr = Rat { num: x_right_num(i, bar_count, gap) as i64, den: layout_den(bar_count, gap) as i64 };
    if k % 4 == 0 {
        Vertex { x: xl, y: spec_y_top(mags[i]) }
    } else if k % 4 == 1 {
        Vertex { x: xr, y: spec_y_top(mags[i]) }
    } else if k % 4 == 2 {
        Vertex { x: xl, y: spec_y_bottom() }
    } else {
        Vertex { x: xr, y: spec_y_bottom() }
    }
}

/// The whole vertex buffer: 4 vertices per bar.
pub open spec fn spec_synthesize(mags: Seq<Rat>, bar_count: int, gap: Rat) -> Seq<Vertex> {
    Seq::new((4 * bar_count) as nat, |k: int| spec_vertex(mags, bar_count, gap, k))
}

/// Bounds on the layout denominator and on every coordinate numerator,
/// so that the `i64` arithmetic below cannot overflow.
pub proof fn lemma_layout_bounds(bar_count: int, gap: Rat)
    requires
        layout_ok(bar_count, gap),
    ensures
        1 <= layout_den(bar_count, gap) <= 0x8_0000_0000_0000,
        forall|i: int| 0 <= i < bar_count ==> -0x10_0000_0000_0000
            <= #[trigger] x_left_num(i, bar_count, gap) <= 0x10_0000_0000_0000,
        forall|i: int| 0 <= i < bar_count ==> -0x10_0000_0000_0000
            <= #[trigger] x_right_num(i, bar_count, gap) <= 0x10_0000_0000_0000,
{
    assert(1 <= bar_count * gap.den + (bar_count - 1) * gap.num <= 0x8_0000_0000_0000)
        by (nonlinear_arith)
        requires
            1 <= bar_count <= 16384,
            0 <= gap.num <= 1000000,
            1 <= gap.den <= 1000000,
    ;
    assert forall|i: int| 0 <= i < bar_count implies -0x10_0000_0000_0000
        <= #[trigger] x_left_num(i, bar_count, gap) <= 0x10_0000_0000_0000
        && -0x10_0000_0000_0000 <= x_right_num(i, bar_count, gap) <= 0x10_0000_0000_0000 by {
        assert(0 <= 2 * i * (gap.num + gap.den) <= 0x8_0000_0000_0000) by (nonlinear_arith)
            requires
                0 <= i < 16384,
                0 <= gap.num <= 1000000,
                1 <= gap.den <= 1000000,
        ;
    }
}

/// Law: the bars and the gaps between them tile the full horizontal
/// range [-1, 1] exactly. Over the common denominator `layout_den`,
/// the left edge of bar 0 is -1, the right edge of the last bar is 1,
/// and `bar_width * bar_count + gap_width * (bar_count - 1) == 2`.
pub proof fn lemma_bars_span_exactly(bar_count: int, gap: Rat)
    requires
        layout_ok(bar_count, gap),
    ensures
        x_left_num(0, bar_count, gap) == -1 * layout_den(bar_count, gap),
        x_right_num(bar_count - 1, bar_count, gap) == 1 * layout_den(bar_count, gap),
        bar_width_num(gap) * bar_count + gap_width_num(gap) * (bar_count - 1)
            == 2 * layout_den(bar_count, gap),
{
    assert(2 * (bar_count - 1) * (gap.num + gap.den) + 2 * gap.den
        == bar_count * gap.den + (bar_count - 1) * gap.num + layout_den(bar_count, gap))
        by (nonlinear_arith);
    assert(2 * gap.den * bar_count + 2 * gap.num * (bar_count - 1)
        == 2 * (bar_count * gap.den + (bar_count - 1) * gap.num)) by (nonlinear_arith);
}

/// Law: geometry synthesis is a pure function of its inputs — equal
/// magnitude sequences, bar counts and gap ratios give the identical
/// vertex sequence, with no hidden state.
pub proof fn lemma_synthesize_deterministic(
    mags1: Seq<Rat>,
    mags2: Seq<Rat>,
    bar_count: int,
    gap1: Rat,
    gap2: Rat,
)
    requires
        mags1 == mags2,
        gap1 == gap2,
    ensures
        spec_synthesize(mags1, bar_count, gap1) == spec_synthesize(mags2, bar_count, gap2),
{
}

/// Exact bar width in normalized device coordinates.
pub fn bar_width(bar_count: u32, gap: Rat) -> (r: Rat)
    requires
        layout_ok(bar_count as int, gap),
    ensures
        r.num == bar_width_num(gap),
        r.den == layout_den(bar_count as int, gap),
        r.wf(),
{
    proof {
        lemma_layout_bounds(bar_count as int, gap);
    }
    let d: i64 = (bar_count as i64) * gap.den + (bar_count as i64 - 1) * gap.num;
    Rat { num: 2 * gap.den, den: d }
}

/// Exact gap width (`bar_width * gap`) in normalized device coordinates.
pub fn gap_width(bar_count: u32, gap: Rat) -> (r: Rat)
    requires
        layout_ok(bar_count as int, gap),
    ensures
        r.num == gap_width_num(gap),
        r.den == layout_den(bar_count as int, gap),
        r.wf(),
{
    proof {
        lemma_layout_bounds(bar_count as int, gap);
    }
    let d: i64 = (bar_count as i64) * gap.den + (bar_count as i64 - 1) * gap.num;
    Rat { num: 2 * gap.num, den: d }
}

/// Whether the layout parameters are acceptable: checked once at
/// startup, so a negative or oversized gap ratio is a configuration
/// error and never reaches the per-frame path.
pub fn validate_layout(bar_count: u32, gap: Rat) -> (r: bool)
    ensures
        r == layout_ok(bar_count as int, gap),
{
    1 <= bar_count && bar_count <= 16384 && 0 <= gap.num && gap.num <= 1000000 && 1 <= gap.den
        && gap.den <= 1000000
}

/// Build the vertex buffer for one frame: 4 vertices per bar, in the
/// exact corner order the static index buffer expects.
pub fn synthesize(mags: &Vec<Rat>, bar_count: u32, gap: Rat) -> (r: Vec<Vertex>)
    requires
        layout_ok(bar_count as int, gap),
        mags@.len() == bar_count as int,
        forall|i: int| 0 <= i < mags@.len() ==> mag_ok(#[trigger] mags@[i]),
    ensures
        r@ == spec_synthesize(mags@, bar_count as int, gap),
        r@.len() == 4 * bar_count as int,
{
    proof {
        lemma_layout_bounds(bar_count as int, gap);
    }
    let d: i64 = (bar_count as i64) * gap.den + (bar_count as i64 - 1) * gap.num;
    let mut r: Vec<Vertex> = Vec::new();
    let mut i: usize = 0;
    while i < bar_count as usize
        invariant
            layout_ok(bar_count as int, gap),
            mags@.len() == bar_count as int,
            forall|j: int| 0 <= j < mags@.len() ==> mag_ok(#[trigger] mags@[j]),
            d == layout_den(bar_count as int, gap),
            0 <= i <= bar_count as int,
            r@.len() == 4 * i,
            forall|k: int| 0 <= k < r@.len() ==> r@[k]
                == spec_vertex(mags@, bar_count as int, gap, k),
        decreases bar_count as int - i,
    {
        proof {
            lemma_layout_bounds(bar_count as int, gap);
            assert(0 <= 2 * (i as int) * (gap.num + gap.den) <= 0x10_0000_0000_0000)
                by (nonlinear_arith)
                requires
                    0 <= (i as int) < 16384,
                    0 <= gap.num <= 1000000,
                    1 <= gap.den <= 1000000,
            ;
        }
        let xl_num: i64 = 2 * (i as i64) * (gap.num + gap.den) - d;
        let xr_num: i64 = xl_num + 2 * gap.den;
        let xl = Rat { num: xl_num, den: d };
        let xr = Rat { num: xr_num, den: d };
        let m = mags[i];
        let y_top = Rat { num: 2 * m.num - m.den, den: m.den };
        let y_bottom = Rat { num: -1, den: 1 };
        r.push(Vertex { x: xl, y: y_top });
        r.push(Vertex { x: xr, y: y_top });
        r.push(Vertex { x: xl, y: y_bottom });
        r.push(Vertex { x: xr, y: y_bottom });
        proof {
            assert forall|k: int| 0 <= k < r@.len() implies r@[k]
                == spec_vertex(mags@, bar_count as int, gap, k) by {
                if k >= 4 * i {
                    assert(k / 4 == i as int);
                }
            }
        }
        i = i + 1;
    }
    proof {
        assert(r@ =~= spec_synthesize(mags@, bar_count as int, gap));
    }
    r
}

} // verus!
