use vstd::prelude::*;

use crate::color::Rgba;
use crate::decoder::{decode_frame, normalize, spec_decode, spec_normalize, ProducerError};
use crate::geometry::{layout_ok, spec_synthesize, synthesize};
use crate::gpu::DrawPlan;
use crate::rational::Rat;

verus! {

/// What the vertex buffer of one frame must hold, as a function of the
/// raw bytes alone: decode, normalize, synthesize.
pub open spec fn spec_frame_vertices(bytes: Seq<u8>, bar_count: int, gap: Rat) -> Seq<
    crate::geometry::Vertex,
> {
    spec_synthesize(spec_normalize(spec_decode(bytes, bar_count)), bar_count, gap)
}

/// One tick of the frame driver, after the blocking read: turn the
/// frame's bytes into everything the graphics context needs. A buffer
/// shorter than one full frame means the producer died: the result is
/// the fatal `StreamClosed`, never a partial frame.
pub fn plan_frame(
    bytes: &Vec<u8>,
    bar_count: u32,
    gap: Rat,
    viewport_width: u32,
    viewport_height: u32,
    background: Rgba,
) -> (r: Result<DrawPlan, ProducerError>)
    requires
        layout_ok(bar_count as int, gap),
        background.wf(),
    ensures
        bytes@.len() >= 2 * bar_count as int ==> (r matches Ok(plan)
            && plan.vertices@ == spec_frame_vertices(bytes@, bar_count as int, gap)
            && plan.index_count == 6 * bar_count
            && plan.viewport_width == viewport_width
            && plan.viewport_height == viewport_height
            && plan.background == background),
        bytes@.len() < 2 * bar_count as int ==> (r matches Err(e)
            && e == ProducerError::StreamClosed),
{
    let samples = match decode_frame(bytes, bar_count) {
        Ok(v) => v,
        Err(e) => {
            return Err(e);
        },
    };
    let mags = normalize(&samples);
    let vertices = synthesize(&mags, bar_count, gap);
    Ok(
        DrawPlan {
            vertices,
            index_count: 6 * bar_count,
            viewport_width,
            viewport_height,
            background,
        },
    )
}

/// The fixed redraw interval derived from the configured frame rate:
/// `1 / framerate` seconds, in microseconds. A frame rate of zero is a
/// configuration error, rejected before the loop starts.
pub fn frame_interval_micros(framerate: u32) -> (r: Option<u64>)
    ensures
        framerate > 0 ==> r == Option::Some((1000000int / framerate as int) as u64),
        framerate == 0 ==> r == Option::<u64>::None,
{
    if framerate == 0 {
        None
    } else {
        Some(1000000u64 / framerate as u64)
    }
}

} // verus!
