//! The parameters of draw calls.

use vstd::prelude::*;

use super::draw_unit::{primitive_mode_gl, PrimitiveMode};
use super::element::Element;

verus! {

/// The arguments of a `drawElements` call, or of a `drawElementsInstanced`
/// call with `instances`.
#[derive(Debug, Clone, Copy, PartialEq, Eq, Structural)]
pub struct DrawElementsCall {
    pub mode: u32,
    pub count: i32,
    pub element_type: u32,
    /// Byte offset of the first element in the element buffer.
    pub offset: i32,
    pub instances: i32,
}

/// Whether an element range can be drawn: its element count, its byte
/// offset and the number of instances fit the GL's `i32` arguments.
pub open spec fn draw_fits<E: Element>(start: usize, end: usize, num_instances: usize) -> bool {
    &&& end - start <= i32::MAX
    &&& start * vstd::layout::size_of::<E>() <= i32::MAX
    &&& num_instances <= i32::MAX
}

/// The call that draws the elements `start..end` of an element buffer of
/// element type `E` as primitives of `mode`, `num_instances` times; `None`
/// when there is nothing to draw.
pub open spec fn draw_call<E: Element>(
    mode: PrimitiveMode,
    start: usize,
    end: usize,
    num_instances: usize,
) -> Option<DrawElementsCall> {
    if start == end || num_instances == 0 {
        None
    } else {
        Some(
            DrawElementsCall {
                mode: primitive_mode_gl(mode),
                count: (end - start) as i32,
                element_type: E::spec_gl_type(),
                offset: (start * vstd::layout::size_of::<E>()) as i32,
                instances: num_instances as i32,
            },
        )
    }
}

/// Computes the call that draws the elements `start..end` of an element
/// buffer of element type `E` as primitives of `mode`, `num_instances`
/// times (one time for a call that is not instanced).
pub fn draw_elements_call<E: Element>(
    mode: PrimitiveMode,
    start: usize,
    end: usize,
    num_instances: usize,
) -> (r: Option<DrawElementsCall>)
    requires
        start <= end,
        start != end && num_instances != 0 ==> draw_fits::<E>(start, end, num_instances),
    ensures
        r == draw_call::<E>(mode, start, end, num_instances),
{
    if start == end || num_instances == 0 {
        return None;
    }
    let size = core::mem::size_of::<E>();
    let count = end - start;
    let offset = start * size;
    Some(
        DrawElementsCall {
            mode: mode.to_gl(),
            count: count as i32,
            element_type: E::to_gl(),
            offset: offset as i32,
            instances: num_instances as i32,
        },
    )
}

} // verus!
