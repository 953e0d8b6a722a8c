//! What the session hands to each of the engine's calls.
use vstd::prelude::*;
use crate::codes::{
    option_code, winding_rule_code, ElementType, TesselatorOption, WindingRule, TESS_POLYGONS,
};
use crate::extract::{POLY_SIZE, VERTEX_SIZE};

verus! {

/// Arguments of the engine's add-contour call, apart from the session and the
/// point buffer.
#[derive(Clone, Copy, Debug, PartialEq, Eq, Structural)]
pub struct ContourCall {
    /// Coordinates per point.
    pub size: i32,
    /// Bytes from one point to the next.
    pub stride: i32,
    /// Number of points.
    pub count: i32,
}

/// Arguments of the engine's solve call, apart from the session and the normal.
#[derive(Clone, Copy, Debug, PartialEq, Eq, Structural)]
pub struct SolveCall {
    pub winding_rule: i32,
    pub element_type: i32,
    /// Slots per output element.
    pub poly_size: i32,
    /// Coordinates per output vertex.
    pub vertex_size: i32,
}

/// Arguments of the engine's set-option call, apart from the session.
#[derive(Clone, Copy, Debug, PartialEq, Eq, Structural)]
pub struct OptionCall {
    pub option: i32,
    pub value: i32,
}

/// The submission of a contour of `point_count` points of two coordinates,
/// each `coord_bytes` wide and packed one after the other. Nothing where a
/// count or a stride does not fit the engine's `int`.
pub fn contour_call(point_count: usize, coord_bytes: usize) -> (r: Option<ContourCall>)
    ensures
        r is Some <==> point_count <= i32::MAX && 2 * coord_bytes <= i32::MAX,
        r is Some ==> r.unwrap() == (ContourCall {
            size: 2,
            stride: (2 * coord_bytes) as i32,
            count: point_count as i32,
        }),
{
    if point_count > i32::MAX as usize || coord_bytes > (i32::MAX / 2) as usize {
        return None;
    }
    let size: i32 = VERTEX_SIZE as i32;
    let stride: i32 = (coord_bytes as i32) * size;
    Some(ContourCall { size, stride, count: point_count as i32 })
}

/// The solve of a flat triangle list in the plane under `rule`: triangles of
/// three slots, vertices of two coordinates.
pub fn triangle_solve_call(rule: WindingRule) -> (r: SolveCall)
    ensures
        r.winding_rule == winding_rule_code(rule) as int,
        r.element_type == TESS_POLYGONS as int,
        r.poly_size == 3,
        r.vertex_size == 2,
{
    let element_type: ElementType = ElementType::Polygons;
    SolveCall {
        winding_rule: rule.code() as i32,
        element_type: element_type.code() as i32,
        poly_size: POLY_SIZE as i32,
        vertex_size: VERTEX_SIZE as i32,
    }
}

/// Setting `option` to `value`. Every value is passed on unchanged, whether or
/// not the engine expects it.
pub fn option_call(option: TesselatorOption, value: i32) -> (r: OptionCall)
    ensures
        r.option == option_code(option) as int,
        r.value == value,
{
    OptionCall { option: option.code() as i32, value }
}

} // verus!
