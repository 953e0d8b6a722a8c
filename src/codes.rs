//! The public enumerations and their codes in libtess2's C interface.
use vstd::prelude::*;

verus! {

/// `TESS_WINDING_ODD` in libtess2's `TessWindingRule`.
pub const TESS_WINDING_ODD: u32 = 0;
/// `TESS_WINDING_NONZERO` in libtess2's `TessWindingRule`.
pub const TESS_WINDING_NONZERO: u32 = 1;
/// `TESS_WINDING_POSITIVE` in libtess2's `TessWindingRule`.
pub const TESS_WINDING_POSITIVE: u32 = 2;
/// `TESS_WINDING_NEGATIVE` in libtess2's `TessWindingRule`.
pub const TESS_WINDING_NEGATIVE: u32 = 3;
/// `TESS_WINDING_ABS_GEQ_TWO` in libtess2's `TessWindingRule`.
pub const TESS_WINDING_ABS_GEQ_TWO: u32 = 4;

/// `TESS_POLYGONS` in libtess2's `TessElementType`.
pub const TESS_POLYGONS: u32 = 0;
/// `TESS_CONNECTED_POLYGONS` in libtess2's `TessElementType`.
pub const TESS_CONNECTED_POLYGONS: u32 = 1;
/// `TESS_BOUNDARY_CONTOURS` in libtess2's `TessElementType`.
pub const TESS_BOUNDARY_CONTOURS: u32 = 2;

/// `TESS_CONSTRAINED_DELAUNAY_TRIANGULATION` in libtess2's `TessOption`.
pub const TESS_CONSTRAINED_DELAUNAY_TRIANGULATION: u32 = 0;
/// `TESS_REVERSE_CONTOURS` in libtess2's `TessOption`.
pub const TESS_REVERSE_CONTOURS: u32 = 1;

/// How overlapping contours are resolved into inside and outside.
#[derive(Clone, Copy, Debug, PartialEq, Eq, Structural)]
pub enum WindingRule {
    /// Inside where the crossing count is odd.
    EvenOdd,
    /// Inside where the winding number is not zero.
    NonZero,
    /// Inside where the winding number is positive.
    Positive,
    /// Inside where the winding number is negative.
    Negative,
    /// Inside where the absolute winding number is at least two.
    AbsGeqTwo,
}

/// The shape of the elements the engine emits.
#[derive(Clone, Copy, Debug, PartialEq, Eq, Structural)]
pub enum ElementType {
    Polygons,
    ConnectedPolygons,
    BoundaryPolygons,
}

/// A setting of the engine that applies to every later solve.
#[derive(Clone, Copy, Debug, PartialEq, Eq, Structural)]
pub enum TesselatorOption {
    /// Prefer a Delaunay-valid triangulation where possible.
    ConstrainedDelaunayTriangulation,
    /// Reverse the reported winding orientation.
    ReverseContour,
}

pub open spec fn winding_rule_code(rule: WindingRule) -> u32 {
    match rule {
        WindingRule::EvenOdd => TESS_WINDING_ODD,
        WindingRule::NonZero => TESS_WINDING_NONZERO,
        WindingRule::Positive => TESS_WINDING_POSITIVE,
        WindingRule::Negative => TESS_WINDING_NEGATIVE,
        WindingRule::AbsGeqTwo => TESS_WINDING_ABS_GEQ_TWO,
    }
}

pub open spec fn element_type_code(ty: ElementType) -> u32 {
    match ty {
        ElementType::Polygons => TESS_POLYGONS,
        ElementType::ConnectedPolygons => TESS_CONNECTED_POLYGONS,
        ElementType::BoundaryPolygons => TESS_BOUNDARY_CONTOURS,
    }
}

pub open spec fn option_code(option: TesselatorOption) -> u32 {
    match option {
        TesselatorOption::ConstrainedDelaunayTriangulation => TESS_CONSTRAINED_DELAUNAY_TRIANGULATION,
        TesselatorOption::ReverseContour => TESS_REVERSE_CONTOURS,
    }
}

impl WindingRule {
    /// The engine's code for this rule.
    pub fn code(self) -> (c: u32)
        ensures
            c == winding_rule_code(self),
    {
        match self {
            WindingRule::EvenOdd => TESS_WINDING_ODD,
            WindingRule::NonZero => TESS_WINDING_NONZERO,
            WindingRule::Positive => TESS_WINDING_POSITIVE,
            WindingRule::Negative => TESS_WINDING_NEGATIVE,
            WindingRule::AbsGeqTwo => TESS_WINDING_ABS_GEQ_TWO,
        }
    }
}

impl ElementType {
    /// The engine's code for this element type.
    pub fn code(self) -> (c: u32)
        ensures
            c == element_type_code(self),
    {
        match self {
            ElementType::Polygons => TESS_POLYGONS,
            ElementType::ConnectedPolygons => TESS_CONNECTED_POLYGONS,
            ElementType::BoundaryPolygons => TESS_BOUNDARY_CONTOURS,
        }
    }
}

impl TesselatorOption {
    /// The engine's code for this option.
    pub fn code(self) -> (c: u32)
        ensures
            c == option_code(self),
    {
        match self {
            TesselatorOption::ConstrainedDelaunayTriangulation => TESS_CONSTRAINED_DELAUNAY_TRIANGULATION,
            TesselatorOption::ReverseContour => TESS_REVERSE_CONTOURS,
        }
    }
}

} // verus!
