use vstd::prelude::*;

verus! {

/// The drawing tools of the editor.
#[derive(Debug, Clone, Copy, PartialEq, Eq, Structural)]
pub enum Tool {
    Select,
    Point,
    Line,
    Circle,
    Rectangle,
    Arc,
    Polyline,
    DimLinear,
    DimAligned,
    DimRadial,
}

} // verus!
