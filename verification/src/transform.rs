//! The EXIF orientation table and the transform compositions it names.

use crate::buffer::lemma_remap_pixel;
use crate::error::LoadError;
use crate::buffer::lemma_remap_wf;
use crate::buffer::remap_grid;
use crate::buffer::src_x;
use crate::buffer::src_y;
use crate::buffer::GridView;
use crate::buffer::Operation;
use crate::buffer::PixelBuffer;
use vstd::prelude::*;

verus! {

/// A composition of primitive operations, one variant per EXIF orientation
/// value. Order matters for the two transposed cases: the flip comes first.
#[derive(Clone, Copy, PartialEq, Eq, Structural, Debug)]
pub enum Transform {
    /// Orientation 1: the pixels are already upright.
    Identity,
    /// Orientation 2.
    FlipHorizontal,
    /// Orientation 3.
    Rotate180,
    /// Orientation 4.
    FlipVertical,
    /// Orientation 5: flip horizontally, then rotate 270 degrees clockwise.
    FlipHorizontalRotate270,
    /// Orientation 6.
    Rotate90,
    /// Orientation 7: flip horizontally, then rotate 90 degrees clockwise.
    FlipHorizontalRotate90,
    /// Orientation 8.
    Rotate270,
}

/// The EXIF orientation table: the transform composition each tag value in
/// 1..=8 calls for; values outside that range have none.
pub open spec fn spec_resolve(value: u32) -> Option<Transform> {
    if value == 1 {
        Some(Transform::Identity)
    } else if value == 2 {
        Some(Transform::FlipHorizontal)
    } else if value == 3 {
        Some(Transform::Rotate180)
    } else if value == 4 {
        Some(Transform::FlipVertical)
    } else if value == 5 {
        Some(Transform::FlipHorizontalRotate270)
    } else if value == 6 {
        Some(Transform::Rotate90)
    } else if value == 7 {
        Some(Transform::FlipHorizontalRotate90)
    } else if value == 8 {
        Some(Transform::Rotate270)
    } else {
        None
    }
}

/// Maps a raw EXIF orientation value to its transform composition; every value
/// outside 1..=8 is rejected with `UnknownExifOrientationTag` carrying that
/// exact value.
pub fn resolve(value: u32) -> (r: Result<Transform, LoadError>)
    ensures
        r matches Ok(t) ==> spec_resolve(value) == Some(t),
        r is Ok <==> spec_resolve(value) is Some,
        r matches Err(e) ==> e matches LoadError::UnknownExifOrientationTag(v) && v == value,
{
    match value {
        1 => Ok(Transform::Identity),
        2 => Ok(Transform::FlipHorizontal),
        3 => Ok(Transform::Rotate180),
        4 => Ok(Transform::FlipVertical),
        5 => Ok(Transform::FlipHorizontalRotate270),
        6 => Ok(Transform::Rotate90),
        7 => Ok(Transform::FlipHorizontalRotate90),
        8 => Ok(Transform::Rotate270),
        _ => Err(LoadError::UnknownExifOrientationTag(value)),
    }
}

/// The grid a transform composition produces: its operations applied in order,
/// the flip first for the two transposed cases.
pub open spec fn spec_apply(t: Transform, g: GridView) -> GridView {
    match t {
        Transform::Identity => g,
        Transform::FlipHorizontal => remap_grid(Operation::FlipHorizontal, g),
        Transform::Rotate180 => remap_grid(Operation::Rotate180, g),
        Transform::FlipVertical => remap_grid(Operation::FlipVertical, g),
        Transform::FlipHorizontalRotate270 => remap_grid(
            Operation::Rotate270,
            remap_grid(Operation::FlipHorizontal, g),
        ),
        Transform::Rotate90 => remap_grid(Operation::Rotate90, g),
        Transform::FlipHorizontalRotate90 => remap_grid(
            Operation::Rotate90,
            remap_grid(Operation::FlipHorizontal, g),
        ),
        Transform::Rotate270 => remap_grid(Operation::Rotate270, g),
    }
}

/// The composition that undoes each one: the quarter-turns swap; everything
/// else, the two transposed compositions included, undoes itself.
pub open spec fn spec_inverse(t: Transform) -> Transform {
    match t {
        Transform::Rotate90 => Transform::Rotate270,
        Transform::Rotate270 => Transform::Rotate90,
        _ => t,
    }
}

impl Transform {
    /// Applies this composition's operations, in order, to the buffer. The
    /// identity composition hands the buffer back unchanged.
    pub fn apply(&self, buf: PixelBuffer) -> (r: PixelBuffer)
        requires
            buf.wf(),
        ensures
            r.wf(),
            r@ == spec_apply(*self, buf@),
            *self == Transform::Identity ==> r == buf,
    {
        match self {
            Transform::Identity => buf,
            Transform::FlipHorizontal => buf.remap(Operation::FlipHorizontal),
            Transform::Rotate180 => buf.remap(Operation::Rotate180),
            Transform::FlipVertical => buf.remap(Operation::FlipVertical),
            Transform::FlipHorizontalRotate270 => buf.remap(Operation::FlipHorizontal).remap(
                Operation::Rotate270,
            ),
            Transform::Rotate90 => buf.remap(Operation::Rotate90),
            Transform::FlipHorizontalRotate90 => buf.remap(Operation::FlipHorizontal).remap(
                Operation::Rotate90,
            ),
            Transform::Rotate270 => buf.remap(Operation::Rotate270),
        }
    }

    /// The composition that undoes this one.
    pub fn inverse(&self) -> (r: Transform)
        ensures
            r == spec_inverse(*self),
    {
        match self {
            Transform::Identity => Transform::Identity,
            Transform::FlipHorizontal => Transform::FlipHorizontal,
            Transform::Rotate180 => Transform::Rotate180,
            Transform::FlipVertical => Transform::FlipVertical,
            Transform::FlipHorizontalRotate270 => Transform::FlipHorizontalRotate270,
            Transform::Rotate90 => Transform::Rotate270,
            Transform::FlipHorizontalRotate90 => Transform::FlipHorizontalRotate90,
            Transform::Rotate270 => Transform::Rotate90,
        }
    }
}

/// Two primitive operations whose coordinate maps undo one another cancel on
/// any well-formed grid.
proof fn lemma_remap_cancel(op1: Operation, op2: Operation, g: GridView)
    requires
        g.wf(),
        (op1 == Operation::FlipHorizontal && op2 == Operation::FlipHorizontal) || (op1
            == Operation::FlipVertical && op2 == Operation::FlipVertical) || (op1
            == Operation::Rotate180 && op2 == Operation::Rotate180) || (op1 == Operation::Rotate90
            && op2 == Operation::Rotate270) || (op1 == Operation::Rotate270 && op2
            == Operation::Rotate90),
    ensures
        remap_grid(op2, remap_grid(op1, g)) == g,
{
    let g1 = remap_grid(op1, g);
    let g2 = remap_grid(op2, g1);
    lemma_remap_wf(op1, g);
    lemma_remap_wf(op2, g1);
    assert forall|y: int, x: int|
        0 <= y < g.grid.len() && 0 <= x < g.width implies #[trigger] g2.grid[y][x]
        == g.grid[y][x] by {
        lemma_remap_pixel(op2, g1, x, y);
        let x1 = src_x(op2, x, y, g1.width as int, g1.height() as int);
        let y1 = src_y(op2, x, y, g1.width as int, g1.height() as int);
        lemma_remap_pixel(op1, g, x1, y1);
    }
    assert forall|y: int| 0 <= y < g.grid.len() implies #[trigger] g2.grid[y] =~= g.grid[y] by {}
    assert(g2.grid =~= g.grid);
    assert(g2 == g);
}

/// A transposed composition (a horizontal flip followed by a quarter-turn)
/// undoes itself on any well-formed grid.
proof fn lemma_transposed_cancel(rot: Operation, g: GridView)
    requires
        g.wf(),
        rot == Operation::Rotate90 || rot == Operation::Rotate270,
    ensures
        remap_grid(
            rot,
            remap_grid(Operation::FlipHorizontal, remap_grid(rot, remap_grid(Operation::FlipHorizontal, g))),
        ) == g,
{
    let g1 = remap_grid(Operation::FlipHorizontal, g);
    let g2 = remap_grid(rot, g1);
    let g3 = remap_grid(Operation::FlipHorizontal, g2);
    let g4 = remap_grid(rot, g3);
    lemma_remap_wf(Operation::FlipHorizontal, g);
    lemma_remap_wf(rot, g1);
    lemma_remap_wf(Operation::FlipHorizontal, g2);
    lemma_remap_wf(rot, g3);
    assert forall|y: int, x: int|
        0 <= y < g.grid.len() && 0 <= x < g.width implies #[trigger] g4.grid[y][x]
        == g.grid[y][x] by {
        lemma_remap_pixel(rot, g3, x, y);
        let x3 = src_x(rot, x, y, g3.width as int, g3.height() as int);
        let y3 = src_y(rot, x, y, g3.width as int, g3.height() as int);
        lemma_remap_pixel(Operation::FlipHorizontal, g2, x3, y3);
        let x2 = src_x(Operation::FlipHorizontal, x3, y3, g2.width as int, g2.height() as int);
        let y2 = src_y(Operation::FlipHorizontal, x3, y3, g2.width as int, g2.height() as int);
        lemma_remap_pixel(rot, g1, x2, y2);
        let x1 = src_x(rot, x2, y2, g1.width as int, g1.height() as int);
        let y1 = src_y(rot, x2, y2, g1.width as int, g1.height() as int);
        lemma_remap_pixel(Operation::FlipHorizontal, g, x1, y1);
    }
    assert forall|y: int| 0 <= y < g.grid.len() implies #[trigger] g4.grid[y] =~= g.grid[y] by {}
    assert(g4.grid =~= g.grid);
    assert(g4 == g);
}

/// Law: a transform composition followed by its inverse restores every
/// well-formed grid exactly.
pub proof fn lemma_apply_inverse(t: Transform, g: GridView)
    requires
        g.wf(),
    ensures
        spec_apply(spec_inverse(t), spec_apply(t, g)) == g,
{
    match t {
        Transform::Identity => {},
        Transform::FlipHorizontal => lemma_remap_cancel(
            Operation::FlipHorizontal,
            Operation::FlipHorizontal,
            g,
        ),
        Transform::Rotate180 => lemma_remap_cancel(Operation::Rotate180, Operation::Rotate180, g),
        Transform::FlipVertical => lemma_remap_cancel(
            Operation::FlipVertical,
            Operation::FlipVertical,
            g,
        ),
        Transform::FlipHorizontalRotate270 => lemma_transposed_cancel(Operation::Rotate270, g),
        Transform::Rotate90 => lemma_remap_cancel(Operation::Rotate90, Operation::Rotate270, g),
        Transform::FlipHorizontalRotate90 => lemma_transposed_cancel(Operation::Rotate90, g),
        Transform::Rotate270 => lemma_remap_cancel(Operation::Rotate270, Operation::Rotate90, g),
    }
}

/// Law: the identity composition leaves every grid unchanged.
pub proof fn lemma_identity_apply(g: GridView)
    ensures
        spec_apply(Transform::Identity, g) == g,
{
}

} // verus!
