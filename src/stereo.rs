use vstd::prelude::*;

verus! {

/// One of the two eyes of a stereo display.
#[derive(Clone, Copy, Debug, PartialEq, Eq, Structural)]
pub enum Eye {
    Left,
    Right,
}

/// The eye that a render target index stands for: `0` is the left eye,
/// `1` the right one; any other index names no eye.
pub open spec fn eye_of_index(index: int) -> Option<Eye> {
    if index == 0 {
        Some(Eye::Left)
    } else if index == 1 {
        Some(Eye::Right)
    } else {
        None
    }
}

/// Maps the index of a submitted render target to the eye it is meant for.
pub fn eye_for_target(target_index: usize) -> (r: Option<Eye>)
    ensures
        r == eye_of_index(target_index as int),
{
    match target_index {
        0 => Some(Eye::Left),
        1 => Some(Eye::Right),
        _ => None,
    }
}

/// What the renderer needs for one eye: the render target's size in pixels,
/// the transform from the head to the eye, and the eye's projection. `M` is
/// the consumer's matrix type.
#[derive(Debug, PartialEq)]
pub struct TargetInfo<M> {
    pub size: (u32, u32),
    pub view_offset: M,
    pub projection: M,
}

/// The render targets of both eyes, left first; both share the recommended
/// render target size.
pub fn stereo_target_info<M>(
    size: (u32, u32),
    left_view_offset: M,
    left_projection: M,
    right_view_offset: M,
    right_projection: M,
) -> (r: Vec<TargetInfo<M>>)
    ensures
        r@ == seq![
            TargetInfo { size, view_offset: left_view_offset, projection: left_projection },
            TargetInfo { size, view_offset: right_view_offset, projection: right_projection },
        ],
{
    let mut r: Vec<TargetInfo<M>> = Vec::new();
    r.push(TargetInfo { size, view_offset: left_view_offset, projection: left_projection });
    r.push(TargetInfo { size, view_offset: right_view_offset, projection: right_projection });
    assert(r@ =~= seq![
        TargetInfo { size, view_offset: left_view_offset, projection: left_projection },
        TargetInfo { size, view_offset: right_view_offset, projection: right_projection },
    ]);
    r
}

/// Completes a 3x4 affine transform, given as rows, to its 4x4 homogeneous
/// form by appending the row `[zero, zero, zero, one]`.
pub fn extend_matrix_array<T: Copy>(arr: [[T; 4]; 3], zero: T, one: T) -> (r: [[T; 4]; 4])
    ensures
        forall|i: int, j: int| 0 <= i < 3 && 0 <= j < 4 ==> r@[i]@[j] == arr@[i]@[j],
        r@[3]@ == seq![zero, zero, zero, one],
{
    [
        [arr[0][0], arr[0][1], arr[0][2], arr[0][3]],
        [arr[1][0], arr[1][1], arr[1][2], arr[1][3]],
        [arr[2][0], arr[2][1], arr[2][2], arr[2][3]],
        [zero, zero, zero, one],
    ]
}

/// Turns a 4x4 matrix given as rows into the same matrix given as columns:
/// column `j` of the result holds row entries `arr[0][j] .. arr[3][j]`.
pub fn array_to_matrix<T: Copy>(arr: [[T; 4]; 4]) -> (r: [[T; 4]; 4])
    ensures
        forall|i: int, j: int| 0 <= i < 4 && 0 <= j < 4 ==> r@[j]@[i] == arr@[i]@[j],
{
    [
        [arr[0][0], arr[1][0], arr[2][0], arr[3][0]],
        [arr[0][1], arr[1][1], arr[2][1], arr[3][1]],
        [arr[0][2], arr[1][2], arr[2][2], arr[3][2]],
        [arr[0][3], arr[1][3], arr[2][3], arr[3][3]],
    ]
}

} // verus!
