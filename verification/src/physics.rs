use vstd::prelude::*;

verus! {

/// How the X input of a physics rig moves the pendulum.
#[derive(Debug, Copy, Clone, PartialEq, Eq, Structural)]
pub enum XInputFunction {
    /// Normal rotation. X motion is rotated by input angle, and is therefore always
    /// perpendicular to the resting pendulum position.
    Normal,
    /// A rotation that follows [cos(angle), 0.5 * sin(2 * angle)], kept for compatibility.
    BrokenRotation,
    /// Normal rotation, with the input X value scaled by abs(cos(angle)): at +/-90 degrees
    /// the X input is ignored, as with the compatible rotation, while being better behaved.
    CosineScaled,
    /// Like the cosine scaling, with the factor 1 - (abs(cos(x)) - 1)^2: gentler at small
    /// angles, falling to 0 faster as the angle approaches +/-90 degrees.
    CosineSquareScaled,
}

/// Which outputs of a physics setting drive one of its pendulums: an output's vertex index
/// must lie between 1 and the number of pendulums; the others are ignored.
pub fn usable_outputs(vertex_indices: &Vec<u32>, pendulums: usize) -> (r: Vec<bool>)
    ensures
        r@.len() == vertex_indices@.len(),
        forall|i: int| 0 <= i < r@.len() ==> #[trigger] r@[i] == (vertex_indices@[i] != 0 && vertex_indices@[i] <= pendulums),
{
    let mut r: Vec<bool> = Vec::new();
    let mut i: usize = 0;
    while i < vertex_indices.len()
        invariant
            i <= vertex_indices@.len(),
            r@.len() == i,
            forall|k: int| 0 <= k < i ==> #[trigger] r@[k] == (vertex_indices@[k] != 0 && vertex_indices@[k] <= pendulums),
        decreases vertex_indices@.len() - i,
    {
        let v = vertex_indices[i];
        r.push(v != 0 && (v as usize) <= pendulums);
        i = i + 1;
    }
    r
}

} // verus!
