use vstd::prelude::*;

verus! {

/// Index `n` of the cube's index list: face `n / 6` uses vertices
/// `4f .. 4f + 4` as two triangles (0, 1, 2) and (0, 2, 3).
pub open spec fn cube_index(n: int) -> u32 {
    let corner: int = n % 6;
    let offset: int = if corner == 0 || corner == 3 {
        0
    } else if corner == 1 {
        1
    } else if corner == 2 || corner == 4 {
        2
    } else {
        3
    };
    (4 * (n / 6) + offset) as u32
}

/// `Vec::into_boxed_slice`: the same elements, in a boxed slice.
#[verifier::external_body]
fn into_boxed(v: Vec<u32>) -> (r: Box<[u32]>)
    ensures
        r@ == v@,
{
    v.into_boxed_slice()
}

/// Indices of the 24-vertex cube: two triangles per face, six faces.
pub fn cube_indices() -> (r: Box<[u32]>)
    ensures
        r@.len() == 36,
        forall|n: int| 0 <= n < 36 ==> #[trigger] r@[n] == cube_index(n),
{
    let v = vec![
        0, 1, 2, 0, 2, 3, // front
        4, 5, 6, 4, 6, 7, // back
        8, 9, 10, 8, 10, 11, // top
        12, 13, 14, 12, 14, 15, // bottom
        16, 17, 18, 16, 18, 19, // right
        20, 21, 22, 20, 22, 23, // left
    ];
    assert(v@ =~= Seq::new(36, |n: int| cube_index(n)));
    into_boxed(v)
}

/// Every cube index names one of the 24 vertices, and each triangle stays
/// on the face it belongs to.
pub proof fn lemma_cube_indices_in_range(n: int)
    requires
        0 <= n < 36,
    ensures
        cube_index(n) < 24,
        cube_index(n) / 4 == n / 6,
{
}

} // verus!
