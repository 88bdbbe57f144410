use vstd::prelude::*;

verus! {

/// The surface format to render to, given which of the surface's formats
/// (in the order the surface lists them) are sRGB: the first sRGB format,
/// or the first format where none is sRGB.
pub fn preferred_format(is_srgb: &[bool]) -> (r: usize)
    requires
        is_srgb@.len() > 0,
    ensures
        r < is_srgb@.len(),
        forall|j: int| 0 <= j < r ==> !is_srgb@[j],
        is_srgb@[r as int] || (r == 0 && forall|j: int| 0 <= j < is_srgb@.len() ==> !is_srgb@[j]),
{
    let mut i: usize = 0;
    while i < is_srgb.len()
        invariant
            i <= is_srgb@.len(),
            forall|j: int| 0 <= j < i ==> !is_srgb@[j],
        decreases is_srgb@.len() - i,
    {
        if is_srgb[i] {
            return i;
        }
        i = i + 1;
    }
    0
}

} // verus!
