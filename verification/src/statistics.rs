use vstd::prelude::*;

verus! {

/// Counters kept while the world is generated.
#[derive(Clone, Debug, PartialEq, Eq, Structural)]
pub struct Statistics {
    /// How many randomly drawn materials were thrown away because they did
    /// not belong to the requested material type.
    pub materials_rejected: usize,
}

impl Statistics {
    /// All counters at zero.
    pub fn new() -> (s: Self)
        ensures
            s.materials_rejected == 0,
    {
        Statistics { materials_rejected: 0 }
    }
}

/// Counts one more rejected material.
pub fn new_material_rejected(stats: &mut Statistics)
    requires
        old(stats).materials_rejected < usize::MAX,
    ensures
        final(stats).materials_rejected == old(stats).materials_rejected + 1,
{
    stats.materials_rejected = stats.materials_rejected + 1;
}

} // verus!
