use vstd::prelude::*;

verus! {

/// A named biome. The lookup from stored byte codes is a placeholder that
/// maps every code to the one constant biome; it can be swapped for a real
/// table without touching the decode logic.
#[derive(Clone, Copy, Debug, PartialEq, Eq, Structural)]
pub enum DanBiome {
    Plains,
}

/// What the biome lookup yields for a stored byte code.
pub open spec fn spec_biome(code: u8) -> DanBiome {
    DanBiome::Plains
}

impl DanBiome {
    /// Maps one stored byte code to its biome.
    pub fn from_code(code: u8) -> (r: DanBiome)
        ensures
            r == spec_biome(code),
    {
        DanBiome::Plains
    }
}

} // verus!
