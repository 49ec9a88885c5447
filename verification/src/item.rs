use vstd::prelude::*;

use crate::material::Material;

verus! {

/// Something that can lie on the map.
#[derive(Copy, Clone, Debug, PartialEq, Eq, Structural)]
pub enum Item {
    TommyGun,
    Coin(Material),
}

} // verus!
