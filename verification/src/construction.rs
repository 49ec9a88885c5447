use vstd::prelude::*;

use crate::material::Material;
use crate::Vec3;

verus! {

/// A construction on the map.
#[derive(Copy, Clone, Debug, PartialEq, Eq, Structural)]
pub enum Construction {
    Wall(Material, Vec3),
    Floor(Material, Vec3),
}

/// The part of the scene path that names the kind of a construction.
pub open spec fn construction_path_part(c: Construction) -> Seq<char> {
    match c {
        Construction::Wall(..) => "wall"@,
        Construction::Floor(..) => "floor"@,
    }
}

impl Construction {
    /// The part of the scene path that names the kind of this construction.
    pub fn path_part(&self) -> (r: &'static str)
        ensures
            r@ == construction_path_part(*self),
    {
        match self {
            Construction::Wall(..) => "wall",
            Construction::Floor(..) => "floor",
        }
    }

    /// Whether this construction is a wall.
    pub fn is_wall(&self) -> (r: bool)
        ensures
            r == (*self is Wall),
    {
        match self {
            Construction::Wall(..) => true,
            Construction::Floor(..) => false,
        }
    }
}

} // verus!
