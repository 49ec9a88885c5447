use vstd::prelude::*;

use crate::random::random_u32;
use crate::statistics::{new_material_rejected, Statistics};

verus! {

/// A material that constructions, objects, etc. can be made of.
#[derive(Copy, Clone, Debug, PartialEq, Eq, Structural)]
pub enum Material {
    Brick,
    GreyStone,
    Iron,
    Copper,
    Gold,
    Silver,
    Platinum,
    Concrete,
}

/// The number of materials there are.
pub const MATERIAL_N: usize = 8;

/// What type of material is wanted: each type admits a fixed list of
/// materials, used to pick materials for a given purpose.
#[derive(Copy, Clone, Debug, PartialEq, Eq, Structural)]
pub enum MaterialType {
    /// metal materials
    Metals,
    /// materials used on the outside of buildings
    BuildingOuter,
    /// building floor materials
    BuildingFloor,
}

/// The material at position `i` in declaration order (`i` taken modulo the
/// number of materials).
pub open spec fn material_at(i: int) -> Material {
    let j = i % (MATERIAL_N as int);
    if j == 0 {
        Material::Brick
    } else if j == 1 {
        Material::GreyStone
    } else if j == 2 {
        Material::Iron
    } else if j == 3 {
        Material::Copper
    } else if j == 4 {
        Material::Gold
    } else if j == 5 {
        Material::Silver
    } else if j == 6 {
        Material::Platinum
    } else {
        Material::Concrete
    }
}

/// The position of a material in declaration order.
pub open spec fn material_index(m: Material) -> int {
    match m {
        Material::Brick => 0,
        Material::GreyStone => 1,
        Material::Iron => 2,
        Material::Copper => 3,
        Material::Gold => 4,
        Material::Silver => 5,
        Material::Platinum => 6,
        Material::Concrete => 7,
    }
}

/// The materials that each material type admits, in table order.
pub open spec fn type_valids(t: MaterialType) -> Seq<Material> {
    match t {
        MaterialType::Metals => seq![
            Material::Iron,
            Material::Copper,
            Material::Gold,
            Material::Silver,
            Material::Platinum,
        ],
        MaterialType::BuildingOuter => seq![Material::Brick, Material::GreyStone],
        MaterialType::BuildingFloor => seq![
            Material::Brick,
            Material::GreyStone,
            Material::Concrete,
        ],
    }
}

/// The string id of a material: its variant name.
pub open spec fn material_id(m: Material) -> Seq<char> {
    match m {
        Material::Brick => "Brick"@,
        Material::GreyStone => "GreyStone"@,
        Material::Iron => "Iron"@,
        Material::Copper => "Copper"@,
        Material::Gold => "Gold"@,
        Material::Silver => "Silver"@,
        Material::Platinum => "Platinum"@,
        Material::Concrete => "Concrete"@,
    }
}

/// The human-readable name of a material.
pub open spec fn material_name(m: Material) -> Seq<char> {
    match m {
        Material::Brick => "brick"@,
        Material::GreyStone => "grey stone"@,
        Material::Iron => "iron"@,
        Material::Copper => "copper"@,
        Material::Gold => "gold"@,
        Material::Silver => "silver"@,
        Material::Platinum => "platinum"@,
        Material::Concrete => "concrete"@,
    }
}

/// The raw draw `u` selects a material that type `t` admits.
#[verifier::opaque]
pub open spec fn draw_admitted(t: MaterialType, u: u32) -> bool {
    type_valids(t).contains(material_at(u as int))
}

/// One draw of `rand_type` with the counter at `c`: what comes back and the
/// counter afterwards.
pub open spec fn rand_type_step_spec(t: MaterialType, u: u32, c: usize) -> (Option<Material>, usize) {
    let m = material_at(u as int);
    if draw_admitted(t, u) {
        (Some(m), c)
    } else if c < usize::MAX {
        (None, (c + 1) as usize)
    } else {
        (Some(type_valids(t)[0]), c)
    }
}

/// The draws `ds` taken one after another by `rand_type` from counter `c`,
/// stopping at the first one that gives a material: what comes back and the
/// counter afterwards.
pub open spec fn rand_type_run(t: MaterialType, ds: Seq<u32>, c: usize) -> (Option<Material>, usize)
    decreases ds.len(),
{
    if ds.len() == 0 {
        (None, c)
    } else {
        let prev = rand_type_run(t, ds.drop_last(), c);
        if prev.0 is Some {
            prev
        } else {
            rand_type_step_spec(t, ds.last(), prev.1)
        }
    }
}

/// A material that a draw gives is one that the type admits.
proof fn lemma_rand_type_step_admitted(t: MaterialType, u: u32, c: usize)
    ensures
        rand_type_step_spec(t, u, c).0 matches Some(m) ==> type_valids(t).contains(m),
{
    reveal(draw_admitted);
    assert(type_valids(t).contains(type_valids(t)[0]));
}

impl MaterialType {
    /// The materials this type admits.
    pub fn valids(&self) -> (r: Vec<Material>)
        ensures
            r@ == type_valids(*self),
    {
        match self {
            MaterialType::Metals => vec![
                Material::Iron,
                Material::Copper,
                Material::Gold,
                Material::Silver,
                Material::Platinum,
            ],
            MaterialType::BuildingOuter => vec![Material::Brick, Material::GreyStone],
            MaterialType::BuildingFloor => vec![
                Material::Brick,
                Material::GreyStone,
                Material::Concrete,
            ],
        }
    }

    /// Whether `x` is one of the materials this type admits.
    pub fn check(&self, x: Material) -> (r: bool)
        ensures
            r == type_valids(*self).contains(x),
    {
        let valids = self.valids();
        let mut i: usize = 0;
        while i < valids.len()
            invariant
                valids@ == type_valids(*self),
                0 <= i <= valids.len(),
                forall|j: int| 0 <= j < i ==> valids@[j] != x,
            decreases valids.len() - i,
        {
            if valids[i] == x {
                return true;
            }
            i = i + 1;
        }
        false
    }
}

impl Default for Material {
    /// The first material, `Brick`.
    fn default() -> (r: Self)
        ensures
            r == Material::Brick,
    {
        Material::Brick
    }
}

impl Material {
    /// The material that a raw random draw `u` selects: the one at position
    /// `u % MATERIAL_N`.
    pub fn from_draw(u: u32) -> (m: Self)
        ensures
            m == material_at(u as int),
            material_index(m) == u % (MATERIAL_N as u32),
    {
        let i = u % 8;
        if i == 0 {
            Material::Brick
        } else if i == 1 {
            Material::GreyStone
        } else if i == 2 {
            Material::Iron
        } else if i == 3 {
            Material::Copper
        } else if i == 4 {
            Material::Gold
        } else if i == 5 {
            Material::Silver
        } else if i == 6 {
            Material::Platinum
        } else {
            Material::Concrete
        }
    }

    /// A random material, drawn uniformly among all materials.
    ///
    /// See also `Material::rand_type` for random materials of a given type.
    pub fn rand() -> (m: Self) {
        Material::from_draw(random_u32())
    }

    /// One draw of `rand_type`: the material that the raw draw `u` selects,
    /// if `t` admits it, with the counter left alone. Otherwise the draw is
    /// rejected: the counter goes up by one and `None` says to draw again;
    /// should the counter already stand at `usize::MAX`, the first material
    /// that `t` admits is given instead.
    pub fn rand_type_step(t: MaterialType, u: u32, stats: &mut Statistics) -> (r: Option<Self>)
        ensures
            (r, final(stats).materials_rejected) == rand_type_step_spec(
                t,
                u,
                old(stats).materials_rejected,
            ),
    {
        reveal(draw_admitted);
        let m = Material::from_draw(u);
        if t.check(m) {
            return Some(m);
        }
        if stats.materials_rejected == usize::MAX {
            let valids = t.valids();
            return Some(valids[0]);
        }
        new_material_rejected(stats);
        None
    }

    /// A random material of type `t`. Draws are repeated until one is of the
    /// requested type; every rejected draw is counted in `stats`. Should the
    /// counter ever stand at `usize::MAX` when a draw is rejected, the first
    /// material that `t` admits is returned instead of drawing again.
    pub fn rand_type(t: MaterialType, stats: &mut Statistics) -> (m: Self)
        ensures
            type_valids(t).contains(m),
            final(stats).materials_rejected >= old(stats).materials_rejected,
            exists|ds: Seq<u32>|
                rand_type_run(t, ds, old(stats).materials_rejected) == (
                Some(m),
                final(stats).materials_rejected,
            ),
    {
        let ghost ds: Seq<u32> = Seq::empty();
        loop
            invariant
                stats.materials_rejected >= old(stats).materials_rejected,
                rand_type_run(t, ds, old(stats).materials_rejected) == (
                    None::<Material>,
                    stats.materials_rejected,
                ),
            decreases usize::MAX - stats.materials_rejected,
        {
            let u = random_u32();
            let ghost before = ds;
            let r = Material::rand_type_step(t, u, stats);
            proof {
                assert(before.push(u).drop_last() =~= before);
                ds = before.push(u);
                assert(rand_type_run(t, ds, old(stats).materials_rejected) == (
                    r,
                    stats.materials_rejected,
                ));
            }
            match r {
                Some(m) => {
                    proof {
                        lemma_rand_type_step_admitted(t, u, old(stats).materials_rejected);
                    }
                    return m;
                },
                None => {},
            }
        }
    }

    /// The string id of this material.
    pub fn id(&self) -> (r: &'static str)
        ensures
            r@ == material_id(*self),
    {
        match self {
            Material::Brick => "Brick",
            Material::GreyStone => "GreyStone",
            Material::Iron => "Iron",
            Material::Copper => "Copper",
            Material::Gold => "Gold",
            Material::Silver => "Silver",
            Material::Platinum => "Platinum",
            Material::Concrete => "Concrete",
        }
    }

    /// The human-readable name of this material.
    pub fn name(&self) -> (r: &'static str)
        ensures
            r@ == material_name(*self),
    {
        match self {
            Material::Brick => "brick",
            Material::GreyStone => "grey stone",
            Material::Iron => "iron",
            Material::Copper => "copper",
            Material::Gold => "gold",
            Material::Silver => "silver",
            Material::Platinum => "platinum",
            Material::Concrete => "concrete",
        }
    }
}

/// Raw draws select materials in declaration order, cycling every
/// `MATERIAL_N` draws: every material is selected by the draw at its own
/// position, and two draws select the same material exactly when they agree
/// modulo `MATERIAL_N`.
pub proof fn law_material_draw_order(m: Material, i: int, j: int)
    ensures
        0 <= material_index(m) < MATERIAL_N,
        material_at(material_index(m)) == m,
        material_index(material_at(i)) == i % (MATERIAL_N as int),
        material_at(i) == material_at(j) <==> i % (MATERIAL_N as int) == j % (MATERIAL_N as int),
{
}

/// What a run of draws gives: while no draw has given a material, every
/// draw was rejected and counted once. Once one has, it is the first draw
/// `j` that was not counted as rejected, all draws before it were rejected
/// and counted once each, and the material is the one draw `j` selects if
/// the type admits it, or, at a full counter, the type's first material.
pub proof fn law_rand_type_run(t: MaterialType, ds: Seq<u32>, c: usize)
    ensures
        rand_type_run(t, ds, c).0 is None ==> rand_type_run(t, ds, c).1 == c + ds.len() && forall|
            i: int,
        | 0 <= i < ds.len() ==> !draw_admitted(t, #[trigger] ds[i]),
        rand_type_run(t, ds, c).0 matches Some(m) ==> exists|j: int|
            0 <= j < ds.len() && (forall|i: int|
                0 <= i < j ==> !draw_admitted(t, #[trigger] ds[i]))
                && c + j <= usize::MAX && ({
                ||| draw_admitted(t, ds[j]) && m == material_at(
                    ds[j] as int,
                ) && rand_type_run(t, ds, c).1 == c + j
                ||| !draw_admitted(t, ds[j]) && c + j == usize::MAX
                    && m == type_valids(t)[0] && rand_type_run(t, ds, c).1 == usize::MAX
            }),
    decreases ds.len(),
{
    if ds.len() > 0 {
        let pre = ds.drop_last();
        law_rand_type_run(t, pre, c);
        let prev = rand_type_run(t, pre, c);
        if prev.0 is Some {
            let m = prev.0->0;
            let j = choose|j: int|
                0 <= j < pre.len() && (forall|i: int|
                    0 <= i < j ==> !draw_admitted(t, #[trigger] pre[i]))
                    && c + j <= usize::MAX && ({
                    ||| draw_admitted(t, pre[j]) && m == material_at(
                        pre[j] as int,
                    ) && prev.1 == c + j
                    ||| !draw_admitted(t, pre[j]) && c + j == usize::MAX
                        && m == type_valids(t)[0] && prev.1 == usize::MAX
                });
            assert forall|i: int| 0 <= i < j implies !draw_admitted(t, #[trigger] ds[i]) by {
                assert(ds[i] == pre[i]);
            }
            assert(ds[j] == pre[j]);
        } else {
            let last = ds.len() - 1;
            assert forall|i: int| 0 <= i < last implies !draw_admitted(t, #[trigger] ds[i]) by {
                assert(ds[i] == pre[i]);
            }
            assert(ds[last] == ds.last());
        }
    }
}

} // verus!
