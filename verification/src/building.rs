use vstd::prelude::*;

use crate::construction::Construction;
use crate::flt::ONE_BITS;
use crate::map::{
    add_all_no_matching, has_position, law_add_all_no_matching, lemma_free_id_exists,
    unique_positions, MapId, MapMap, MapModel,
};
use crate::material::{rand_type_run, type_valids, Material, MaterialType};
use crate::random::{random_range_u8, random_u32};
use crate::statistics::Statistics;
use crate::{HashFlt, Vec3};

verus! {

broadcast use vstd::std_specs::hash::group_hash_axioms;

/// How the rooms of a floor are laid out.
#[derive(Copy, Clone, Debug, PartialEq, Eq, Structural)]
pub enum FloorScheme {
    Uniform,
    Chaos,
}

/// The number of floor schemes there are.
pub const FLOORSCHEME_N: u32 = 2;

impl FloorScheme {
    /// The scheme that a raw random draw `u` selects: the one at position
    /// `u % FLOORSCHEME_N`.
    pub fn from_draw(u: u32) -> (r: Self)
        ensures
            r == (if u % 2 == 0 {
                FloorScheme::Uniform
            } else {
                FloorScheme::Chaos
            }),
    {
        if u % FLOORSCHEME_N == 0 {
            FloorScheme::Uniform
        } else {
            FloorScheme::Chaos
        }
    }

    /// A random floor scheme, drawn uniformly.
    pub fn rand() -> (r: Self) {
        FloorScheme::from_draw(random_u32())
    }
}

/// What a building is made of and how large it is.
#[derive(Copy, Clone, Debug, PartialEq, Eq, Structural)]
pub struct BuildingAttrs {
    pub id: MapId,
    pub floors: u8,
    pub floor_scheme: FloorScheme,
    pub floor_size: Vec3,
    pub outer_material: Material,
    pub floor_material: Material,
}

impl BuildingAttrs {
    /// Random attributes for the building `id` with the given scheme and
    /// floor size: between 1 and 99 floors, an outer material fit for the
    /// outside of buildings and a floor material fit for floors. Rejected
    /// material draws are counted in `stats`.
    pub fn rand(id: MapId, floor_scheme: FloorScheme, floor_size: Vec3, stats: &mut Statistics) -> (r:
        Self)
        ensures
            r.id == id,
            r.floor_scheme == floor_scheme,
            r.floor_size == floor_size,
            1 <= r.floors < 100,
            type_valids(MaterialType::BuildingOuter).contains(r.outer_material),
            type_valids(MaterialType::BuildingFloor).contains(r.floor_material),
            final(stats).materials_rejected >= old(stats).materials_rejected,
            exists|c: usize, outer_draws: Seq<u32>, floor_draws: Seq<u32>|
                rand_type_run(MaterialType::BuildingOuter, outer_draws, old(stats).materials_rejected)
                    == (Some(r.outer_material), c) && rand_type_run(
                    MaterialType::BuildingFloor,
                    floor_draws,
                    c,
                ) == (Some(r.floor_material), final(stats).materials_rejected),
    {
        let floors = random_range_u8(1, 100);
        let ghost c0 = stats.materials_rejected;
        let outer_material = Material::rand_type(MaterialType::BuildingOuter, stats);
        let ghost c1 = stats.materials_rejected;
        let floor_material = Material::rand_type(MaterialType::BuildingFloor, stats);
        proof {
            let outer_draws = choose|ds: Seq<u32>|
                rand_type_run(MaterialType::BuildingOuter, ds, c0) == (Some(outer_material), c1);
            let floor_draws = choose|ds: Seq<u32>|
                rand_type_run(MaterialType::BuildingFloor, ds, c1) == (
                    Some(floor_material),
                    stats.materials_rejected,
                );
            assert(rand_type_run(MaterialType::BuildingOuter, outer_draws, c0) == (
                Some(outer_material),
                c1,
            ) && rand_type_run(MaterialType::BuildingFloor, floor_draws, c1) == (
                Some(floor_material),
                stats.materials_rejected,
            ));
        }
        BuildingAttrs { id, floors, floor_scheme, floor_size, outer_material, floor_material }
    }
}

impl Default for BuildingAttrs {
    /// Building `0` with no floors, the uniform scheme, a zero floor size
    /// and the default material everywhere.
    fn default() -> (r: Self)
        ensures
            r == (BuildingAttrs {
                id: 0,
                floors: 0,
                floor_scheme: FloorScheme::Uniform,
                floor_size: Vec3(HashFlt(0), HashFlt(0), HashFlt(0)),
                outer_material: Material::Brick,
                floor_material: Material::Brick,
            }),
    {
        BuildingAttrs {
            id: 0,
            floors: 0,
            floor_scheme: FloorScheme::Uniform,
            floor_size: Vec3::zero(),
            outer_material: Material::default(),
            floor_material: Material::default(),
        }
    }
}

/// A wall piece of a building.
#[derive(Copy, Clone, Debug, PartialEq, Eq, Structural)]
pub struct BuildingWall {
    material: Material,
    position: Vec3,
}

/// The coordinates of the successive wall cells of a floor along its x and
/// z axes: the bit patterns of `0.0, 1.0, 2.0, ...`, as many as the floor's
/// extent along that axis truncated to an integer.
#[derive(Clone, Debug, PartialEq, Eq)]
pub struct WallSteps {
    pub xs: Vec<HashFlt>,
    pub zs: Vec<HashFlt>,
}

/// The wall piece used for the walls of a building.
pub open spec fn uniform_wall(attrs: BuildingAttrs) -> Construction {
    Construction::Wall(
        attrs.outer_material,
        Vec3(HashFlt(ONE_BITS), HashFlt(ONE_BITS), HashFlt(ONE_BITS)),
    )
}

/// A line of wall cells along z at `x`: one at each of `zs`, at height 0.
pub open spec fn line_along_z(x: HashFlt, zs: Seq<HashFlt>) -> Seq<Vec3> {
    Seq::new(zs.len(), |k: int| Vec3(x, HashFlt(0), zs[k]))
}

/// A line of wall cells along x at `z`: one at each of `xs`, at height 0.
pub open spec fn line_along_x(z: HashFlt, xs: Seq<HashFlt>) -> Seq<Vec3> {
    Seq::new(xs.len(), |k: int| Vec3(xs[k], HashFlt(0), z))
}

/// The positions at which walls are pushed on a floor of extent `size`, in
/// order: the line along z at x = 0, the line along z at the far x, the line
/// along x at z = 0 and the line along x at the far z.
pub open spec fn uniform_wall_positions(size: Vec3, xs: Seq<HashFlt>, zs: Seq<HashFlt>) -> Seq<
    Vec3,
> {
    line_along_z(HashFlt(0), zs) + line_along_z(size.0, zs) + line_along_x(HashFlt(0), xs)
        + line_along_x(size.2, xs)
}

/// `m` has a wall cell at each place of the four sides of a floor of extent
/// `size`: at x = 0 and at the far x for every z of `zs`, and at z = 0 and
/// at the far z for every x of `xs`, all at height 0.
pub open spec fn has_uniform_walls(
    m: Map<MapId, (Vec3, Construction)>,
    size: Vec3,
    xs: Seq<HashFlt>,
    zs: Seq<HashFlt>,
) -> bool {
    &&& forall|k: int|
        0 <= k < zs.len() ==> has_position(m, Vec3(HashFlt(0), HashFlt(0), #[trigger] zs[k]))
            && has_position(m, Vec3(size.0, HashFlt(0), zs[k]))
    &&& forall|k: int|
        0 <= k < xs.len() ==> has_position(m, Vec3(#[trigger] xs[k], HashFlt(0), HashFlt(0)))
            && has_position(m, Vec3(xs[k], HashFlt(0), size.2))
}

/// `q` lies on one of the four sides of a floor of extent `size`, at one of
/// the wall cells `xs` or `zs`.
pub open spec fn on_uniform_side(q: Vec3, size: Vec3, xs: Seq<HashFlt>, zs: Seq<HashFlt>) -> bool {
    ||| exists|k: int|
        0 <= k < zs.len() && (q == Vec3(HashFlt(0), HashFlt(0), #[trigger] zs[k]) || q == Vec3(
            size.0,
            HashFlt(0),
            zs[k],
        ))
    ||| exists|k: int|
        0 <= k < xs.len() && (q == Vec3(#[trigger] xs[k], HashFlt(0), HashFlt(0)) || q == Vec3(
            xs[k],
            HashFlt(0),
            size.2,
        ))
}

/// Every entry of `m` is a wall of `material` (extent `1.0` on each axis)
/// lying on a side of a floor of extent `size`.
pub open spec fn only_uniform_walls(
    m: Map<MapId, (Vec3, Construction)>,
    size: Vec3,
    material: Material,
    xs: Seq<HashFlt>,
    zs: Seq<HashFlt>,
) -> bool {
    forall|id: MapId|
        #[trigger] m.contains_key(id) ==> on_uniform_side(m[id].0, size, xs, zs) && m[id].1
            == Construction::Wall(material, Vec3(HashFlt(ONE_BITS), HashFlt(ONE_BITS), HashFlt(ONE_BITS)))
}

/// The constructions of a freshly laid out uniform floor.
pub open spec fn uniform_floor_model(attrs: BuildingAttrs, xs: Seq<HashFlt>, zs: Seq<HashFlt>) -> MapModel<
    Construction,
> {
    add_all_no_matching(
        (Map::empty(), 0u64),
        uniform_wall_positions(attrs.floor_size, xs, zs),
        uniform_wall(attrs),
    )
}

/// Makes a line of walls along z: appends the cells of `line_along_z`.
fn push_line_along_z(r: &mut Vec<Vec3>, x: HashFlt, zs: &Vec<HashFlt>)
    ensures
        final(r)@ == old(r)@ + line_along_z(x, zs@),
{
    for k in 0..zs.len()
        invariant
            r@ == old(r)@ + line_along_z(x, zs@).take(k as int),
    {
        r.push(Vec3(x, HashFlt(0), zs[k]));
        assert(r@ =~= old(r)@ + line_along_z(x, zs@).take(k + 1));
    }
    assert(line_along_z(x, zs@).take(zs.len() as int) =~= line_along_z(x, zs@));
}

/// Makes a line of walls along x: appends the cells of `line_along_x`.
fn push_line_along_x(r: &mut Vec<Vec3>, z: HashFlt, xs: &Vec<HashFlt>)
    ensures
        final(r)@ == old(r)@ + line_along_x(z, xs@),
{
    for k in 0..xs.len()
        invariant
            r@ == old(r)@ + line_along_x(z, xs@).take(k as int),
    {
        r.push(Vec3(xs[k], HashFlt(0), z));
        assert(r@ =~= old(r)@ + line_along_x(z, xs@).take(k + 1));
    }
    assert(line_along_x(z, xs@).take(xs.len() as int) =~= line_along_x(z, xs@));
}

/// Builds the sequence of wall positions.
fn uniform_wall_positions_vec(size: Vec3, steps: &WallSteps) -> (r: Vec<Vec3>)
    ensures
        r@ == uniform_wall_positions(size, steps.xs@, steps.zs@),
{
    let mut r: Vec<Vec3> = Vec::new();
    /* verts */
    push_line_along_z(&mut r, HashFlt(0), &steps.zs);
    push_line_along_z(&mut r, size.0, &steps.zs);
    /* horizs */
    push_line_along_x(&mut r, HashFlt(0), &steps.xs);
    push_line_along_x(&mut r, size.2, &steps.xs);
    assert(r@ =~= uniform_wall_positions(size, steps.xs@, steps.zs@));
    r
}

/// Adds `w` at each of `ps` in turn, skipping positions already taken.
fn add_walls(c: &mut MapMap<Construction>, ps: &Vec<Vec3>, w: Construction)
    requires
        old(c)@.0.len() + ps.len() < u64::MAX,
    ensures
        final(c)@ == add_all_no_matching(old(c)@, ps@, w),
        final(c)@.0.len() <= old(c)@.0.len() + ps.len(),
        unique_positions(old(c)@.0) ==> unique_positions(final(c)@.0),
{
    for i in 0..ps.len()
        invariant
            c@ == add_all_no_matching(old(c)@, ps@.take(i as int), w),
            c@.0.len() <= old(c)@.0.len() + i,
            old(c)@.0.len() + ps.len() < u64::MAX,
            unique_positions(old(c)@.0) ==> unique_positions(c@.0),
    {
        proof {
            lemma_free_id_exists(c@.0, c@.1);
        }
        c.add_no_matching_pos(ps[i], w);
        assert(ps@.take(i + 1).drop_last() =~= ps@.take(i as int));
    }
    assert(ps@.take(ps.len() as int) =~= ps@);
}

/// One floor of a building.
#[derive(Clone, Debug, PartialEq)]
pub struct BuildingFloor {
    pub constructions: MapMap<Construction>,
    /// The bit pattern of the floor's height.
    pub height: HashFlt,
}

impl BuildingFloor {
    /// Pushes walls in the `FloorScheme::Uniform` style: lines of walls along
    /// the four sides of a floor of size `attrs.floor_size`, made of its
    /// outer material, with no two walls at the same position.
    fn push_uniform_walls(&mut self, attrs: &BuildingAttrs, steps: &WallSteps)
        requires
            old(self).constructions@.0.len() + 2 * (steps.xs.len() + steps.zs.len()) < u64::MAX,
        ensures
            final(self).constructions@ == add_all_no_matching(
                old(self).constructions@,
                uniform_wall_positions(attrs.floor_size, steps.xs@, steps.zs@),
                uniform_wall(*attrs),
            ),
            final(self).height == old(self).height,
            unique_positions(old(self).constructions@.0) ==> unique_positions(
                final(self).constructions@.0,
            ),
    {
        /* make a wall with the correct outer material */
        let w = Construction::Wall(
            attrs.outer_material,
            Vec3(HashFlt(ONE_BITS), HashFlt(ONE_BITS), HashFlt(ONE_BITS)),
        );
        let ps = uniform_wall_positions_vec(attrs.floor_size, steps);
        add_walls(&mut self.constructions, &ps, w);
    }

    /// A new floor for the building described by `attrs`, whose floor
    /// scheme is set to `FloorScheme::Uniform` (the only scheme laid out so
    /// far); its walls are pushed in that style.
    pub fn rand(attrs: &mut BuildingAttrs, steps: &WallSteps) -> (f: Self)
        requires
            2 * (steps.xs.len() + steps.zs.len()) < u64::MAX,
        ensures
            *final(attrs) == (BuildingAttrs { floor_scheme: FloorScheme::Uniform, ..*old(attrs) }),
            f.height == old(attrs).floor_size.1,
            f.constructions@ == uniform_floor_model(*old(attrs), steps.xs@, steps.zs@),
            unique_positions(f.constructions@.0),
            has_uniform_walls(f.constructions@.0, old(attrs).floor_size, steps.xs@, steps.zs@),
            only_uniform_walls(
                f.constructions@.0,
                old(attrs).floor_size,
                old(attrs).outer_material,
                steps.xs@,
                steps.zs@,
            ),
            forall|id: MapId| #[trigger]
                f.constructions@.0.contains_key(id) ==> f.constructions@.0[id].1 == uniform_wall(
                    *old(attrs),
                ),
            forall|k: int|
                0 <= k < uniform_wall_positions(old(attrs).floor_size, steps.xs@, steps.zs@).len()
                    ==> has_position(
                    f.constructions@.0,
                    #[trigger] uniform_wall_positions(old(attrs).floor_size, steps.xs@, steps.zs@)[k],
                ),
    {
        proof {
            law_uniform_floor_walls(*old(attrs), steps.xs@, steps.zs@);
            law_add_all_no_matching(
                (Map::<MapId, (Vec3, Construction)>::empty(), 0u64),
                uniform_wall_positions(old(attrs).floor_size, steps.xs@, steps.zs@),
                uniform_wall(*old(attrs)),
            );
        }
        let mut this = BuildingFloor { height: attrs.floor_size.1, constructions: MapMap::new() };
        attrs.floor_scheme = FloorScheme::Uniform;
        match attrs.floor_scheme {
            FloorScheme::Uniform => this.push_uniform_walls(attrs, steps),
            FloorScheme::Chaos => vstd::pervasive::unreached(),
        }
        this
    }
}

/// A building: its attributes and its floors, from the ground up.
#[derive(Clone, Debug, PartialEq, Default)]
pub struct Building {
    pub attrs: BuildingAttrs,
    pub floors: Vec<BuildingFloor>,
}

impl Building {
    /// A building with the given attributes and no floors yet.
    pub fn rand_with_attrs(attrs: BuildingAttrs) -> (b: Self)
        ensures
            b.attrs == attrs,
            b.floors@.len() == 0,
    {
        Building { attrs, floors: Vec::new() }
    }

    /// Adds `attrs.floors` floors, each laid out in the uniform style; the
    /// floor scheme is then uniform.
    pub fn generate(&mut self, steps: &WallSteps)
        requires
            2 * (steps.xs.len() + steps.zs.len()) < u64::MAX,
        ensures
            final(self).floors@.len() == old(self).floors@.len() + old(self).attrs.floors,
            final(self).attrs == (if old(self).attrs.floors > 0 {
                BuildingAttrs { floor_scheme: FloorScheme::Uniform, ..old(self).attrs }
            } else {
                old(self).attrs
            }),
            forall|k: int|
                0 <= k < old(self).floors@.len() ==> #[trigger] final(self).floors@[k] == old(
                    self,
                ).floors@[k],
            forall|k: int|
                old(self).floors@.len() <= k < final(self).floors@.len() ==> {
                    &&& (#[trigger] final(self).floors@[k]).height == old(self).attrs.floor_size.1
                    &&& final(self).floors@[k].constructions@ == uniform_floor_model(
                        old(self).attrs,
                        steps.xs@,
                        steps.zs@,
                    )
                    &&& unique_positions(final(self).floors@[k].constructions@.0)
                    &&& has_uniform_walls(
                        final(self).floors@[k].constructions@.0,
                        old(self).attrs.floor_size,
                        steps.xs@,
                        steps.zs@,
                    )
                    &&& only_uniform_walls(
                        final(self).floors@[k].constructions@.0,
                        old(self).attrs.floor_size,
                        old(self).attrs.outer_material,
                        steps.xs@,
                        steps.zs@,
                    )
                },
    {
        let n = self.attrs.floors;
        for f in 0..n
            invariant
                n == old(self).attrs.floors,
                2 * (steps.xs.len() + steps.zs.len()) < u64::MAX,
                self.floors@.len() == old(self).floors@.len() + f,
                self.attrs == (if f > 0 {
                    BuildingAttrs { floor_scheme: FloorScheme::Uniform, ..old(self).attrs }
                } else {
                    old(self).attrs
                }),
                forall|k: int|
                    0 <= k < old(self).floors@.len() ==> #[trigger] self.floors@[k] == old(
                        self,
                    ).floors@[k],
                forall|k: int|
                    old(self).floors@.len() <= k < self.floors@.len() ==> {
                        &&& (#[trigger] self.floors@[k]).height == old(self).attrs.floor_size.1
                        &&& self.floors@[k].constructions@ == uniform_floor_model(
                            old(self).attrs,
                            steps.xs@,
                            steps.zs@,
                        )
                        &&& unique_positions(self.floors@[k].constructions@.0)
                        &&& has_uniform_walls(
                            self.floors@[k].constructions@.0,
                            old(self).attrs.floor_size,
                            steps.xs@,
                            steps.zs@,
                        )
                        &&& only_uniform_walls(
                            self.floors@[k].constructions@.0,
                            old(self).attrs.floor_size,
                            old(self).attrs.outer_material,
                            steps.xs@,
                            steps.zs@,
                        )
                    },
        {
            let floor = BuildingFloor::rand(&mut self.attrs, steps);
            self.floors.push(floor);
        }
    }
}

/// A floor's walls and height depend only on the building's size and outer
/// material, not on the floor scheme it had before: two buildings alike in
/// those get the same floor.
pub proof fn law_floor_ignores_scheme(
    a1: BuildingAttrs,
    a2: BuildingAttrs,
    xs: Seq<HashFlt>,
    zs: Seq<HashFlt>,
)
    requires
        (BuildingAttrs { floor_scheme: FloorScheme::Uniform, ..a1 }) == (BuildingAttrs {
            floor_scheme: FloorScheme::Uniform,
            ..a2
        }),
    ensures
        uniform_floor_model(a1, xs, zs) == uniform_floor_model(a2, xs, zs),
        a1.floor_size.1 == a2.floor_size.1,
{
}

/// A uniformly laid out floor has a wall at every cell of its four sides,
/// nothing but walls of the building's outer material on those sides, and
/// no two walls at one place.
pub proof fn law_uniform_floor_walls(attrs: BuildingAttrs, xs: Seq<HashFlt>, zs: Seq<HashFlt>)
    requires
        2 * (xs.len() + zs.len()) < u64::MAX,
    ensures
        has_uniform_walls(uniform_floor_model(attrs, xs, zs).0, attrs.floor_size, xs, zs),
        only_uniform_walls(
            uniform_floor_model(attrs, xs, zs).0,
            attrs.floor_size,
            attrs.outer_material,
            xs,
            zs,
        ),
        unique_positions(uniform_floor_model(attrs, xs, zs).0),
{
    let size = attrs.floor_size;
    let ps = uniform_wall_positions(size, xs, zs);
    let mm0 = (Map::<MapId, (Vec3, Construction)>::empty(), 0u64);
    law_add_all_no_matching(mm0, ps, uniform_wall(attrs));
    let m = uniform_floor_model(attrs, xs, zs).0;
    let nz = zs.len() as int;
    let nx = xs.len() as int;
    assert forall|k: int| 0 <= k < nz implies has_position(
        m,
        Vec3(HashFlt(0), HashFlt(0), #[trigger] zs[k]),
    ) && has_position(m, Vec3(size.0, HashFlt(0), zs[k])) by {
        assert(ps[k] == Vec3(HashFlt(0), HashFlt(0), zs[k]));
        assert(ps[nz + k] == Vec3(size.0, HashFlt(0), zs[k]));
    }
    assert forall|k: int| 0 <= k < nx implies has_position(
        m,
        Vec3(#[trigger] xs[k], HashFlt(0), HashFlt(0)),
    ) && has_position(m, Vec3(xs[k], HashFlt(0), size.2)) by {
        assert(ps[2 * nz + k] == Vec3(xs[k], HashFlt(0), HashFlt(0)));
        assert(ps[2 * nz + nx + k] == Vec3(xs[k], HashFlt(0), size.2));
    }
    assert forall|id: MapId| #[trigger] m.contains_key(id) implies on_uniform_side(
        m[id].0,
        size,
        xs,
        zs,
    ) by {
        let i = choose|i: int| 0 <= i < ps.len() && ps[i] == m[id].0;
        if i < nz {
            assert(ps[i] == Vec3(HashFlt(0), HashFlt(0), zs[i]));
        } else if i < 2 * nz {
            assert(ps[i] == Vec3(size.0, HashFlt(0), zs[i - nz]));
        } else if i < 2 * nz + nx {
            assert(ps[i] == Vec3(xs[i - 2 * nz], HashFlt(0), HashFlt(0)));
        } else {
            assert(ps[i] == Vec3(xs[i - 2 * nz - nx], HashFlt(0), size.2));
        }
    }
}

} // verus!
