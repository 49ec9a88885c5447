use bleedthorn::building::{
    Building, BuildingAttrs, BuildingFloor, FloorScheme, WallSteps, FLOORSCHEME_N,
};
use bleedthorn::construction::Construction;
use bleedthorn::material::{Material, MaterialType};
use bleedthorn::statistics::Statistics;
use bleedthorn::{HashFlt, Vec3};

fn v(x: f32, y: f32, z: f32) -> Vec3 {
    Vec3(HashFlt(x.to_bits()), HashFlt(y.to_bits()), HashFlt(z.to_bits()))
}

fn steps(n: usize) -> Vec<HashFlt> {
    let mut r = Vec::new();
    let mut c: f32 = 0.0;
    for _ in 0..n {
        r.push(HashFlt(c.to_bits()));
        c += 1.0;
    }
    r
}

fn wall_positions(f: &BuildingFloor) -> Vec<Vec3> {
    let mut w_pos: Vec<_> = f
        .constructions
        .iter()
        .filter(|(_, (_, x))| x.is_wall())
        .map(|(i, (p, _))| (*i, *p))
        .collect();
    w_pos.sort_by(|(q, _), (r, _)| q.cmp(r));
    w_pos.into_iter().map(|(_, x)| x).collect()
}

#[test]
fn generate_uniform_floors() {
    let b = Building::rand_with_attrs(BuildingAttrs {
        floor_scheme: FloorScheme::Uniform,
        floor_size: v(3., 1., 4.),
        ..BuildingAttrs::default()
    });
    assert_eq!(b.floors.len(), b.attrs.floors.into());

    for f in b.floors.iter() {
        /* wall positions */
        let mut w_pos: Vec<_> = f
            .constructions
            .iter()
            .filter(|(_, (_, x))| x.is_wall())
            .map(|(i, (p, _))| (*i, *p))
            .collect();

        /* sort by id */
        w_pos.sort_by(|(q, _), (r, _)| q.cmp(r));

        /* map out ids */
        let w_pos: Vec<_> = w_pos.into_iter().map(|(_, x)| x).collect();

        assert_eq!(
            &w_pos,
            &[
                /* verts */
                Vec3::zero(),
                v(0., 0., 1.),
                v(0., 0., 2.),
                v(0., 0., 3.),
                v(3., 0., 0.),
                v(3., 0., 1.),
                v(3., 0., 2.),
                v(3., 0., 3.),
                /* horzs */
                v(1., 0., 0.),
                v(2., 0., 0.),
                v(0., 0., 4.),
                v(1., 0., 4.),
                v(2., 0., 4.),
            ]
        );
    }
}

#[test]
fn generate_lays_out_uniform_walls() {
    let mut b = Building::rand_with_attrs(BuildingAttrs {
        floors: 2,
        floor_scheme: FloorScheme::Chaos,
        floor_size: v(3., 1., 4.),
        outer_material: Material::GreyStone,
        ..BuildingAttrs::default()
    });
    b.generate(&WallSteps { xs: steps(3), zs: steps(4) });
    assert_eq!(b.floors.len(), 2);
    assert_eq!(b.attrs.floor_scheme, FloorScheme::Uniform);
    assert_eq!(b.floors[0], b.floors[1]);
    for f in b.floors.iter() {
        assert_eq!(f.height, HashFlt(1.0f32.to_bits()));
        assert_eq!(f.constructions.len(), 13);
        assert_eq!(f.constructions.1, 12);
        assert_eq!(
            wall_positions(f),
            vec![
                Vec3::zero(),
                v(0., 0., 1.),
                v(0., 0., 2.),
                v(0., 0., 3.),
                v(3., 0., 0.),
                v(3., 0., 1.),
                v(3., 0., 2.),
                v(3., 0., 3.),
                v(1., 0., 0.),
                v(2., 0., 0.),
                v(0., 0., 4.),
                v(1., 0., 4.),
                v(2., 0., 4.),
            ]
        );
        for (_, (_, c)) in f.constructions.iter() {
            assert_eq!(*c, Construction::Wall(Material::GreyStone, v(1., 1., 1.)));
        }
    }
}

#[test]
fn generate_with_no_floors_changes_nothing() {
    let attrs = BuildingAttrs { floor_scheme: FloorScheme::Chaos, ..BuildingAttrs::default() };
    let mut b = Building::rand_with_attrs(attrs);
    b.generate(&WallSteps { xs: steps(3), zs: steps(4) });
    assert_eq!(b.floors.len(), 0);
    assert_eq!(b.attrs, attrs);
}

#[test]
fn generate_appends_floors() {
    let mut b = Building::rand_with_attrs(BuildingAttrs {
        floors: 1,
        floor_size: v(1., 2., 1.),
        ..BuildingAttrs::default()
    });
    let s = WallSteps { xs: steps(1), zs: steps(1) };
    b.generate(&s);
    b.generate(&s);
    assert_eq!(b.floors.len(), 2);
    /* (0,0,0), (1,0,0), (0,0,1) */
    assert_eq!(b.floors[1].constructions.len(), 3);
}

#[test]
fn floor_rand_sets_the_uniform_scheme() {
    let mut attrs = BuildingAttrs {
        floor_scheme: FloorScheme::Chaos,
        floor_size: v(2.5, 3., 1.5),
        ..BuildingAttrs::default()
    };
    let f = BuildingFloor::rand(&mut attrs, &WallSteps { xs: steps(2), zs: steps(1) });
    assert_eq!(attrs.floor_scheme, FloorScheme::Uniform);
    assert_eq!(f.height, HashFlt(3.0f32.to_bits()));
    assert_eq!(
        wall_positions(&f),
        vec![
            Vec3::zero(),
            v(2.5, 0., 0.),
            v(1., 0., 0.),
            v(0., 0., 1.5),
            v(1., 0., 1.5),
        ]
    );
}

#[test]
fn empty_steps_give_no_walls() {
    let mut attrs = BuildingAttrs::default();
    let f = BuildingFloor::rand(&mut attrs, &WallSteps { xs: vec![], zs: vec![] });
    assert_eq!(f.constructions.len(), 0);
}

#[test]
fn default_attrs() {
    let a = BuildingAttrs::default();
    assert_eq!(a.id, 0);
    assert_eq!(a.floors, 0);
    assert_eq!(a.floor_scheme, FloorScheme::Uniform);
    assert_eq!(a.floor_size, Vec3::zero());
    assert_eq!(a.outer_material, Material::Brick);
    assert_eq!(a.floor_material, Material::Brick);
}

#[test]
fn attrs_rand_respects_ranges() {
    let mut stats = Statistics::new();
    let mut some_not_one = false;
    for i in 0..200u64 {
        let a = BuildingAttrs::rand(i, FloorScheme::Chaos, v(1., 2., 3.), &mut stats);
        assert_eq!(a.id, i);
        assert_eq!(a.floor_scheme, FloorScheme::Chaos);
        assert_eq!(a.floor_size, v(1., 2., 3.));
        assert!(1 <= a.floors && a.floors < 100);
        if a.floors != 1 {
            some_not_one = true;
        }
        assert!(MaterialType::BuildingOuter.check(a.outer_material));
        assert!(MaterialType::BuildingFloor.check(a.floor_material));
    }
    assert!(some_not_one);
}

#[test]
fn floor_scheme_from_draw() {
    assert_eq!(FLOORSCHEME_N, 2);
    assert_eq!(FloorScheme::from_draw(0), FloorScheme::Uniform);
    assert_eq!(FloorScheme::from_draw(1), FloorScheme::Chaos);
    assert_eq!(FloorScheme::from_draw(10), FloorScheme::Uniform);
    assert_eq!(FloorScheme::from_draw(u32::MAX), FloorScheme::Chaos);
}

#[test]
fn construction_path_parts() {
    let w = Construction::Wall(Material::Brick, Vec3::zero());
    let f = Construction::Floor(Material::Brick, Vec3::zero());
    assert_eq!(w.path_part(), "wall");
    assert_eq!(f.path_part(), "floor");
    assert!(w.is_wall());
    assert!(!f.is_wall());
}
