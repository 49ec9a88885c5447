use bleedthorn::item::Item;
use bleedthorn::material::{Material, MaterialType, MATERIAL_N};
use bleedthorn::statistics::{new_material_rejected, Statistics};

#[test]
fn from_draw_takes_the_draw_modulo_the_number_of_materials() {
    assert_eq!(MATERIAL_N, 8);
    assert_eq!(Material::from_draw(0), Material::Brick);
    assert_eq!(Material::from_draw(1), Material::GreyStone);
    assert_eq!(Material::from_draw(7), Material::Concrete);
    assert_eq!(Material::from_draw(9), Material::GreyStone);
    assert_eq!(Material::from_draw(u32::MAX), Material::Concrete);
}

#[test]
fn check_follows_the_type_table() {
    assert!(MaterialType::Metals.check(Material::Gold));
    assert!(!MaterialType::Metals.check(Material::Brick));
    assert!(MaterialType::BuildingOuter.check(Material::GreyStone));
    assert!(!MaterialType::BuildingOuter.check(Material::Concrete));
    assert!(MaterialType::BuildingFloor.check(Material::Concrete));
    assert!(!MaterialType::BuildingFloor.check(Material::Iron));
}

#[test]
fn valids_lists_the_type_table() {
    assert_eq!(
        MaterialType::Metals.valids(),
        vec![
            Material::Iron,
            Material::Copper,
            Material::Gold,
            Material::Silver,
            Material::Platinum
        ]
    );
    assert_eq!(
        MaterialType::BuildingOuter.valids(),
        vec![Material::Brick, Material::GreyStone]
    );
    assert_eq!(
        MaterialType::BuildingFloor.valids(),
        vec![Material::Brick, Material::GreyStone, Material::Concrete]
    );
}

#[test]
fn rand_type_gives_a_material_of_the_type() {
    let mut stats = Statistics::new();
    for _ in 0..200 {
        let m = Material::rand_type(MaterialType::BuildingOuter, &mut stats);
        assert!(m == Material::Brick || m == Material::GreyStone);
        let m = Material::rand_type(MaterialType::Metals, &mut stats);
        assert!(MaterialType::Metals.check(m));
    }
    /* with two admitted materials out of eight, some draws are rejected */
    assert!(stats.materials_rejected > 0);
}

#[test]
fn rand_draws_different_materials() {
    let first = Material::rand();
    let mut differs = false;
    for _ in 0..200 {
        if Material::rand() != first {
            differs = true;
        }
    }
    assert!(differs);
}

#[test]
fn statistics_count_rejections() {
    let mut stats = Statistics::new();
    assert_eq!(stats.materials_rejected, 0);
    new_material_rejected(&mut stats);
    new_material_rejected(&mut stats);
    assert_eq!(stats.materials_rejected, 2);
}

#[test]
fn material_ids_and_names() {
    assert_eq!(Material::GreyStone.id(), "GreyStone");
    assert_eq!(Material::GreyStone.name(), "grey stone");
    assert_eq!(Material::Platinum.id(), "Platinum");
    assert_eq!(Material::Concrete.name(), "concrete");
    assert_eq!(Material::default(), Material::Brick);
}

#[test]
fn items_compare_by_material() {
    assert_eq!(Item::Coin(Material::Gold), Item::Coin(Material::Gold));
    assert_ne!(Item::Coin(Material::Gold), Item::Coin(Material::Silver));
    assert_ne!(Item::TommyGun, Item::Coin(Material::Gold));
}

#[test]
fn rand_type_step_counts_one_rejection_per_rejected_draw() {
    let mut stats = Statistics::new();
    /* draw 2 selects Iron, which the outer type does not admit */
    assert_eq!(Material::rand_type_step(MaterialType::BuildingOuter, 2, &mut stats), None);
    assert_eq!(stats.materials_rejected, 1);
    /* draw 9 selects GreyStone, which it admits */
    assert_eq!(
        Material::rand_type_step(MaterialType::BuildingOuter, 9, &mut stats),
        Some(Material::GreyStone)
    );
    assert_eq!(stats.materials_rejected, 1);
}

#[test]
fn rand_type_step_at_a_full_counter_gives_the_first_admitted_material() {
    let mut stats = Statistics { materials_rejected: usize::MAX };
    assert_eq!(
        Material::rand_type_step(MaterialType::Metals, 0, &mut stats),
        Some(Material::Iron)
    );
    assert_eq!(stats.materials_rejected, usize::MAX);
}
