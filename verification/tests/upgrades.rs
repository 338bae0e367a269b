use tuincremental::generator::generator_list::GeneratorList;
use tuincremental::generator::GeneratorID;
use tuincremental::resources::resource_array::ResValArray;
use tuincremental::resources::ResourceType;
use tuincremental::upgrades::upgrade_manager::UpgradeManager;
use tuincremental::upgrades::upgrade_save::{UpgradeListSave, UpgradeSave};
use tuincremental::upgrades::Upgrade;
use tuincremental::generator::generator_save::GeneratorIDSave;

fn punch_upgrade(list: &GeneratorList) -> Upgrade {
    Upgrade::new(
        GeneratorID::new(ResourceType::wood(), 0),
        Some(2),
        None,
        "desc".to_string(),
        "name".to_string(),
        list,
    )
}

#[test]
fn upgrade_takes_generator_name_from_list() {
    let list = GeneratorList::default();
    let u = punch_upgrade(&list);
    assert_eq!(u.generator_name, "Punching Tree");
    assert_eq!(u.cost.0, [0; 7]);
    assert_eq!(u.requirements.0, [0; 7]);
    let missing = Upgrade::new(GeneratorID::new(ResourceType::diamond(), 3), None, None, "d".to_string(), "n".to_string(), &list);
    assert_eq!(missing.generator_name, "Generator Not Found");
}

#[test]
fn upgrade_builders() {
    let list = GeneratorList::default();
    let u = punch_upgrade(&list).add_cost(100, ResourceType::wood()).add_requirement(500, ResourceType::stone());
    assert_eq!(u.cost.0, [100, 0, 0, 0, 0, 0, 0]);
    assert_eq!(u.requirements.0, [0, 500, 0, 0, 0, 0, 0]);
    let s = Upgrade::new_speed(GeneratorID::new(ResourceType::iron(), 0), 3, "d".to_string(), "n".to_string(), ResValArray([1; 7]), ResValArray([2; 7]), &list);
    assert_eq!(s.speed_multiplier, Some(3));
    assert_eq!(s.output_multiplier, None);
    assert_eq!(s.generator_name, "Electric Drills");
    let o = Upgrade::new_output(GeneratorID::new(ResourceType::iron(), 0), 4, "d".to_string(), "n".to_string(), ResValArray([1; 7]), ResValArray([2; 7]), &list);
    assert_eq!(o.speed_multiplier, None);
    assert_eq!(o.output_multiplier, Some(4));
    assert_eq!(o.cost.0, [1; 7]);
    assert_eq!(o.requirements.0, [2; 7]);
}

#[test]
fn upgrade_select_deselect() {
    let list = GeneratorList::default();
    let mut u = punch_upgrade(&list);
    u.select();
    assert!(u.selected);
    u.deselect();
    assert!(!u.selected);
}

#[test]
fn law_upgrade_save_roundtrip_example() {
    let list = GeneratorList::default();
    let mut u = punch_upgrade(&list).add_cost(7, ResourceType::ruby()).add_requirement(9, ResourceType::gold());
    u.select();
    let s = u.to_save();
    assert_eq!(s.speed_modifier, Some(2));
    assert_eq!(s.output_modifier, None);
    assert_eq!(s.effected_generator.res_type, 0);
    let u2 = s.to_upgr();
    assert!(!u2.selected);
    assert!(u2.effected_generator == u.effected_generator);
    assert_eq!(u2.speed_multiplier, u.speed_multiplier);
    assert_eq!(u2.output_multiplier, u.output_multiplier);
    assert_eq!(u2.generator_name, u.generator_name);
    assert_eq!(u2.description, u.description);
    assert_eq!(u2.name, u.name);
    assert_eq!(u2.cost.0, u.cost.0);
    assert_eq!(u2.requirements.0, u.requirements.0);
}

#[test]
fn upgrade_save_new_widens_multipliers() {
    let s = UpgradeSave::new(
        GeneratorIDSave::new(1, 0),
        None,
        Some(6),
        "g".to_string(),
        "d".to_string(),
        "n".to_string(),
        ResValArray([3; 7]),
        ResValArray([4; 7]),
    );
    assert_eq!(s.speed_modifier, None);
    assert_eq!(s.output_modifier, Some(6u64));
    assert_eq!(s.cost, [3; 7]);
    assert_eq!(s.requirements, [4; 7]);
}

#[test]
fn manager_new_has_two_pending() {
    let list = GeneratorList::default();
    let m = UpgradeManager::new(&list);
    assert_eq!(m.ready_upgrades.len(), 0);
    assert_eq!(m.pending_upgrades.len(), 2);
    assert_eq!(m.pending_upgrades[0].name, "Punch trees faster");
    assert_eq!(m.pending_upgrades[0].generator_name, "Punching Tree");
    assert_eq!(m.pending_upgrades[0].cost.0, [100, 0, 0, 0, 0, 0, 0]);
    assert_eq!(m.pending_upgrades[0].requirements.0, [500, 0, 0, 0, 0, 0, 0]);
    assert_eq!(m.pending_upgrades[1].name, "Use bigger branches");
    assert_eq!(m.pending_upgrades[1].generator_name, "Hitting rocks with sticks");
    assert_eq!(m.pending_upgrades[1].output_multiplier, Some(2));
    assert_eq!(m.pending_upgrades[1].cost.0, [1000, 0, 0, 0, 0, 0, 0]);
    assert_eq!(m.pending_upgrades[1].requirements.0, [0, 500, 0, 0, 0, 0, 0]);
}

#[test]
fn poll_moves_reached_upgrades_in_order() {
    let list = GeneratorList::default();
    let mut m = UpgradeManager::new(&list);
    m.poll_requirement_reached(ResValArray([499, 1000, 0, 0, 0, 0, 0]));
    assert_eq!(m.ready_upgrades.len(), 1);
    assert_eq!(m.ready_upgrades[0].name, "Use bigger branches");
    assert_eq!(m.pending_upgrades.len(), 1);
    assert_eq!(m.pending_upgrades[0].name, "Punch trees faster");
    m.poll_requirement_reached(ResValArray([500, 0, 0, 0, 0, 0, 0]));
    assert_eq!(m.ready_upgrades.len(), 2);
    assert_eq!(m.ready_upgrades[1].name, "Punch trees faster");
    assert_eq!(m.pending_upgrades.len(), 0);
}

#[test]
fn law_poll_partitions_example() {
    let list = GeneratorList::default();
    let mut m = UpgradeManager::new(&list);
    m.poll_requirement_reached(ResValArray([0; 7]));
    assert_eq!(m.ready_upgrades.len() + m.pending_upgrades.len(), 2);
    assert_eq!(m.ready_upgrades.len(), 0);
    m.poll_requirement_reached(ResValArray([10000; 7]));
    assert_eq!(m.ready_upgrades.len(), 2);
    assert_eq!(m.pending_upgrades.len(), 0);
}

#[test]
fn get_and_remove_ready_upgrade() {
    let list = GeneratorList::default();
    let mut m = UpgradeManager::new(&list);
    m.poll_requirement_reached(ResValArray([10000; 7]));
    m.remove_upgrade(0);
    assert_eq!(m.ready_upgrades.len(), 1);
    let u = m.get_upgrade(0);
    assert_eq!(u.name, "Use bigger branches");
}

#[test]
fn manager_save_roundtrip() {
    let list = GeneratorList::default();
    let mut m = UpgradeManager::new(&list);
    m.poll_requirement_reached(ResValArray([0, 500, 0, 0, 0, 0, 0]));
    let s: UpgradeListSave = m.to_save();
    assert_eq!(s.ready_upgrades.len(), 1);
    assert_eq!(s.pending_upgrades.len(), 1);
    let back = UpgradeManager::from_save(s);
    assert_eq!(back.ready_upgrades[0].name, "Use bigger branches");
    assert_eq!(back.pending_upgrades[0].name, "Punch trees faster");
    assert_eq!(back.pending_upgrades[0].requirements.0, [500, 0, 0, 0, 0, 0, 0]);
}

#[test]
fn upgrade_list_save_new() {
    let list = GeneratorList::default();
    let s = UpgradeListSave::new(vec![punch_upgrade(&list)], vec![]);
    assert_eq!(s.ready_upgrades.len(), 1);
    assert_eq!(s.ready_upgrades[0].generator_name, "Punching Tree");
    assert!(s.pending_upgrades.is_empty());
}
