use tuincremental::generator::generator_list::{sort_by_idx, GeneratorList};
use tuincremental::generator::generator_save::{GeneratorIDSave, GeneratorListSave, GeneratorSave};
use tuincremental::generator::{grow_cost, Generator, GeneratorID, GeneratorRefCellWrapper};
use tuincremental::resources::resource_array::ResValArray;
use tuincremental::resources::resource_change::ResourceChange;
use tuincremental::resources::ResourceType;
use tuincremental::upgrades::Upgrade;

fn sample(ticks: usize, start: usize, aph: usize) -> Generator {
    Generator::blank(ResourceType::wood(), ticks, 105, start, aph, "Sample".to_string(), 3)
        .add_cost((ResourceType::wood(), 25))
}

fn increase_of(c: ResourceChange) -> [usize; 7] {
    match c {
        ResourceChange::Increase { val } => val.0,
        _ => panic!("expected an increase"),
    }
}

fn decrease_of(c: ResourceChange) -> [usize; 7] {
    match c {
        ResourceChange::Decrease { val } => val.0,
        _ => panic!("expected a decrease"),
    }
}

#[test]
fn grow_cost_values() {
    assert_eq!(grow_cost(25, 105, 0), 25);
    assert_eq!(grow_cost(25, 105, 1), 26);
    assert_eq!(grow_cost(25, 105, 2), 27);
    assert_eq!(grow_cost(25, 105, 10), 40);
    assert_eq!(grow_cost(5, 104, 1), 5);
    assert_eq!(grow_cost(5, 104, 5), 6);
    assert_eq!(grow_cost(5, 104, 20), 10);
    assert_eq!(grow_cost(50, 107, 3), 61);
    assert_eq!(grow_cost(0, 150, 40), 0);
}

#[test]
fn grow_cost_saturates() {
    assert_eq!(grow_cost(usize::MAX, 200, 1), usize::MAX);
    assert_eq!(grow_cost(1000, 1000, 60), usize::MAX);
    assert_eq!(grow_cost(usize::MAX, 50, 1), usize::MAX / 2);
}

#[test]
fn blank_generator_fields() {
    let g = sample(20, 1, 1);
    assert_eq!(g.get_count(), 1);
    assert_eq!(g.progress, 0);
    assert_eq!(g.get_ticks_per(), 20);
    assert_eq!(g.get_amount_per_harvest(), 1);
    assert_eq!(g.purchase_costs.0, [25, 0, 0, 0, 0, 0, 0]);
    assert!(g.id == GeneratorID::new(ResourceType::wood(), 3));
    assert!(!g.selected);
}

#[test]
fn generator_tick_harvests_on_period() {
    let mut g = sample(2, 3, 4);
    assert!(matches!(g.tick(), ResourceChange::NoChange));
    assert_eq!(g.progress, 1);
    assert_eq!(increase_of(g.tick()), [12, 0, 0, 0, 0, 0, 0]);
    assert_eq!(g.progress, 0);
}

#[test]
fn unowned_generator_does_nothing() {
    let mut g = sample(1, 0, 4);
    assert!(matches!(g.tick(), ResourceChange::NoChange));
    assert_eq!(g.progress, 0);
}

#[test]
fn law_progress_below_period_example() {
    let mut g = sample(3, 1, 1);
    for _ in 0..10 {
        g.tick();
        assert!(g.progress < 3);
    }
}

#[test]
fn generator_cost_grows_with_purchases() {
    let mut g = sample(20, 1, 1);
    assert_eq!(g.get_cost().0, [25, 0, 0, 0, 0, 0, 0]);
    assert_eq!(decrease_of(g.buy_next()), [25, 0, 0, 0, 0, 0, 0]);
    assert_eq!(g.get_count(), 2);
    assert_eq!(g.get_cost().0, [26, 0, 0, 0, 0, 0, 0]);
    assert_eq!(decrease_of(g.buy_next()), [26, 0, 0, 0, 0, 0, 0]);
    assert_eq!(g.get_cost().0, [27, 0, 0, 0, 0, 0, 0]);
}

#[test]
fn law_price_never_falls_example() {
    let mut g = Generator::blank(ResourceType::stone(), 10, 104, 0, 2, "P".to_string(), 1)
        .add_cost((ResourceType::wood(), 20))
        .add_cost((ResourceType::iron(), 10));
    let mut last = g.get_cost();
    for _ in 0..30 {
        g.buy_next();
        let now = g.get_cost();
        assert!(now.gte_all(last));
        last = now;
    }
}

#[test]
fn generator_add_cost_accumulates() {
    let g = sample(1, 0, 1).add_cost((ResourceType::wood(), 5)).add_cost((ResourceType::gold(), 2));
    assert_eq!(g.purchase_costs.0, [30, 0, 0, 0, 2, 0, 0]);
}

#[test]
fn generator_upgrade_speed_and_output() {
    let mut g = sample(20, 1, 3);
    let mut list = GeneratorList::default();
    let _ = list.get_next();
    let speed = Upgrade::new_speed(g.id, 2, "d".to_string(), "n".to_string(), ResValArray::new(), ResValArray::new(), &list);
    g.upgrade(speed);
    assert_eq!(g.get_ticks_per(), 10);
    let out = Upgrade::new_output(g.id, 5, "d".to_string(), "n".to_string(), ResValArray::new(), ResValArray::new(), &list);
    g.upgrade(out);
    assert_eq!(g.get_amount_per_harvest(), 15);
    assert_eq!(g.get_ticks_per(), 10);
}

#[test]
fn generator_select_deselect() {
    let mut g = sample(1, 0, 1);
    g.select();
    assert!(g.selected);
    g.select();
    assert!(g.selected);
    g.deselect();
    assert!(!g.selected);
}

#[test]
fn law_generator_save_roundtrip_example() {
    let mut g = sample(7, 2, 3);
    g.tick();
    g.buy_next();
    g.select();
    let s = g.to_save(true, 11);
    assert!(s.in_app);
    assert_eq!(s.idx, 11);
    let g2 = s.to_gen();
    assert_eq!(g2.progress, 0);
    assert!(!g2.selected);
    assert_eq!(g2.get_count(), g.get_count());
    assert_eq!(g2.initial_bought, g.initial_bought);
    assert_eq!(g2.get_ticks_per(), 7);
    assert_eq!(g2.get_amount_per_harvest(), 3);
    assert_eq!(g2.cost_coeff, 105);
    assert_eq!(g2.purchase_costs.0, g.purchase_costs.0);
    assert_eq!(g2.generator_name, "Sample");
    assert!(g2.id == g.id);
    assert!(g2.resource_type == g.resource_type);
}

#[test]
fn law_id_save_roundtrip_example() {
    let id = GeneratorID::new(ResourceType::ruby(), 4);
    let s = id.to_save();
    assert_eq!(s.res_type, 5);
    assert_eq!(s.idx, 4);
    assert!(s.to_id() == id);
    let s2 = GeneratorIDSave::new(2, 9);
    assert!(s2.to_id() == GeneratorID::new(ResourceType::iron(), 9));
}

#[test]
fn wrapper_forwards_to_generator() {
    let mut w = GeneratorRefCellWrapper::new(sample(4, 1, 1), 8);
    w.select();
    assert!(w.borrow().selected);
    w.deselect();
    assert!(!w.borrow().selected);
    w.borrow_mut().progress = 2;
    assert_eq!(w.borrow().progress, 2);
    let c = w.clone();
    assert_eq!(c.idx, 8);
    assert_eq!(c.borrow().progress, 2);
}

#[test]
fn default_list_catalogue() {
    let list = GeneratorList::default();
    assert_eq!(list.len(), 9);
    let names: Vec<String> = list.generators.iter().map(|w| w.gener.generator_name.clone()).collect();
    assert_eq!(
        names,
        vec![
            "Punching Tree",
            "Hitting rocks with sticks",
            "Hitting shinier rocks with more rocks",
            "Actual Axes",
            "Actual Pickaxes",
            "Breaking into Houses to Steal their Wiring",
            "Electric Drills",
            "Sieging the Vault",
            "Artisanal Ruby Mine",
        ]
    );
    assert_eq!(list.generators[0].gener.get_count(), 1);
    assert_eq!(list.generators[7].gener.purchase_costs.0, [100, 100, 100, 100, 0, 0, 0]);
    assert_eq!(list.generators[8].gener.purchase_costs.0, [150, 150, 0, 200, 0, 0, 0]);
    assert_eq!(list.generators[8].gener.cost_coeff, 123);
    assert_eq!(list.count, 9);
}

#[test]
fn default_list_unlocks_in_catalogue_order() {
    let mut list = GeneratorList::default();
    for expected in 0..9usize {
        assert_eq!(list.get_next(), Some(expected));
    }
    assert_eq!(list.get_next(), None);
}

#[test]
fn later_generator_wins_a_shared_identifier() {
    let list = GeneratorList::default();
    let iron0 = GeneratorID::new(ResourceType::iron(), 0);
    assert_eq!(list.find(iron0), Some(6));
    assert_eq!(list.get_gener_name(iron0), Some("Electric Drills".to_string()));
    assert_eq!(list.get_gener_name(GeneratorID::new(ResourceType::wood(), 1)), Some("Actual Axes".to_string()));
    assert_eq!(list.get_gener_name(GeneratorID::new(ResourceType::diamond(), 0)), None);
}

#[test]
fn apply_upgrade_changes_named_generator_only() {
    let mut list = GeneratorList::default();
    let id = GeneratorID::new(ResourceType::wood(), 0);
    let u = Upgrade::new(id, Some(2), Some(3), "d".to_string(), "n".to_string(), &list);
    list.apply_upgrade(u);
    assert_eq!(list.get(0).gener.get_ticks_per(), 10);
    assert_eq!(list.get(0).gener.get_amount_per_harvest(), 3);
    assert_eq!(list.get(3).gener.get_ticks_per(), 10);
    let missing = Upgrade::new(GeneratorID::new(ResourceType::diamond(), 0), Some(2), None, "d".to_string(), "n".to_string(), &list);
    list.apply_upgrade(missing);
    assert_eq!(list.get(0).gener.get_ticks_per(), 10);
}

#[test]
fn add_in_app_gen_takes_precedence_without_waiting() {
    let mut list = GeneratorList::default();
    let g = Generator::blank(ResourceType::wood(), 5, 100, 0, 1, "Other".to_string(), 0);
    let pos = list.add_in_app_gen(GeneratorRefCellWrapper::new(g, 77));
    assert_eq!(pos, 9);
    assert_eq!(list.not_yet_used.len(), 9);
    assert_eq!(list.get_gener_name(GeneratorID::new(ResourceType::wood(), 0)), Some("Other".to_string()));
}

#[test]
fn list_to_save_lists_waiting_front_first() {
    let mut list = GeneratorList::default();
    list.get_next();
    list.get_next();
    let save = list.to_save();
    assert_eq!(save.generators.len(), 7);
    assert_eq!(save.generators[0].generator_name, "Artisanal Ruby Mine");
    assert_eq!(save.generators[6].generator_name, "Hitting shinier rocks with more rocks");
    assert_eq!(save.generators[6].idx, 2);
    assert!(save.generators.iter().all(|s| !s.in_app));
}

fn plain_save(name: &str, idx: u64) -> GeneratorSave {
    GeneratorSave::new(
        1,
        10,
        ResValArray([0, 3, 0, 0, 0, 0, 0]),
        110,
        0,
        0,
        1,
        name.to_string(),
        GeneratorID::new(ResourceType::stone(), 0),
        false,
        idx,
    )
}

#[test]
fn list_from_save_orders_by_saved_order() {
    let saves = GeneratorListSave {
        generators: vec![plain_save("c", 4), plain_save("a", 0), plain_save("b", 2)],
    };
    let mut list = GeneratorList::from_save(saves);
    assert_eq!(list.len(), 3);
    let names: Vec<String> = list.generators.iter().map(|w| w.gener.generator_name.clone()).collect();
    assert_eq!(names, vec!["a", "b", "c"]);
    let idxs: Vec<u64> = list.generators.iter().map(|w| w.idx).collect();
    assert_eq!(idxs, vec![0, 2, 4]);
    assert_eq!(list.count, 6);
    assert_eq!(list.get_next(), Some(0));
    assert_eq!(list.get_next(), Some(1));
}

#[test]
fn sort_by_idx_is_stable_enough_and_complete() {
    let v = vec![plain_save("x", 5), plain_save("y", 1), plain_save("z", 5), plain_save("w", 0)];
    let sorted = sort_by_idx(v);
    let idxs: Vec<u64> = sorted.iter().map(|s| s.idx).collect();
    assert_eq!(idxs, vec![0, 1, 5, 5]);
    let names: Vec<String> = sorted.iter().map(|s| s.generator_name.clone()).collect();
    assert_eq!(names, vec!["w", "y", "x", "z"]);
}

#[test]
fn safety_predicates_for_calls() {
    let mut g = sample(0, 1, 1);
    assert!(!g.is_tick_safe());
    g = sample(0, 0, 1);
    assert!(g.is_tick_safe());
    let g2 = sample(1, 2, usize::MAX);
    assert!(!g2.is_tick_safe());
    let list = GeneratorList::default();
    let zero_speed = Upgrade::new(g.id, Some(0), None, "d".to_string(), "n".to_string(), &list);
    assert!(!g.is_upgrade_safe(&zero_speed));
    let ok = Upgrade::new(g.id, Some(3), Some(2), "d".to_string(), "n".to_string(), &list);
    assert!(g.is_upgrade_safe(&ok));
}
