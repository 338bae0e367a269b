use tuincremental::resources::new_resource_manager::make_resource_line;
use tuincremental::resources::resource_amount::ResourceAmount;
use tuincremental::resources::resource_array::ResValArray;
use tuincremental::resources::resource_change::ResourceChange;
use tuincremental::resources::{resources, ResManager, ResourceType, RESOURCE_COUNT, TOTAL_ITEMS};
use tuincremental::text::to_decimal_string;

#[test]
fn catalogue_has_seven_named_resources() {
    assert_eq!(RESOURCE_COUNT, 7);
    assert_eq!(TOTAL_ITEMS, 7);
    let all = resources();
    let names: Vec<&str> = all.iter().map(|r| r.name()).collect();
    assert_eq!(names, vec!["Wood", "Stone", "Iron", "Copper", "Gold", "Ruby", "Diamond"]);
    for (i, r) in all.iter().enumerate() {
        assert_eq!(r.id, i);
    }
    assert!(ResourceType::iron() == ResourceType::from_id(2));
    assert!(ResourceType::iron() != ResourceType::gold());
}

#[test]
fn res_val_array_new_is_zero() {
    assert_eq!(ResValArray::new().0, [0; 7]);
}

#[test]
fn res_val_array_gte_all() {
    let a = ResValArray([5, 5, 5, 5, 5, 5, 5]);
    let b = ResValArray([5, 4, 0, 5, 1, 2, 3]);
    assert!(a.gte_all(b));
    assert!(!b.gte_all(a));
    assert!(a.gte_all(a));
    let c = ResValArray([0, 0, 0, 0, 0, 0, 6]);
    assert!(!a.gte_all(c));
}

#[test]
fn res_val_array_add_cost_sets_amount() {
    let a = ResValArray([1, 1, 1, 1, 1, 1, 1]).add_cost(40, ResourceType::copper());
    assert_eq!(a.0, [1, 1, 1, 40, 1, 1, 1]);
}

#[test]
fn res_val_array_get_val() {
    let a = ResValArray([10, 11, 12, 13, 14, 15, 16]);
    assert_eq!(a.get_val(0), 10);
    assert_eq!(a.get_val(6), 16);
    assert_eq!(a.get_val(8), 0);
    assert_eq!(a.get_val(usize::MAX), 0);
}

#[test]
fn res_val_array_add_saturates() {
    let a = ResValArray([usize::MAX, 1, 2, 3, 4, 5, 6]);
    let b = ResValArray([1, 1, 1, 1, 1, 1, 1]);
    assert_eq!((a + b).0, [usize::MAX, 2, 3, 4, 5, 6, 7]);
    let mut c = a;
    c.add_assign(b);
    assert_eq!(c.0, [usize::MAX, 2, 3, 4, 5, 6, 7]);
}

#[test]
fn res_val_array_sub_floors() {
    let a = ResValArray([5, 1, 2, 3, 4, 5, 6]);
    let b = ResValArray([7, 1, 1, 1, 1, 1, 1]);
    assert_eq!((a - b).0, [0, 0, 1, 2, 3, 4, 5]);
    let mut c = a;
    c.sub_assign(b);
    assert_eq!(c.0, [0, 0, 1, 2, 3, 4, 5]);
}

#[test]
fn res_val_array_index_and_set() {
    let mut a = ResValArray::new();
    a.set(4, 9);
    assert_eq!(a.index(4), 9);
    assert_eq!(a.into_array(), [0, 0, 0, 0, 9, 0, 0]);
}

#[test]
fn resource_amount_behaves_like_a_price() {
    let a = ResourceAmount::new().add_cost(3, ResourceType::stone()).add_cost(8, ResourceType::diamond());
    assert_eq!(a.get_arr(), [0, 3, 0, 0, 0, 0, 8]);
    assert_eq!(a.get_val(1), 3);
    assert_eq!(a.get_val(6), 8);
    assert_eq!(a.get_val(100), 0);
    let b = ResourceAmount::new().add_cost(2, ResourceType::stone());
    assert!(a.gte_all(b));
    assert!(!b.gte_all(a));
}

#[test]
fn decimal_strings() {
    assert_eq!(to_decimal_string(0), "0");
    assert_eq!(to_decimal_string(7), "7");
    assert_eq!(to_decimal_string(10), "10");
    assert_eq!(to_decimal_string(12345), "12345");
    assert_eq!(to_decimal_string(usize::MAX), usize::MAX.to_string());
}

#[test]
fn resource_line_text() {
    assert_eq!(make_resource_line(0, 5), "Current Wood: 5");
    assert_eq!(make_resource_line(6, 1200), "Current Diamond: 1200");
}

#[test]
fn manager_starts_empty() {
    let m = ResManager::new();
    assert_eq!(m.get_all_counts().0, [0; 7]);
    assert_eq!(m.get_all_total_counts().0, [0; 7]);
    assert_eq!(m.resource_lines.len(), 7);
    assert!(m.resource_lines.iter().all(|l| l.is_empty()));
    assert_eq!(m.changed_flags(), [false; 7]);
}

#[test]
fn manager_increase_adds_to_stock_and_earned() {
    let mut m = ResManager::new();
    m.change(ResourceChange::Increase { val: ResValArray([5, 0, 2, 0, 0, 0, 0]) });
    assert_eq!(m.get_count(ResourceType::wood()), 5);
    assert_eq!(m.get_total_count(ResourceType::wood()), 5);
    assert_eq!(m.get_count(ResourceType::iron()), 2);
    assert_eq!(m.changed_flags(), [true, false, true, false, false, false, false]);
}

#[test]
fn manager_decrease_spends_stock_only() {
    let mut m = ResManager::new();
    m.change(ResourceChange::Increase { val: ResValArray([5, 3, 0, 0, 0, 0, 0]) });
    m.change(ResourceChange::Decrease { val: ResValArray([2, 9, 0, 0, 0, 0, 0]) });
    assert_eq!(m.get_all_counts().0, [3, 0, 0, 0, 0, 0, 0]);
    assert_eq!(m.get_all_total_counts().0, [5, 3, 0, 0, 0, 0, 0]);
}

#[test]
fn manager_no_change_keeps_everything() {
    let mut m = ResManager::new();
    m.change(ResourceChange::Increase { val: ResValArray([1, 0, 0, 0, 0, 0, 0]) });
    m.change(ResourceChange::NoChange);
    assert_eq!(m.get_all_counts().0, [1, 0, 0, 0, 0, 0, 0]);
    assert_eq!(m.changed_flags(), [true, false, false, false, false, false, false]);
}

#[test]
fn manager_tick_refreshes_changed_lines_only() {
    let mut m = ResManager::new();
    m.change(ResourceChange::Increase { val: ResValArray([0, 0, 42, 0, 0, 0, 0]) });
    m.tick();
    assert_eq!(m.resource_lines[2], "Current Iron: 42");
    assert_eq!(m.resource_lines[0], "");
    m.change(ResourceChange::Decrease { val: ResValArray([0, 0, 40, 0, 0, 0, 0]) });
    assert_eq!(m.resource_lines[2], "Current Iron: 42");
    m.tick();
    assert_eq!(m.resource_lines[2], "Current Iron: 2");
}

#[test]
fn manager_can_afford() {
    let mut m = ResManager::new();
    m.change(ResourceChange::Increase { val: ResValArray([10, 0, 0, 0, 0, 0, 0]) });
    assert!(m.can_afford(ResValArray([10, 0, 0, 0, 0, 0, 0])));
    assert!(!m.can_afford(ResValArray([11, 0, 0, 0, 0, 0, 0])));
    assert!(!m.can_afford(ResValArray([0, 1, 0, 0, 0, 0, 0])));
}

#[test]
fn law_afford_then_spend_example() {
    let mut m = ResManager::new();
    m.change(ResourceChange::Increase { val: ResValArray([10, 4, 0, 0, 0, 0, 0]) });
    let cost = ResValArray([7, 4, 0, 0, 0, 0, 0]);
    assert!(m.can_afford(cost));
    m.change(ResourceChange::Decrease { val: cost });
    assert_eq!(m.get_all_counts().0, [3, 0, 0, 0, 0, 0, 0]);
}

#[test]
fn law_earned_never_below_stock_example() {
    let mut m = ResManager::new();
    m.change(ResourceChange::Increase { val: ResValArray([usize::MAX, 1, 0, 0, 0, 0, 0]) });
    m.change(ResourceChange::Increase { val: ResValArray([5, 1, 0, 0, 0, 0, 0]) });
    m.change(ResourceChange::Decrease { val: ResValArray([3, 9, 0, 0, 0, 0, 0]) });
    assert!(m.get_all_total_counts().gte_all(m.get_all_counts()));
    assert_eq!(m.get_all_total_counts().0, [usize::MAX, 2, 0, 0, 0, 0, 0]);
}

#[test]
fn manager_from_parts_roundtrip() {
    let m = ResManager::from_parts(
        ResValArray([1, 2, 3, 4, 5, 6, 7]),
        ResValArray([2, 2, 3, 4, 5, 6, 7]),
        vec!["a".to_string(); 7],
        [true, false, false, false, false, false, true],
    );
    assert_eq!(m.get_all_counts().0, [1, 2, 3, 4, 5, 6, 7]);
    assert_eq!(m.get_all_total_counts().0, [2, 2, 3, 4, 5, 6, 7]);
    assert_eq!(m.lines_copy(), vec!["a".to_string(); 7]);
    assert_eq!(m.changed_flags(), [true, false, false, false, false, false, true]);
}
