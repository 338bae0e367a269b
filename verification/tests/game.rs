use tuincremental::app::{AppSave, AppState, AppWidget, FileError, VERSION};
use tuincremental::event::{key_to_event, AppEvent, KeyInput};
use tuincremental::resources::resource_array::ResValArray;
use tuincremental::resources::resource_change::ResourceChange;
use tuincremental::resources::ResourceType;
use tuincremental::save_file::{apply_xor_mask, xor_mask};

fn give(app: &mut AppWidget, amounts: [usize; 7]) {
    app.resource_manager.change(ResourceChange::Increase { val: ResValArray(amounts) });
}

#[test]
fn new_game_state() {
    let app = AppWidget::new();
    assert!(app.running);
    assert_eq!(app.generators, vec![0, 1]);
    assert_eq!(app.generator_list.not_yet_used, [8, 7, 6, 5, 4, 3, 2]);
    assert_eq!(app.bottom_text, "By Pignated");
    assert!(app.purchasable_upgrades.is_empty());
    assert_eq!(app.upgrade_manager.pending_upgrades.len(), 2);
    assert_eq!(app.resource_manager.get_all_counts().0, [0; 7]);
}

#[test]
fn quit_stops_the_game() {
    let mut app = AppWidget::new();
    app.quit();
    assert!(!app.running);
}

#[test]
fn ticks_harvest_wood() {
    let mut app = AppWidget::new();
    for _ in 0..19 {
        assert!(app.tick_is_safe());
        app.tick();
    }
    assert_eq!(app.resource_manager.get_count(ResourceType::wood()), 0);
    app.tick();
    assert_eq!(app.resource_manager.get_count(ResourceType::wood()), 1);
    assert_eq!(app.resource_manager.resource_lines[0], "");
    app.tick();
    assert_eq!(app.resource_manager.resource_lines[0], "Current Wood: 1");
    assert_eq!(app.generator_list.get(0).gener.progress, 1);
}

#[test]
fn buying_unaffordable_generator_changes_nothing() {
    let mut app = AppWidget::new();
    assert!(app.select_is_safe(false, Some(1), None));
    let adv = app.handle_select(false, Some(1), None);
    assert!(!adv);
    assert_eq!(app.generators, vec![0, 1]);
    assert_eq!(app.generator_list.get(1).gener.get_count(), 0);
}

#[test]
fn buying_first_unit_unlocks_next_generator() {
    let mut app = AppWidget::new();
    give(&mut app, [60, 0, 0, 0, 0, 0, 0]);
    let adv = app.handle_select(false, Some(1), None);
    assert!(!adv);
    assert_eq!(app.generator_list.get(1).gener.get_count(), 1);
    assert_eq!(app.resource_manager.get_count(ResourceType::wood()), 10);
    assert_eq!(app.generators, vec![0, 1, 2]);
    assert_eq!(app.bottom_text, "0");
}

#[test]
fn buying_more_units_keeps_list() {
    let mut app = AppWidget::new();
    give(&mut app, [100, 0, 0, 0, 0, 0, 0]);
    app.handle_select(false, Some(0), None);
    assert_eq!(app.generator_list.get(0).gener.get_count(), 2);
    assert_eq!(app.resource_manager.get_count(ResourceType::wood()), 75);
    assert_eq!(app.generators, vec![0, 1]);
    assert_eq!(app.bottom_text, "By Pignated");
    app.handle_select(false, Some(0), None);
    assert_eq!(app.resource_manager.get_count(ResourceType::wood()), 49);
}

#[test]
fn upgrade_is_offered_then_bought() {
    let mut app = AppWidget::new();
    give(&mut app, [600, 0, 0, 0, 0, 0, 0]);
    app.tick();
    assert_eq!(app.purchasable_upgrades.len(), 1);
    assert_eq!(app.purchasable_upgrades[0].name, "Punch trees faster");
    assert!(app.upgrade_manager.ready_upgrades.is_empty());
    assert!(app.select_is_safe(true, None, Some(0)));
    let adv = app.handle_select(true, None, Some(0));
    assert!(!adv);
    assert!(app.purchasable_upgrades.is_empty());
    assert_eq!(app.generator_list.get(0).gener.get_ticks_per(), 10);
    assert_eq!(app.resource_manager.get_count(ResourceType::wood()), 500);
}

#[test]
fn second_upgrade_bought_moves_highlight() {
    let mut app = AppWidget::new();
    give(&mut app, [5000, 600, 0, 0, 0, 0, 0]);
    app.tick();
    assert_eq!(app.purchasable_upgrades.len(), 2);
    let adv = app.handle_select(true, None, Some(1));
    assert!(adv);
    assert_eq!(app.purchasable_upgrades.len(), 1);
    assert_eq!(app.generator_list.get(1).gener.get_amount_per_harvest(), 2);
}

#[test]
fn selecting_nothing_in_upgrade_list_does_nothing() {
    let mut app = AppWidget::new();
    let adv = app.handle_select(true, None, None);
    assert!(!adv);
    let adv = app.handle_select(true, None, Some(4));
    assert!(!adv);
}

#[test]
fn unsafe_selection_is_reported() {
    let app = AppWidget::new();
    assert!(!app.select_is_safe(false, None, None));
    assert!(!app.select_is_safe(false, Some(2), None));
}

#[test]
fn key_mapping() {
    assert_eq!(key_to_event(KeyInput::Char('q')), Some(AppEvent::Quit));
    assert_eq!(key_to_event(KeyInput::Enter), Some(AppEvent::Select));
    assert_eq!(key_to_event(KeyInput::Char(' ')), Some(AppEvent::Select));
    assert_eq!(key_to_event(KeyInput::Up), Some(AppEvent::GoUp));
    assert_eq!(key_to_event(KeyInput::Char('k')), Some(AppEvent::GoUp));
    assert_eq!(key_to_event(KeyInput::Down), Some(AppEvent::GoDown));
    assert_eq!(key_to_event(KeyInput::Char('j')), Some(AppEvent::GoDown));
    assert_eq!(key_to_event(KeyInput::Left), Some(AppEvent::GoLeft));
    assert_eq!(key_to_event(KeyInput::Char('h')), Some(AppEvent::GoLeft));
    assert_eq!(key_to_event(KeyInput::Right), Some(AppEvent::GoRight));
    assert_eq!(key_to_event(KeyInput::Char('l')), Some(AppEvent::GoRight));
    assert_eq!(key_to_event(KeyInput::Char('x')), None);
    assert_eq!(key_to_event(KeyInput::Other), None);
}

#[test]
fn law_switch_twice_restores_example() {
    let mut s = AppState::new();
    assert!(!s.selected_upgrade);
    assert_eq!(s.generator_state.selected, Some(0));
    assert_eq!(s.upgrade_state.selected, None);
    s.generator_state.select(Some(3));
    s.switch();
    assert!(s.selected_upgrade);
    assert_eq!(s.generator_state.selected, None);
    assert_eq!(s.upgrade_state.selected, Some(0));
    assert_eq!(s.generator_last_selected, Some(3));
    s.upgrade_state.select(Some(2));
    s.switch();
    assert!(!s.selected_upgrade);
    assert_eq!(s.generator_state.selected, Some(3));
    assert_eq!(s.upgrade_state.selected, None);
    assert_eq!(s.upgrade_last_selected, Some(2));
}

#[test]
fn law_focus_kept_example() {
    let mut s = AppState::new();
    s.next();
    s.previous();
    assert_eq!(s.generator_state.selected, Some(0));
    s.switch();
    s.next();
    s.previous();
    assert_eq!(s.generator_state.selected, None);
    s.switch();
    assert!(!s.selected_upgrade);
    assert!(s.generator_state.selected.is_some());
    assert_eq!(s.upgrade_state.selected, None);
}

#[test]
fn wf_check_matches_new_game() {
    let mut app = AppWidget::new();
    assert!(app.is_wf());
    app.generators.push(0);
    assert!(!app.is_wf());
}

#[test]
fn xor_mask_bytes() {
    assert_eq!(&xor_mask(), b"ILoveMinecraft");
    let mut zeros = vec![0u8; 16];
    apply_xor_mask(&mut zeros);
    assert_eq!(&zeros[..14], b"ILoveMinecraft");
    assert_eq!(&zeros[14..], b"IL");
}

#[test]
fn law_unmask_restores_example() {
    let plain: Vec<u8> = (0..40u8).collect();
    let mut data = plain.clone();
    apply_xor_mask(&mut data);
    assert_ne!(data, plain);
    apply_xor_mask(&mut data);
    assert_eq!(data, plain);
}

#[test]
fn file_error_message() {
    let e = FileError::FileAlreadyExists("/tmp/x.bin".to_string());
    assert_eq!(e.message(), "Error: File at '/tmp/x.bin' already exists and is not a valid save");
    match e.clone() {
        FileError::FileAlreadyExists(p) => assert_eq!(p, "/tmp/x.bin"),
    }
}

#[test]
fn save_and_restore_game() {
    let mut app = AppWidget::new();
    give(&mut app, [60, 0, 0, 0, 0, 0, 0]);
    app.handle_select(false, Some(1), None);
    for _ in 0..25 {
        app.tick();
    }
    let wood = app.resource_manager.get_count(ResourceType::wood());
    let AppWidget { generator_list, generators, resource_manager, purchasable_upgrades, upgrade_manager, .. } = app;
    let save = AppSave::new(generator_list, generators, resource_manager, purchasable_upgrades, upgrade_manager);
    assert_eq!(save.version, VERSION);
    assert_eq!(save.resource_count, 7);
    assert_eq!(save.active_generators.len(), 3);
    assert!(save.active_generators.iter().all(|g| g.in_app));
    assert_eq!(save.generator_list.generators.len(), 6);
    let back = AppWidget::from_save(save);
    assert_eq!(back.generators, vec![6, 7, 8]);
    assert_eq!(back.resource_manager.get_count(ResourceType::wood()), wood);
    assert_eq!(back.generator_list.get(7).gener.generator_name, "Hitting rocks with sticks");
    assert_eq!(back.generator_list.get(7).gener.get_count(), 1);
    assert_eq!(back.generator_list.get(0).gener.generator_name, "Actual Axes");
    assert_eq!(back.generator_list.not_yet_used, [5, 4, 3, 2, 1, 0]);
}

#[test]
fn events_drive_game_and_cursors() {
    let mut app = AppWidget::new();
    let mut state = AppState::new();
    // Nothing affordable: selecting the first generator changes nothing.
    app.handle_event(&mut state, AppEvent::Select);
    assert_eq!(app.generators, vec![0, 1]);
    assert_eq!(state.generator_state.selected, Some(0));
    // Moving within an undrawn list keeps the selection.
    app.handle_event(&mut state, AppEvent::GoDown);
    app.handle_event(&mut state, AppEvent::GoUp);
    assert_eq!(state.generator_state.selected, Some(0));
    // Switching moves the focus to the upgrade list.
    app.handle_event(&mut state, AppEvent::GoRight);
    assert!(state.selected_upgrade);
    assert_eq!(state.generator_state.selected, None);
    assert_eq!(state.upgrade_state.selected, Some(0));
    app.handle_event(&mut state, AppEvent::GoLeft);
    assert!(!state.selected_upgrade);
    assert_eq!(state.generator_state.selected, Some(0));
    // With the price on hand, selecting buys the first unit and unlocks
    // the next generator.
    give(&mut app, [60, 0, 0, 0, 0, 0, 0]);
    state.generator_state.select(Some(1));
    app.handle_event(&mut state, AppEvent::Select);
    assert_eq!(app.generators, vec![0, 1, 2]);
    assert_eq!(app.resource_manager.get_count(ResourceType::wood()), 10);
    assert!(app.running);
    app.handle_event(&mut state, AppEvent::Quit);
    assert!(!app.running);
    assert_eq!(state.generator_state.selected, Some(1));
}

#[test]
fn selecting_second_upgrade_through_events() {
    let mut app = AppWidget::new();
    let mut state = AppState::new();
    give(&mut app, [5000, 600, 0, 0, 0, 0, 0]);
    app.tick();
    app.handle_event(&mut state, AppEvent::GoRight);
    state.upgrade_state.select(Some(1));
    assert!(app.select_is_safe(true, None, Some(1)));
    app.handle_event(&mut state, AppEvent::Select);
    assert_eq!(app.purchasable_upgrades.len(), 1);
    assert_eq!(app.generator_list.get(1).gener.get_amount_per_harvest(), 2);
}
