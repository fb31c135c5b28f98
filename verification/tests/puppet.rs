use layertuber::obs_source::{SettingsUpdate, SourceSettings};
use layertuber::puppet::config::{config_file_name, default_visible, layer_configs, rig_layer_configs};
use layertuber::puppet::input::{key_action, Key, KeyAction};
use layertuber::puppet::visibility::{currently_visible, RuleOutcomes};

fn rule(visible: bool, invisible_when: Option<bool>, visible_when: Option<bool>) -> RuleOutcomes {
    RuleOutcomes { visible, invisible_when, visible_when }
}

#[test]
fn layers_are_visible_by_default() {
    assert!(default_visible());
    assert!(currently_visible(&[]));
    assert!(currently_visible(&[rule(true, None, None)]));
}

#[test]
fn visible_flag_off_hides() {
    assert!(!currently_visible(&[rule(false, None, None)]));
    assert!(!currently_visible(&[rule(true, None, None), rule(false, Some(false), Some(true))]));
}

#[test]
fn invisible_when_rule_hides_when_it_fires() {
    assert!(!currently_visible(&[rule(true, Some(true), None)]));
    assert!(currently_visible(&[rule(true, Some(false), None)]));
}

#[test]
fn visible_when_rule_shows_only_when_it_fires() {
    assert!(currently_visible(&[rule(true, None, Some(true))]));
    assert!(!currently_visible(&[rule(true, None, Some(false))]));
}

#[test]
fn both_rules_are_consulted() {
    assert!(!currently_visible(&[rule(true, Some(false), Some(false))]));
    assert!(!currently_visible(&[rule(true, Some(true), Some(true))]));
    assert!(currently_visible(&[rule(true, Some(false), Some(true))]));
    assert!(!currently_visible(&[rule(true, Some(true), Some(false))]));
}

#[test]
fn visibility_of_stacked_configs_is_conjunction() {
    let outer = [rule(true, None, Some(true)), rule(true, Some(false), None)];
    let inner = [rule(true, None, Some(false))];
    let both: Vec<RuleOutcomes> = outer.iter().chain(inner.iter()).cloned().collect();
    assert_eq!(currently_visible(&both), currently_visible(&outer) && currently_visible(&inner));
    assert!(currently_visible(&outer));
    assert!(!currently_visible(&both));
}

#[test]
fn config_file_sits_beside_image() {
    assert_eq!(config_file_name("puppet.ora"), "puppet.ora.layertuber.yaml");
    assert_eq!(config_file_name(""), ".layertuber.yaml");
    assert_eq!(config_file_name("ä b.ora"), "ä b.ora.layertuber.yaml");
}

#[test]
fn keys_map_to_actions() {
    assert_eq!(key_action(Key::B), Some(KeyAction::Calibrate));
    assert_eq!(key_action(Key::C), Some(KeyAction::ResetCamera));
    assert_eq!(key_action(Key::Space), Some(KeyAction::ToggleInterface));
    assert_eq!(key_action(Key::Other), None);
}

fn empty_update() -> SettingsUpdate {
    SettingsUpdate { path: None, width: None, height: None, camera_index: None, show_features: None }
}

#[test]
fn new_source_settings() {
    let s = SourceSettings::new();
    assert_eq!(s.path, None);
    assert_eq!((s.width, s.height, s.camera_index, s.show_features), (100, 100, 0, false));
}

#[test]
fn update_needs_both_dimensions_to_resize() {
    let mut s = SourceSettings::new();
    let resized = s.update(SettingsUpdate { width: Some(640), ..empty_update() });
    assert!(!resized);
    assert_eq!((s.width, s.height), (100, 100));
    let resized = s.update(SettingsUpdate { width: Some(640), height: Some(480), ..empty_update() });
    assert!(resized);
    assert_eq!((s.width, s.height), (640, 480));
}

#[test]
fn update_replaces_path_and_keeps_unset_values() {
    let mut s = SourceSettings::new();
    s.update(SettingsUpdate {
        path: Some("a.ora".to_string()),
        camera_index: Some(3),
        show_features: Some(true),
        ..empty_update()
    });
    assert_eq!(s.path.as_deref(), Some("a.ora"));
    assert_eq!((s.camera_index, s.show_features), (3, true));
    s.update(empty_update());
    assert_eq!(s.path, None);
    assert_eq!((s.camera_index, s.show_features), (3, true));
}

#[test]
fn update_is_idempotent() {
    let u = SettingsUpdate {
        path: Some("b.ora".to_string()),
        width: Some(10),
        height: Some(20),
        camera_index: None,
        show_features: Some(true),
    };
    let mut once = SourceSettings::new();
    once.update(u.clone());
    let mut twice = once.clone();
    twice.update(u);
    assert_eq!(once, twice);
}

#[test]
fn configs_follow_names_root_first() {
    let table = vec![("head".to_string(), 1u8), ("eyes".to_string(), 2u8), ("body".to_string(), 3u8)];
    let names = vec!["body".to_string(), "head".to_string(), "hat".to_string(), "eyes".to_string()];
    assert_eq!(layer_configs(&table, &names), vec![3, 1, 2]);
    assert_eq!(layer_configs(&table, &vec!["eyes".to_string()]), vec![2]);
    assert!(layer_configs(&table, &vec!["nose".to_string()]).is_empty());
    assert!(layer_configs(&table, &vec![]).is_empty());
    let empty: Vec<(String, u8)> = vec![];
    assert!(layer_configs(&empty, &names).is_empty());
}

#[test]
fn first_entry_of_a_name_wins() {
    let table = vec![("eyes".to_string(), 7u8), ("eyes".to_string(), 8u8)];
    assert_eq!(layer_configs(&table, &vec!["eyes".to_string(), "eyes".to_string()]), vec![7, 7]);
}

#[test]
fn stack_configs_apply_before_the_layer_own() {
    let table = vec![("mouth".to_string(), 1u8), ("head".to_string(), 2u8), ("teeth".to_string(), 3u8)];
    let parents = vec!["head".to_string(), "mouth".to_string()];
    assert_eq!(rig_layer_configs(&table, &parents, &"teeth".to_string()), vec![2, 1, 3]);
    assert_eq!(rig_layer_configs(&table, &vec![], &"teeth".to_string()), vec![3]);
    assert_eq!(rig_layer_configs(&table, &parents, &"tongue".to_string()), vec![2, 1]);
    assert!(rig_layer_configs(&table, &vec!["body".to_string()], &"arm".to_string()).is_empty());
}
