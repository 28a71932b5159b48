use rustjay::presets::{
    name_le_exec, safe_filename_of, sort_presets_by_name, Preset, PresetBank, PresetError,
};

fn preset(name: &str, values: u32) -> Preset<u32> {
    Preset { name: name.to_string(), timestamp: 100, description: String::new(), values }
}

fn names(bank: &PresetBank<u32>) -> Vec<String> {
    bank.presets.iter().map(|p| p.name.clone()).collect()
}

#[test]
fn safe_filenames() {
    assert_eq!(safe_filename_of("My Preset!!"), "my_preset");
    assert_eq!(safe_filename_of("__Hello--World__"), "hello--world");
    assert_eq!(safe_filename_of("a    b"), "a__b");
    assert_eq!(safe_filename_of("Ünïcode Café"), "ünïcode_café");
    assert_eq!(safe_filename_of("!!!"), "");
    assert_eq!(preset("Warm Glow #2", 0).safe_filename(), "warm_glow_2");
}

#[test]
fn names_order_by_characters() {
    assert!(name_le_exec("Alpha", "Beta"));
    assert!(name_le_exec("Alpha", "Alpha"));
    assert!(name_le_exec("Al", "Alpha"));
    assert!(!name_le_exec("Beta", "Alpha"));
    assert!(name_le_exec("Zed", "alpha"));
    let sorted = sort_presets_by_name(vec![preset("b", 1), preset("a", 2), preset("c", 3)]);
    let got: Vec<&str> = sorted.iter().map(|p| p.name.as_str()).collect();
    assert_eq!(got, vec!["a", "b", "c"]);
}

#[test]
fn added_presets_stay_sorted() {
    let mut bank: PresetBank<u32> = PresetBank::new();
    assert_eq!(bank.add_preset(preset("Sunset", 1)), 0);
    assert_eq!(bank.add_preset(preset("Aurora", 2)), 0);
    assert_eq!(bank.add_preset(preset("Neon", 3)), 1);
    assert_eq!(names(&bank), vec!["Aurora", "Neon", "Sunset"]);
}

#[test]
fn slots_follow_deletions() {
    let mut bank: PresetBank<u32> = PresetBank::new();
    bank.set_loaded(vec![preset("c", 3), preset("a", 1), preset("b", 2)]);
    assert_eq!(names(&bank), vec!["a", "b", "c"]);
    bank.assign_to_slot(0, 1).unwrap();
    bank.assign_to_slot(1, 2).unwrap();
    bank.assign_to_slot(2, 3).unwrap();
    assert_eq!(bank.assign_to_slot(0, 9), Err(PresetError::SlotOutOfRange(9)));
    assert_eq!(bank.assign_to_slot(5, 4), Err(PresetError::InvalidIndex(5)));
    bank.apply_preset(2).ok().unwrap();
    assert_eq!(bank.delete_preset(1).ok().unwrap().name, "b");
    assert_eq!(bank.get_slot(1), Some(0));
    assert_eq!(bank.get_slot(2), None);
    assert_eq!(bank.get_slot(3), Some(1));
    assert_eq!(bank.get_slot_name(3), Some("c"));
    assert_eq!(bank.current_name(), Some("c"));
    assert!(matches!(bank.delete_preset(7), Err(PresetError::InvalidIndex(7))));
}

#[test]
fn applying_slots() {
    let mut bank: PresetBank<u32> = PresetBank::new();
    bank.set_loaded(vec![preset("a", 10), preset("b", 20)]);
    bank.assign_to_slot(1, 8).unwrap();
    assert_eq!(bank.apply_slot(8).ok().unwrap().values, 20);
    assert_eq!(bank.current_index, Some(1));
    assert!(matches!(bank.apply_slot(1), Err(PresetError::EmptySlot(1))));
    assert!(matches!(bank.apply_slot(0), Err(PresetError::EmptySlot(0))));
    bank.clear_slot(8);
    assert_eq!(bank.get_slot(8), None);
    assert!(matches!(bank.apply_preset(2), Err(PresetError::InvalidIndex(2))));
}

#[test]
fn duplicate_copies_under_new_name() {
    let mut bank: PresetBank<u32> = PresetBank::new();
    bank.set_loaded(vec![preset("Base", 42)]);
    let i = bank.duplicate_preset(0, "Another", 555).ok().unwrap();
    assert_eq!(i, 0);
    assert_eq!(names(&bank), vec!["Another", "Base"]);
    let copy = bank.get(0).unwrap();
    assert_eq!((copy.values, copy.timestamp), (42, 555));
    assert_eq!(bank.get(1).unwrap().timestamp, 100);
    assert_eq!(bank.duplicate_preset(9, "x", 1), Err(PresetError::InvalidIndex(9)));
}

#[test]
fn rename_and_update() {
    let mut bank: PresetBank<u32> = PresetBank::new();
    bank.set_loaded(vec![preset("a", 1), preset("b", 2)]);
    bank.rename_preset(0, "z").unwrap();
    assert_eq!(names(&bank), vec!["b", "z"]);
    bank.update_preset(1, 999, 7).unwrap();
    assert_eq!((bank.get(1).unwrap().values, bank.get(1).unwrap().timestamp), (7, 999));
    assert_eq!(bank.rename_preset(5, "q"), Err(PresetError::InvalidIndex(5)));
}
