use rustjay::panels::{
    audio_device_chosen, audio_switched, chosen_preset_size, shown_audio_device, custom_height, custom_width, matching_preset, resolution_preset, save_clicked,
    slot_button_label, slot_clicked, slot_menu_label, RESOLUTION_PRESET_COUNT,
};
use rustjay::presets::PresetCommand;
use rustjay::shared::state::AudioCommand;

#[test]
fn resolution_presets_table() {
    assert_eq!(resolution_preset(0), ("Custom", 0, 0));
    assert_eq!(resolution_preset(3), ("1080p (1920x1080)", 1920, 1080));
    assert_eq!(resolution_preset(7), ("Vertical 9:16 (1080x1920)", 1080, 1920));
    assert_eq!(RESOLUTION_PRESET_COUNT, 8);
}

#[test]
fn current_size_selects_its_preset() {
    assert_eq!(matching_preset(1920, 1080), 3);
    assert_eq!(matching_preset(1080, 1080), 6);
    assert_eq!(matching_preset(1000, 1000), 0);
    assert_eq!(matching_preset(0, 0), 0);
}

#[test]
fn choosing_a_preset_sets_its_size() {
    assert_eq!(chosen_preset_size(0, 2), Some((1280, 720)));
    assert_eq!(chosen_preset_size(2, 2), None);
    assert_eq!(chosen_preset_size(3, 0), None);
}

#[test]
fn custom_sizes_have_a_floor() {
    assert_eq!(custom_width(100), 320);
    assert_eq!(custom_width(-5), 320);
    assert_eq!(custom_width(1024), 1024);
    assert_eq!(custom_height(239), 240);
    assert_eq!(custom_height(240), 240);
}

#[test]
fn quick_slot_labels() {
    assert_eq!(slot_button_label(1, Some("Sunset Glow")), "1\nSunset ");
    assert_eq!(slot_button_label(8, Some("Neon")), "8\nNeon");
    assert_eq!(slot_button_label(3, None), "3\n--");
    assert_eq!(slot_menu_label(2, Some("Neon")), "Slot 2 (Neon)");
    assert_eq!(slot_menu_label(5, None), "Slot 5 — empty");
}

#[test]
fn quick_slot_and_save_clicks() {
    assert_eq!(slot_clicked(4, true), Some(PresetCommand::ApplySlot(4)));
    assert_eq!(slot_clicked(4, false), None);
    assert_eq!(save_clicked(""), None);
    assert_eq!(save_clicked("Warm"), Some(PresetCommand::Save { name: "Warm".to_string() }));
}

#[test]
fn audio_device_list_shows_the_active_device() {
    let devices = vec!["Built-in Mic".to_string(), "USB Interface".to_string(), "USB Interface".to_string()];
    assert_eq!(shown_audio_device(&devices, Some("USB Interface"), 0), 1);
    assert_eq!(shown_audio_device(&devices, Some("Loopback"), 2), 2);
    assert_eq!(shown_audio_device(&devices, None, 0), 0);
}

#[test]
fn audio_device_choice_and_switch_post_commands() {
    let devices = vec!["Built-in Mic".to_string(), "USB Interface".to_string()];
    assert_eq!(audio_device_chosen(&devices, 1), AudioCommand::SelectDevice("USB Interface".to_string()));
    assert_eq!(audio_device_chosen(&devices, 5), AudioCommand::SelectDevice(String::new()));
    assert_eq!(audio_switched(true), AudioCommand::Start);
    assert_eq!(audio_switched(false), AudioCommand::Stop);
}
