use rustsdlretro_core::sram::{
    get_save_dir, join_path, rtc_path, save_file_action, sram_path, state_path, SaveFileAction, RETRO_MEMORY_RTC,
    RETRO_MEMORY_SAVE_RAM,
};

#[test]
fn save_paths_are_built_under_the_save_dir() {
    assert_eq!(get_save_dir("/home/pi/.config/rustsdlretro", "snes9x"), "/home/pi/.config/rustsdlretro/saves/snes9x");
    assert_eq!(state_path("/saves/snes9x", "mario"), "/saves/snes9x/mario.state");
    assert_eq!(sram_path("/saves/snes9x", "mario"), "/saves/snes9x/mario.sav");
    assert_eq!(rtc_path("/saves/snes9x/", "mario"), "/saves/snes9x/mario.rtc");
}

#[test]
fn join_follows_path_rules() {
    assert_eq!(join_path("a", "b"), "a/b");
    assert_eq!(join_path("a/", "b"), "a/b");
    assert_eq!(join_path("", "b"), "b");
    assert_eq!(join_path("a", "/b"), "/b");
    assert_eq!(join_path("a", ""), "a/");
}

#[test]
fn save_file_sizes_decide_loading() {
    assert_eq!(save_file_action(8192, 8192), SaveFileAction::Load);
    assert_eq!(save_file_action(100, 8192), SaveFileAction::SizeMismatch);
    assert_eq!(save_file_action(0, 8192), SaveFileAction::SizeMismatch);
    assert_eq!(save_file_action(0, 0), SaveFileAction::Ignore);
    assert_eq!(save_file_action(100, 0), SaveFileAction::Ignore);
    assert_eq!(RETRO_MEMORY_SAVE_RAM, 0);
    assert_eq!(RETRO_MEMORY_RTC, 1);
}
