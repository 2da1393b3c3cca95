use rustsdlretro_core::core_options::{CoreOptionDefinition, CoreOptionValue, CoreOptions, OldVariable};
use rustsdlretro_core::gui::{wrap_text, Gui, GuiState, Menu, SaveLoadAction};
use rustsdlretro_core::input::{InputState, KeyboardKey};
use rustsdlretro_core::overlay::DrawOp;

fn def(key: &str, values: &[&str], default: Option<&str>) -> CoreOptionDefinition {
    CoreOptionDefinition {
        key: key.to_string(),
        desc: key.to_uppercase(),
        info: None,
        values: values.iter().map(|v| CoreOptionValue { value: v.to_string(), label: None }).collect(),
        default_value: default.map(|d| d.to_string()),
    }
}

fn sample_menu() -> Menu {
    Menu::from_core_options("Core", &[def("region", &["auto", "ntsc", "pal"], Some("ntsc")), def("fast", &["off", "on"], None)])
}

#[test]
fn menu_starts_on_first_option_at_its_default() {
    let m = sample_menu();
    assert_eq!(m.items.len(), 6);
    assert_eq!(m.selected, 2);
    assert!(m.is_editable());
    assert_eq!(m.get_selected_key(), Some("region"));
    assert_eq!(m.get_selected_value(), Some(("region".to_string(), "ntsc".to_string())));
    assert_eq!(m.get_current_value(), Some("ntsc"));
}

#[test]
fn cycling_wraps_and_prev_undoes_next() {
    let mut m = sample_menu();
    m.cycle_next();
    assert_eq!(m.get_current_value(), Some("pal"));
    m.cycle_next();
    assert_eq!(m.get_current_value(), Some("auto"));
    m.cycle_prev();
    assert_eq!(m.get_current_value(), Some("pal"));
    m.cycle_prev();
    m.cycle_next();
    assert_eq!(m.get_current_value(), Some("pal"));
}

#[test]
fn cursor_stops_at_ends_and_scrolls() {
    let mut m = sample_menu();
    m.select_up();
    assert_eq!(m.selected, 2);
    m.select_down(200);
    assert_eq!(m.selected, 3);
    assert_eq!(m.get_current_value(), Some("off"));
    m.select_down(200);
    m.select_down(200);
    assert_eq!(m.selected, 5);
    assert!(!m.is_editable());
    assert_eq!(m.get_selected_value(), None);
    m.select_down(200);
    assert_eq!(m.selected, 5);
    // two visible rows: the window follows the cursor
    let mut s = sample_menu();
    assert_eq!(s.visible_count(59), 2);
    s.select_down(59);
    s.select_down(59);
    assert_eq!(s.selected, 4);
    assert_eq!(s.scroll_offset, 3);
    s.select_up();
    s.select_up();
    assert_eq!(s.selected, 2);
    assert_eq!(s.scroll_offset, 2);
}

#[test]
fn old_variables_menu_uses_default_index() {
    let vars = vec![OldVariable {
        key: "snes_speed".to_string(),
        title: "Speed".to_string(),
        values: vec!["normal".to_string(), "fast".to_string()],
        default_index: 1,
    }];
    let m = Menu::from_old_variables("Old", &vars);
    assert_eq!(m.get_selected_value(), Some(("snes_speed".to_string(), "fast".to_string())));
}

#[test]
fn long_text_wraps_at_word_boundaries() {
    assert_eq!(wrap_text("hi", 5), vec!["hi"]);
    assert_eq!(wrap_text("hello world", 5), vec!["hello", "world"]);
    assert_eq!(wrap_text("abcdefgh", 3), vec!["abc", "def", "gh"]);
}

#[test]
fn toggling_menu_twice_returns_to_play() {
    let mut g = Gui::new();
    assert_eq!(*g.state(), GuiState::Playing);
    g.toggle_menu();
    assert_eq!(*g.state(), GuiState::MenuOpen);
    g.toggle_menu();
    assert_eq!(*g.state(), GuiState::Playing);
    g.set_state(GuiState::Settings);
    g.toggle_menu();
    assert_eq!(*g.state(), GuiState::Playing);
}

#[test]
fn names_and_flash_message() {
    let mut g = Gui::new();
    assert_eq!(g.get_core_name(), "RetroCore");
    g.set_core_name("snes9x");
    assert_eq!(g.get_core_name(), "snes9x");
    assert!(!g.flash_is_visible());
    g.show_flash_message("State Saved");
    assert!(g.flash_is_visible());
}

#[test]
fn init_menu_opens_it() {
    let mut g = Gui::new();
    g.init_menu("snes9x", &[def("region", &["auto"], None)]);
    assert_eq!(*g.state(), GuiState::MenuOpen);
}

#[test]
fn save_key_fires_once_per_press() {
    let mut g = Gui::new();
    let mut input = InputState::new();
    input.poll_with_video(&[KeyboardKey::F2]);
    assert_eq!(g.check_save_load_keys(&mut input, true), Some(SaveLoadAction::Save));
    assert_eq!(g.check_save_load_keys(&mut input, true), None);
    input.poll_with_video(&[]);
    input.poll_with_video(&[KeyboardKey::F4]);
    assert_eq!(g.check_save_load_keys(&mut input, true), Some(SaveLoadAction::Load));
}

#[test]
fn overlay_without_options_says_so() {
    let mut g = Gui::new();
    g.toggle_menu();
    assert!(g.fits_overlay(320, 240));
    let ops = g.render(320, 240);
    assert_eq!(ops.len(), 4);
    assert!(matches!(ops[0], DrawOp::Clear { width: 320, height: 240 }));
    assert!(matches!(ops[1], DrawOp::Rect { x1: 10, y1: 10, x2: 310, y2: 190, color: 0 }));
    match &ops[2] {
        DrawOp::Text { x, y, text, color } => {
            assert_eq!((*x, *y, *color), (20, 30, 0xFFFF00));
            assert_eq!(text.as_slice(), b"Core options not available");
        },
        _ => panic!("expected text"),
    }
    match &ops[3] {
        DrawOp::Text { x, y, text, .. } => {
            assert_eq!((*x, *y), (20, 42));
            assert_eq!(text.as_slice(), b"Press ESC to close");
        },
        _ => panic!("expected text"),
    }
    // the overlay was cleared once
    assert_eq!(g.render(320, 240).len(), 3);
    // while playing nothing is drawn
    g.toggle_menu();
    let ops = g.render(320, 240);
    assert_eq!(ops.len(), 1);
    assert!(matches!(ops[0], DrawOp::Clear { .. }));
    assert!(g.render(320, 240).is_empty());
}

#[test]
fn menu_value_change_reaches_core_options() {
    let mut g = Gui::new();
    let mut co = Some(CoreOptions::from_v2(vec![def("region", &["auto", "ntsc", "pal"], Some("ntsc"))]));
    g.init_menu("snes9x", co.as_ref().unwrap().definitions().unwrap());
    assert_eq!(*g.state(), GuiState::MenuOpen);
    let mut input = InputState::new();
    input.poll_with_video(&[KeyboardKey::Right]);
    let mut pending = false;
    for _ in 0..14 {
        assert!(g.can_handle_input());
        assert_eq!(g.handle_input(&mut input, 240, true, &mut co, &mut pending), GuiState::MenuOpen);
    }
    assert!(!pending);
    assert_eq!(co.as_ref().unwrap().get_current_value("region"), Some("ntsc".to_string()));
    g.handle_input(&mut input, 240, true, &mut co, &mut pending);
    assert!(pending);
    assert_eq!(co.as_ref().unwrap().get_current_value("region"), Some("pal".to_string()));
    let mut flag = pending;
    assert!(rustsdlretro_core::take_variable_update(&mut flag));
    assert!(!flag);
}

#[test]
fn console_save_and_load_keys_fire_once() {
    let mut g = Gui::new();
    let mut input = InputState::new();
    assert_eq!(g.check_save_load_keys(&mut input, false), None);
    input.apply_key_event(60, 1);
    assert_eq!(g.check_save_load_keys(&mut input, false), Some(SaveLoadAction::Save));
    assert_eq!(g.check_save_load_keys(&mut input, false), None);
    // holding the key (auto-repeat) does not fire again
    input.apply_key_event(60, 1);
    assert_eq!(g.check_save_load_keys(&mut input, false), None);
    input.apply_key_event(60, 0);
    input.apply_key_event(62, 1);
    assert_eq!(g.check_save_load_keys(&mut input, false), Some(SaveLoadAction::Load));
    assert_eq!(g.check_save_load_keys(&mut input, false), None);
}

#[test]
fn escape_opens_menu_on_console() {
    let mut g = Gui::new();
    let mut input = InputState::new();
    let mut opts = None;
    let mut pending = false;
    input.apply_key_event(1, 1);
    assert_eq!(g.handle_input(&mut input, 240, false, &mut opts, &mut pending), GuiState::MenuOpen);
}

#[test]
fn flash_message_shows_for_120_frames() {
    let mut g = Gui::new();
    g.show_flash_message("State Saved");
    let mut input = InputState::new();
    let mut opts = None;
    let mut pending = false;
    for _ in 0..119 {
        g.handle_input(&mut input, 240, true, &mut opts, &mut pending);
    }
    assert!(g.flash_is_visible());
    g.handle_input(&mut input, 240, true, &mut opts, &mut pending);
    assert!(!g.flash_is_visible());
}

#[test]
fn idle_overlay_draws_nothing_at_any_size() {
    let mut g = Gui::new();
    assert!(!g.fits_overlay(u32::MAX, u32::MAX));
    assert!(g.render(u32::MAX, u32::MAX).is_empty());
}
