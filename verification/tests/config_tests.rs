use rustsdlretro_core::config::{Config, InputConfig, Renderer, WindowConfig};

#[test]
fn test_default_config() {
    let config = Config::default();
    assert_eq!(config.renderer, Renderer::Fbdev);
    assert_eq!(config.window.width, 640);
    assert_eq!(config.window.height, 480);
    assert_eq!(config.window.scale, 2);
}

#[test]
fn default_window_and_input_settings() {
    let w = WindowConfig::default();
    assert!(!w.borderless);
    assert_eq!(w.title, "rustsdlretro");
    assert_eq!(InputConfig::default().device, "/dev/input/event0");
    assert_eq!(Renderer::default(), Renderer::Fbdev);
}

#[test]
fn config_file_lives_under_home() {
    assert_eq!(Config::default_path("/home/pi"), "/home/pi/.config/rustsdlretro/config.json");
    assert_eq!(Config::default_path(""), ".config/rustsdlretro/config.json");
}
