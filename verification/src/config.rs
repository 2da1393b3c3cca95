//! Frontend settings: which video renderer to use, the window's size and
//! scale, and the input device. Reading and writing the JSON file is left
//! to the program; the library holds the values, their defaults and where
//! the file lives.
use vstd::prelude::*;
use crate::sram::{join_path, path_join};

verus! {

/// Video backend type.
#[derive(Clone, Copy, PartialEq, Eq, Structural, Debug)]
pub enum Renderer {
    Fbdev,
    Minifb,
}

impl Default for Renderer {
    fn default() -> (r: Self)
        ensures
            r == Renderer::Fbdev,
    {
        Renderer::Fbdev
    }
}

/// Window configuration for the windowed renderer.
#[derive(Clone, Debug)]
pub struct WindowConfig {
    /// Window width in pixels
    pub width: u32,
    /// Window height in pixels
    pub height: u32,
    /// Integer scale factor (X1, X2, X3, X4)
    pub scale: u32,
    /// Whether to use a borderless window
    pub borderless: bool,
    /// Window title
    pub title: String,
}

impl Default for WindowConfig {
    /// 640x480 at scale 2, with a border, titled `rustsdlretro`.
    fn default() -> (w: Self)
        ensures
            w.width == 640,
            w.height == 480,
            w.scale == 2,
            !w.borderless,
            w.title@ == "rustsdlretro"@,
    {
        WindowConfig {
            width: 640,
            height: 480,
            scale: 2,
            borderless: false,
            title: String::from_str("rustsdlretro"),
        }
    }
}

/// Input configuration.
#[derive(Clone, Debug)]
pub struct InputConfig {
    /// Input device path
    pub device: String,
}

impl Default for InputConfig {
    /// The first event device.
    fn default() -> (c: Self)
        ensures
            c.device@ == "/dev/input/event0"@,
    {
        InputConfig { device: String::from_str("/dev/input/event0") }
    }
}

/// Full application configuration.
#[derive(Clone, Debug)]
pub struct Config {
    /// Video renderer to use
    pub renderer: Renderer,
    /// Window configuration (used with the windowed renderer)
    pub window: WindowConfig,
    /// Input configuration
    pub input: InputConfig,
}

impl Default for Config {
    /// The framebuffer renderer with the default window and input settings.
    fn default() -> (c: Self)
        ensures
            c.renderer == Renderer::Fbdev,
            c.window.width == 640,
            c.window.height == 480,
            c.window.scale == 2,
            !c.window.borderless,
            c.window.title@ == "rustsdlretro"@,
            c.input.device@ == "/dev/input/event0"@,
    {
        Config { renderer: Renderer::default(), window: WindowConfig::default(), input: InputConfig::default() }
    }
}

impl Config {
    /// Where the configuration file lives under the home directory `home`:
    /// `<home>/.config/rustsdlretro/config.json`.
    pub fn default_path(home: &str) -> (p: String)
        ensures
            p@ == path_join(path_join(path_join(home@, ".config"@), "rustsdlretro"@), "config.json"@),
    {
        let a = join_path(home, ".config");
        let b = join_path(a.as_str(), "rustsdlretro");
        join_path(b.as_str(), "config.json")
    }
}

} // verus!
