use vstd::prelude::*;

verus! {

/// The settings of the program, as read from its configuration file.
pub struct Config {
    pub overlay: OverlayConfig,
    pub watcher: WatcherConfig,
}

/// How the overlay window looks.
pub struct OverlayConfig {
    pub width: u32,
    pub height: u32,
    pub font: String,
    pub font_size: u32,
    pub font_rgb: Vec<u8>,
    pub background_rgb: Vec<u8>,
}

/// How often the watcher looks and reports; times are in seconds.
pub struct WatcherConfig {
    pub poll_frequency: u32,
    pub show_frequency: u32,
    pub show_duration: u32,
    pub notification_frequency: u32,
    pub ignore: Vec<String>,
}

} // verus!
