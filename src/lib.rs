//! Hold-to-dictate hotkey logic: an edge-triggered key-combination machine,
//! the overlay window's visibility controller, and a paste injector that runs
//! its key events in order and stops at the first failure.

pub mod hotkey;
pub mod inject;
pub mod overlay;
pub mod paste;
