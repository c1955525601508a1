//! Overlays of the window manager itself.
pub mod keybinding_overlay;
