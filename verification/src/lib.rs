//! Layout, selection and scrolling logic of a terminal window manager's UI
//! components, with their behaviour stated as contracts and proved.

pub mod action;
pub mod boxed;
pub mod button;
pub mod canvas_scroll_view;
pub mod center;
pub mod command_palette;
pub mod component;
pub mod confirm_overlay;
pub mod dialog_overlay;
pub mod geometry;
pub mod grid;
pub mod helpers;
pub mod hstack;
pub mod label;
pub mod list;
pub mod markdown_viewer;
pub mod menu;
pub mod menu_overlay;
pub mod modal_container;
pub mod panel;
pub mod placement_container;
pub mod scroll_view;
pub mod stack;
pub mod sys;
pub mod tab_bar;
pub mod toggle_list;
pub mod vertical_stack;
pub mod terminal;
pub mod text;
pub mod text_renderer;
