//! A diagram editor for the terminal: boxes, arrows and text drawn on a character
//! grid with modal keyboard commands, undo and redo, and a renderer that writes
//! only the cells that changed.

pub mod arrow;
pub mod characters;
pub mod cursor;
pub mod cursor_guide;
pub mod debug_panel;
pub mod draw;
pub mod grid_background;
pub mod intersections;
pub mod keys;
pub mod mode;
pub mod motion_state;
pub mod mutate;
pub mod persistence;
pub mod rectangle;
pub mod renderer;
pub mod scene;
pub mod shape;
pub mod shape_id;
pub mod state;
pub mod status_bar;
pub mod vec2;
pub mod yank;
