//! A list of tasks under modal overlays: a popup, a confirmation and a text
//! input. The library holds the state, routes each key event to the overlay
//! that owns it, wraps and sizes the overlays' text, and says where each
//! overlay and its backdrop are drawn. Reading keys and painting cells are
//! left to the program around it.

pub mod application;
pub mod confirm;
pub mod input;
pub mod key;
pub mod layout;
pub mod math;
pub mod popup;
pub mod renderer;
pub mod state;
pub mod style;
pub mod text;
pub mod todo;
pub mod ui;
pub mod wrap_laws;
