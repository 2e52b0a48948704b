//! The decisions of a GTK window: what its state becomes on each event, what its handler is
//! told, and what the toolkit is asked to do.

pub mod builder;
pub mod calls;
pub mod cursor;
pub mod deferred;
pub mod draw;
pub mod events;
pub mod geometry;
pub mod handle;
pub mod history;
pub mod input;
pub mod keyboard;
pub mod laws;
pub mod laws_draw;
pub mod laws_handle;
pub mod laws_input;
pub mod surface;
pub mod tokens;
pub mod window;
