//! The logic of a workspace bar: what its state is, how events change it, and what it shows.
//!
//! Everything here works on plain values. The program around it draws what [`view`] describes,
//! reads the monitors of the system and talks to the window manager.
pub mod bar;
pub mod clock;
pub mod color;
pub mod gauge;
pub mod icons;
pub mod shared;
pub mod text;
pub mod theme;
pub mod view;
