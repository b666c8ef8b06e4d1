//! The screens of the game.

pub mod main_menu;
