pub mod canvas;
pub mod color;
pub mod command;
pub mod command_system;
pub mod component;
pub mod conversions;
pub mod factory;
pub mod follow_system;
pub mod game_screen;
pub mod input_manager;
pub mod map;
pub mod screen_manager;
pub mod source;
pub mod text_render_system;
pub mod views;
pub mod world;
