pub mod menu_state;
pub mod game_scanner;
pub mod menu_renderer;
