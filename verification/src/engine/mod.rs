pub mod apply_engine;
pub mod backup_manager;
pub mod game_detector;
pub mod language_mapper;
pub mod logger;
pub mod resource_scanner;
pub mod restore_engine;
pub mod steam_language;
