pub mod result;
pub mod text;
pub mod javascript;
pub mod log;
pub mod aliexpress_provider;
pub mod config;
pub mod database;
pub mod provider;
pub mod task_tracker;
pub mod analyst;
pub mod progress;
pub mod json;
pub mod web;
pub mod path;
pub mod scraper_extension;
pub mod pulling;
