pub mod app;
pub mod preferences;
pub mod store;
pub mod user_data;
