pub mod app;
pub mod context;
pub mod index;
pub mod user;
pub mod version;
