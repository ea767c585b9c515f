pub mod connect;
pub mod list;
pub mod profiles;
pub mod repair_config;
pub mod setup;
pub mod sign;
