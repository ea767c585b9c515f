pub mod connect;
pub mod create;
pub mod delete;
pub mod list;
pub mod read;
pub mod update;
