pub mod consts;
pub mod models;
