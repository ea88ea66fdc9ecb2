//! Order storage logic of the WB order service: the order model, the SQL
//! statements that persist and load an order, the save and load workflows
//! as state machines, the HTTP replies, and the server settings.

pub mod cache;
pub mod config;
pub mod error;
pub mod model;
pub mod sql;
pub mod load;
pub mod orders;
pub mod save;
