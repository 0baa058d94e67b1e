pub mod record;
pub mod store;
pub mod load;
pub mod command;
pub mod laws;
