pub mod address;
pub mod error;
pub mod instruction;
pub mod lifecycle;
pub mod processor;
pub mod state;
