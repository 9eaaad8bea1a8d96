//! The constant pool: its record kinds, its entries and the table itself.

pub mod constant_pool;
pub mod item;
pub mod tag;
pub mod types;
