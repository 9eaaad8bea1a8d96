//! The class file and its constant pool.

pub mod class_file;
pub mod constant_pool;
pub mod truncation;
