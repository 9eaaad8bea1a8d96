//! The header of a class file on its own.

pub mod classfile;
