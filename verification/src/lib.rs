//! Decoder for the header and the constant pool of JVM class files.
//!
//! A class file starts with a magic number and two version numbers; the
//! constant pool follows: a count and a run of tagged records that refer
//! to each other by position. [`class_file::class_file::ClassFile`] decodes
//! both from a [`util::file::ByteSource`]; [`classfile::classfile::ClassFile`]
//! decodes the header alone.

pub mod class_file;
pub mod classfile;
pub mod error;
pub mod util;
