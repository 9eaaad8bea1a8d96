//! One module per record kind of the constant pool.

pub mod class_info;
pub mod double;
pub mod field_ref;
pub mod float;
pub mod integer;
pub mod interface_method_ref;
pub mod invoke_dynamic;
pub mod jvm_string;
pub mod long;
pub mod method_ref;
pub mod method_type;
pub mod name_and_type;
pub mod method_handle;
pub mod utf8;
