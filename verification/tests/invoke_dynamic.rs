use jvm_classfile::class_file::constant_pool::types::invoke_dynamic::InvokeDynamic;
use jvm_classfile::error::DecodeError;
use jvm_classfile::util::file::ByteSource;

#[test]
fn invoke_dynamic_read_small_indices() {
    // bootstrap_method_attr_index = 1, name_and_type_index = 2
    let bytes = [0x00, 0x01, 0x00, 0x02];
    let mut reader = ByteSource::new(bytes.to_vec());
    let indy = InvokeDynamic::from(&mut reader).unwrap();
    assert_eq!(indy.bootstrap_method_attr_index, 1);
    assert_eq!(indy.name_and_type_index, 2);
}

#[test]
fn invoke_dynamic_read_large_indices() {
    // bootstrap_method_attr_index = 0xC0DE, name_and_type_index = 0xBEEF
    let bytes = [0xC0, 0xDE, 0xBE, 0xEF];
    let mut reader = ByteSource::new(bytes.to_vec());
    let indy = InvokeDynamic::from(&mut reader).unwrap();
    assert_eq!(indy.bootstrap_method_attr_index, 0xC0DE);
    assert_eq!(indy.name_and_type_index, 0xBEEF);
}

#[test]
fn invoke_dynamic_cut_short_in_second_index() {
    let mut reader = ByteSource::new(vec![0x00, 0x01, 0x00]);
    assert_eq!(
        InvokeDynamic::from(&mut reader),
        Err(DecodeError::ShortRead { expected: 2, actual: 1 })
    );
}

#[test]
fn invoke_dynamic_new_is_blank() {
    assert_eq!(
        InvokeDynamic::new(),
        InvokeDynamic { bootstrap_method_attr_index: 0, name_and_type_index: 0 }
    );
}
