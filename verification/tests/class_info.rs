use jvm_classfile::class_file::constant_pool::constant_pool::ConstantPool;
use jvm_classfile::class_file::constant_pool::types::class_info::ClassInfo;
use jvm_classfile::error::DecodeError;
use jvm_classfile::util::file::ByteSource;

#[test]
pub fn read_valid_u16() {
    let mut constant_pool = ConstantPool::new();
    constant_pool.set_size(600);

    let bytes = [0x02, 0x0A]; // 522
    let mut reader = ByteSource::new(bytes.to_vec());

    let class_info = ClassInfo::from(&mut reader, &constant_pool).unwrap();
    assert_eq!(class_info.name_index(), 522);
}

#[test]
pub fn read_valid_u8() {
    let mut constant_pool = ConstantPool::new();
    constant_pool.set_size(10);

    let bytes = [0x00, 0x05]; // 5
    let mut reader = ByteSource::new(bytes.to_vec());

    let class_info = ClassInfo::from(&mut reader, &constant_pool).unwrap();
    assert_eq!(class_info.name_index(), 5);
}

#[test]
pub fn name_index_invalid_constant_pool_index() {
    let mut constant_pool = ConstantPool::new();
    constant_pool.set_size(2);

    let bytes = [0x00, 0x05]; // 5
    let mut reader = ByteSource::new(bytes.to_vec());

    let class_info = ClassInfo::from(&mut reader, &constant_pool);
    assert_eq!(class_info.is_err(), true);
}

#[test]
fn class_info_out_of_range_index_is_named_in_the_error() {
    let mut constant_pool = ConstantPool::new();
    constant_pool.set_size(2);
    let mut reader = ByteSource::new(vec![0x00, 0x05]);
    assert_eq!(
        ClassInfo::from(&mut reader, &constant_pool),
        Err(DecodeError::InvalidPoolIndex { index: 5, first_valid: 1, last_valid: 1 })
    );
    // the two bytes of the record were read all the same
    assert_eq!(reader.remaining_len(), 0);
}

#[test]
fn class_info_index_zero_is_rejected() {
    let mut constant_pool = ConstantPool::new();
    constant_pool.set_size(10);
    let mut reader = ByteSource::new(vec![0x00, 0x00]);
    assert_eq!(
        ClassInfo::from(&mut reader, &constant_pool),
        Err(DecodeError::InvalidPoolIndex { index: 0, first_valid: 1, last_valid: 9 })
    );
}

#[test]
fn class_info_accepts_the_last_index_and_rejects_the_count() {
    let mut constant_pool = ConstantPool::new();
    constant_pool.set_size(10);
    let mut reader = ByteSource::new(vec![0x00, 0x09, 0x00, 0x0A]);
    assert_eq!(ClassInfo::from(&mut reader, &constant_pool), Ok(ClassInfo { name_index: 9 }));
    assert_eq!(
        ClassInfo::from(&mut reader, &constant_pool),
        Err(DecodeError::InvalidPoolIndex { index: 10, first_valid: 1, last_valid: 9 })
    );
}

#[test]
fn class_info_in_a_pool_that_declares_nothing() {
    let constant_pool = ConstantPool::new();
    assert_eq!(constant_pool.max_constant_pool_index(), 0);
    let mut reader = ByteSource::new(vec![0x00, 0x01]);
    assert_eq!(
        ClassInfo::from(&mut reader, &constant_pool),
        Err(DecodeError::InvalidPoolIndex { index: 1, first_valid: 1, last_valid: 0 })
    );
}

#[test]
fn class_info_cut_short() {
    let mut constant_pool = ConstantPool::new();
    constant_pool.set_size(10);
    let mut reader = ByteSource::new(vec![0x00]);
    assert_eq!(
        ClassInfo::from(&mut reader, &constant_pool),
        Err(DecodeError::ShortRead { expected: 2, actual: 1 })
    );
}

#[test]
fn class_info_new_is_blank() {
    assert_eq!(ClassInfo::new(), ClassInfo { name_index: 0 });
    assert_eq!(ClassInfo::new().name_index(), 0);
}
