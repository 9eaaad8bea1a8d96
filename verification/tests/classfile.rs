use jvm_classfile::classfile::classfile::ClassFile;
use jvm_classfile::error::DecodeError;
use jvm_classfile::util::file::ByteSource;

/// The first bytes of a class compiled for major version 52: the header,
/// a pool count, and the start of the pool.
const HELLO_WORLD_START: [u8; 15] = [
    0xCA, 0xFE, 0xBA, 0xBE, 0x00, 0x00, 0x00, 0x34, 0x00, 0x1D, 0x0A, 0x00, 0x06, 0x00, 0x0F,
];

/// The same for a class compiled for major version 53.
const TOO_NEW_START: [u8; 15] = [
    0xCA, 0xFE, 0xBA, 0xBE, 0x00, 0x00, 0x00, 0x35, 0x00, 0x1D, 0x0A, 0x00, 0x06, 0x00, 0x0F,
];

#[test]
fn parse_magic_number() {
    let mut class_file = ClassFile::new();
    let mut reader = ByteSource::new(HELLO_WORLD_START.to_vec());
    class_file.decode(&mut reader).unwrap();
    assert_eq!(class_file.magic_number(), 0xCAFEBABE);
}

#[test]
fn parse_major_version() {
    let mut class_file = ClassFile::new();
    let mut reader = ByteSource::new(HELLO_WORLD_START.to_vec());
    class_file.decode(&mut reader).unwrap();
    assert_eq!(class_file.major_version(), 52);
}

#[test]
fn classfile_fail_to_read_class_thats_too_new() {
    let mut class_file = ClassFile::new();
    let mut reader = ByteSource::new(TOO_NEW_START.to_vec());
    assert!(class_file.decode(&mut reader).is_err());
}

#[test]
fn header_leaves_the_pool_unread() {
    let mut class_file = ClassFile::new();
    let mut reader = ByteSource::new(HELLO_WORLD_START.to_vec());
    assert_eq!(class_file.decode(&mut reader), Ok(()));
    assert_eq!(class_file.minor_version(), 0);
    assert_eq!(reader.remaining_len(), 7);
}

#[test]
fn header_too_new_names_the_version() {
    let mut class_file = ClassFile::new();
    let mut reader = ByteSource::new(TOO_NEW_START.to_vec());
    assert_eq!(
        class_file.decode(&mut reader),
        Err(DecodeError::UnsupportedVersion { found: 53, max_supported: 52 })
    );
    assert_eq!(class_file.magic_number(), 0);
    assert_eq!(class_file.major_version(), 0);
}

#[test]
fn header_with_wrong_magic_number() {
    let mut class_file = ClassFile::new();
    let mut reader = ByteSource::new(vec![0xDE, 0xAD, 0xBE, 0xEF, 0x00, 0x00, 0x00, 0x34]);
    assert_eq!(
        class_file.decode(&mut reader),
        Err(DecodeError::InvalidMagicNumber { found: 0xDEADBEEF })
    );
    assert_eq!(reader.remaining_len(), 4);
}

#[test]
fn header_cut_short_at_every_length() {
    let expected = [
        DecodeError::ShortRead { expected: 4, actual: 0 },
        DecodeError::ShortRead { expected: 4, actual: 1 },
        DecodeError::ShortRead { expected: 4, actual: 2 },
        DecodeError::ShortRead { expected: 4, actual: 3 },
        DecodeError::ShortRead { expected: 2, actual: 0 },
        DecodeError::ShortRead { expected: 2, actual: 1 },
        DecodeError::ShortRead { expected: 2, actual: 0 },
        DecodeError::ShortRead { expected: 2, actual: 1 },
    ];
    for length in 0..8 {
        let mut class_file = ClassFile::new();
        let mut reader = ByteSource::new(HELLO_WORLD_START[..length].to_vec());
        assert_eq!(class_file.decode(&mut reader), Err(expected[length]));
    }
}

#[test]
fn header_new_is_blank() {
    let class_file = ClassFile::new();
    assert_eq!(class_file.magic_number(), 0);
    assert_eq!(class_file.minor_version(), 0);
    assert_eq!(class_file.major_version(), 0);
}

#[test]
fn read_bytes_fills_the_buffer() {
    let mut class_file = ClassFile::new();
    let mut reader = ByteSource::new(vec![1, 2, 3, 4, 5]);
    let mut buffer = vec![0; 2];
    assert_eq!(class_file.read_bytes(&mut reader, &mut buffer, 3), Ok(()));
    assert_eq!(buffer, vec![1, 2, 3]);
    assert_eq!(
        class_file.read_bytes(&mut reader, &mut buffer, 3),
        Err(DecodeError::ShortRead { expected: 3, actual: 2 })
    );
    assert_eq!(buffer, vec![1, 2, 3]);
    assert_eq!(reader.remaining_len(), 0);
}

#[test]
fn vec_to_numbers_are_big_endian() {
    let class_file = ClassFile::new();
    let buffer = vec![0x01, 0x23, 0x45, 0x67, 0x89, 0xAB, 0xCD, 0xEF, 0xFF];
    assert_eq!(class_file.vec_to_u8(&buffer), 0x01);
    assert_eq!(class_file.vec_to_u16(&buffer), 0x0123);
    assert_eq!(class_file.vec_to_u32(&buffer), 0x01234567);
    assert_eq!(class_file.vec_to_u64(&buffer), 0x0123456789ABCDEF);
}
