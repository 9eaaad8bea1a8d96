use jvm_classfile::class_file::class_file::ClassFile;
use jvm_classfile::class_file::constant_pool::item::{ConstantPoolData, ConstantPoolItem};
use jvm_classfile::class_file::constant_pool::tag::ConstantPoolTag;
use jvm_classfile::error::DecodeError;
use jvm_classfile::util::file::ByteSource;

fn utf8_entry(text: &str) -> Vec<u8> {
    let mut bytes = vec![1, (text.len() >> 8) as u8, text.len() as u8];
    bytes.extend_from_slice(text.as_bytes());
    bytes
}

fn one_index(tag: u8, index: u16) -> Vec<u8> {
    vec![tag, (index >> 8) as u8, index as u8]
}

fn two_indices(tag: u8, first: u16, second: u16) -> Vec<u8> {
    vec![tag, (first >> 8) as u8, first as u8, (second >> 8) as u8, second as u8]
}

/// The constant pool of a class that prints a greeting, as a compiler for
/// major version 52 writes it.
fn hello_world_pool_entries() -> Vec<Vec<u8>> {
    vec![
        two_indices(10, 6, 15),
        two_indices(9, 16, 17),
        one_index(8, 18),
        two_indices(10, 19, 20),
        one_index(7, 21),
        one_index(7, 22),
        utf8_entry("<init>"),
        utf8_entry("()V"),
        utf8_entry("Code"),
        utf8_entry("LineNumberTable"),
        utf8_entry("main"),
        utf8_entry("([Ljava/lang/String;)V"),
        utf8_entry("SourceFile"),
        utf8_entry("HelloWorld.java"),
        two_indices(12, 7, 8),
        one_index(7, 23),
        two_indices(12, 24, 25),
        utf8_entry("Hello, World!"),
        one_index(7, 26),
        two_indices(12, 27, 28),
        utf8_entry("HelloWorld"),
        utf8_entry("java/lang/Object"),
        utf8_entry("java/lang/System"),
        utf8_entry("out"),
        utf8_entry("Ljava/io/PrintStream;"),
        utf8_entry("java/io/PrintStream"),
        utf8_entry("println"),
        utf8_entry("(Ljava/lang/String;)V"),
    ]
}

/// Header and constant pool of that class, with nothing behind the pool.
fn hello_world_up_to_pool(major_version: u16) -> Vec<u8> {
    let mut bytes = vec![0xCA, 0xFE, 0xBA, 0xBE, 0x00, 0x00];
    bytes.push((major_version >> 8) as u8);
    bytes.push(major_version as u8);
    bytes.extend_from_slice(&[0x00, 0x1D]);
    for entry in hello_world_pool_entries() {
        bytes.extend_from_slice(&entry);
    }
    bytes
}

/// What follows the pool in that class: access flags, this class, super
/// class, and the counts of interfaces and fields.
const BEHIND_THE_POOL: [u8; 10] = [0x00, 0x21, 0x00, 0x05, 0x00, 0x06, 0x00, 0x00, 0x00, 0x00];

fn hello_world_class() -> Vec<u8> {
    let mut bytes = hello_world_up_to_pool(52);
    bytes.extend_from_slice(&BEHIND_THE_POOL);
    bytes
}

fn too_new_class() -> Vec<u8> {
    let mut bytes = hello_world_up_to_pool(53);
    bytes.extend_from_slice(&BEHIND_THE_POOL);
    bytes
}

fn decode(bytes: Vec<u8>) -> Result<ClassFile, DecodeError> {
    let mut reader = ByteSource::new(bytes);
    let mut class_file = ClassFile::new();
    class_file.decode(&mut reader)?;
    Ok(class_file)
}

#[test]
fn parse_valid_file() {
    let mut class_file = ClassFile::new();
    let mut reader = ByteSource::new(hello_world_class());
    class_file.decode(&mut reader).unwrap();
    assert_eq!(class_file.magic_number(), 0xCAFEBABE);
    assert_eq!(class_file.major_version(), 52);
    assert_eq!(class_file.minor_version(), 0);
    assert_eq!(class_file.constant_pool().count(), 29);
    // constant pool starts at index 1 up to count - 1
    // so we expect 28 items
    assert_eq!(class_file.constant_pool().items().len(), class_file.constant_pool().count() - 1);

    // verify constant pool items in order
    let constant_pool_items = class_file.constant_pool().items();

    // #1 MethodRef class_index=6 name_and_type_index=15 ("java/lang/Object")
    let mut item: &ConstantPoolItem = constant_pool_items.get(0).unwrap();
    assert_eq!(*item.tag(), ConstantPoolTag::MethodRef);
    let mut data: &ConstantPoolData = item.data();
    match data {
        ConstantPoolData::MethodRef(method_ref) => {
            assert_eq!(method_ref.class_index(), 6);
            assert_eq!(method_ref.name_and_type_index(), 15);
        }
        _ => panic!("Expected MethodRef at constant pool index 0"),
    }

    // #2 FieldRef class_index=16 name_and_type_index=17 ("java/lang/System")
    item = constant_pool_items.get(1).unwrap();
    assert_eq!(*item.tag(), ConstantPoolTag::FieldRef);
    data = item.data();
    match data {
        ConstantPoolData::FieldRef(field_ref) => {
            assert_eq!(field_ref.class_index(), 16);
            assert_eq!(field_ref.name_and_type_index(), 17);
        }
        _ => panic!("Expected FieldRef at constant pool index 1"),
    }

    // #3 String string_index=18 ("Hello, World!")
    item = constant_pool_items.get(2).unwrap();
    assert_eq!(*item.tag(), ConstantPoolTag::String);
    data = item.data();
    match data {
        ConstantPoolData::String(string) => {
            assert_eq!(string.string_index(), 18);
        }
        _ => panic!("Expected JvmString at constant pool index 2"),
    }

    // #4 MethodRef class_index=19 ("java/io/PrintStream")
    item = constant_pool_items.get(3).unwrap();
    assert_eq!(*item.tag(), ConstantPoolTag::MethodRef);
    data = item.data();
    match data {
        ConstantPoolData::MethodRef(method_ref) => {
            assert_eq!(method_ref.class_index(), 19);
            assert_eq!(method_ref.name_and_type_index(), 20);
        }
        _ => panic!("Expected MethodRef at constant pool index 3"),
    }

    // #5 Class name_index=21 ("HelloWorld")
    item = constant_pool_items.get(4).unwrap();
    assert_eq!(*item.tag(), ConstantPoolTag::Class);
    data = item.data();
    match data {
        ConstantPoolData::ClassInfo(ci) => {
            assert_eq!(ci.name_index(), 21);
        }
        _ => panic!("Expected Class at constant pool index 4"),
    }

    // #6 Class name_index=22 ("java/lang/Object")
    item = constant_pool_items.get(5).unwrap();
    assert_eq!(*item.tag(), ConstantPoolTag::Class);
    data = item.data();
    match data {
        ConstantPoolData::ClassInfo(ci) => {
            assert_eq!(ci.name_index(), 22);
        }
        _ => panic!("Expected Class at constant pool index 5"),
    }

    // #7 Utf8 "<init>"
    item = constant_pool_items.get(6).unwrap();
    assert_eq!(*item.tag(), ConstantPoolTag::Utf8);
    data = item.data();
    match data {
        ConstantPoolData::Utf8(u) => assert_eq!(u.value(), "<init>"),
        _ => panic!("Expected Utf8 at constant pool index 6"),
    }

    // #8 Utf8 "()V"
    item = constant_pool_items.get(7).unwrap();
    assert_eq!(*item.tag(), ConstantPoolTag::Utf8);
    data = item.data();
    match data {
        ConstantPoolData::Utf8(u) => assert_eq!(u.value(), "()V"),
        _ => panic!("Expected Utf8 at constant pool index 7"),
    }

    // #9 Utf8 "Code"
    item = constant_pool_items.get(8).unwrap();
    assert_eq!(*item.tag(), ConstantPoolTag::Utf8);
    data = item.data();
    match data {
        ConstantPoolData::Utf8(u) => assert_eq!(u.value(), "Code"),
        _ => panic!("Expected Utf8 at constant pool index 8"),
    }

    // #10 Utf8 "LineNumberTable"
    item = constant_pool_items.get(9).unwrap();
    assert_eq!(*item.tag(), ConstantPoolTag::Utf8);
    data = item.data();
    match data {
        ConstantPoolData::Utf8(u) => assert_eq!(u.value(), "LineNumberTable"),
        _ => panic!("Expected Utf8 at constant pool index 9"),
    }

    // #11 Utf8 "main"
    item = constant_pool_items.get(10).unwrap();
    assert_eq!(*item.tag(), ConstantPoolTag::Utf8);
    data = item.data();
    match data {
        ConstantPoolData::Utf8(u) => assert_eq!(u.value(), "main"),
        _ => panic!("Expected Utf8 at constant pool index 10"),
    }

    // #12 Utf8 "([Ljava/lang/String;)V"
    item = constant_pool_items.get(11).unwrap();
    assert_eq!(*item.tag(), ConstantPoolTag::Utf8);
    data = item.data();
    match data {
        ConstantPoolData::Utf8(u) => assert_eq!(u.value(), "([Ljava/lang/String;)V"),
        _ => panic!("Expected Utf8 at constant pool index 11"),
    }

    // #13 Utf8 "SourceFile"
    item = constant_pool_items.get(12).unwrap();
    assert_eq!(*item.tag(), ConstantPoolTag::Utf8);
    data = item.data();
    match data {
        ConstantPoolData::Utf8(u) => assert_eq!(u.value(), "SourceFile"),
        _ => panic!("Expected Utf8 at constant pool index 12"),
    }

    // #14 Utf8 "HelloWorld.java"
    item = constant_pool_items.get(13).unwrap();
    assert_eq!(*item.tag(), ConstantPoolTag::Utf8);
    data = item.data();
    match data {
        ConstantPoolData::Utf8(u) => assert_eq!(u.value(), "HelloWorld.java"),
        _ => panic!("Expected Utf8 at constant pool index 13"),
    }

    // #15 NameAndType name_index=7, descriptor_index=8
    item = constant_pool_items.get(14).unwrap();
    assert_eq!(*item.tag(), ConstantPoolTag::NameAndType);
    data = item.data();
    match data {
        ConstantPoolData::NameAndType(nt) => {
            assert_eq!(nt.name_index(), 7);
            assert_eq!(nt.descriptor_index(), 8);
        }
        _ => panic!("Expected NameAndType at constant pool index 14"),
    }

    // #16 Class name_index=23
    item = constant_pool_items.get(15).unwrap();
    assert_eq!(*item.tag(), ConstantPoolTag::Class);
    data = item.data();
    match data {
        ConstantPoolData::ClassInfo(ci) => assert_eq!(ci.name_index(), 23),
        _ => panic!("Expected Class at constant pool index 15"),
    }

    // #17 NameAndType name_index=24, descriptor_index=25
    item = constant_pool_items.get(16).unwrap();
    assert_eq!(*item.tag(), ConstantPoolTag::NameAndType);
    data = item.data();
    match data {
        ConstantPoolData::NameAndType(nt) => {
            assert_eq!(nt.name_index(), 24);
            assert_eq!(nt.descriptor_index(), 25);
        }
        _ => panic!("Expected NameAndType at constant pool index 16"),
    }

    // #18 Utf8 "Hello, World!"
    item = constant_pool_items.get(17).unwrap();
    assert_eq!(*item.tag(), ConstantPoolTag::Utf8);
    data = item.data();
    match data {
        ConstantPoolData::Utf8(u) => assert_eq!(u.value(), "Hello, World!"),
        _ => panic!("Expected Utf8 at constant pool index 17"),
    }

    // #19 Class name_index=26
    item = constant_pool_items.get(18).unwrap();
    assert_eq!(*item.tag(), ConstantPoolTag::Class);
    data = item.data();
    match data {
        ConstantPoolData::ClassInfo(ci) => assert_eq!(ci.name_index(), 26),
        _ => panic!("Expected Class at constant pool index 18"),
    }

    // #20 NameAndType name_index=27, descriptor_index=28
    item = constant_pool_items.get(19).unwrap();
    assert_eq!(*item.tag(), ConstantPoolTag::NameAndType);
    data = item.data();
    match data {
        ConstantPoolData::NameAndType(nt) => {
            assert_eq!(nt.name_index(), 27);
            assert_eq!(nt.descriptor_index(), 28);
        }
        _ => panic!("Expected NameAndType at constant pool index 19"),
    }

    // #21 Utf8 "HelloWorld"
    item = constant_pool_items.get(20).unwrap();
    assert_eq!(*item.tag(), ConstantPoolTag::Utf8);
    data = item.data();
    match data {
        ConstantPoolData::Utf8(u) => assert_eq!(u.value(), "HelloWorld"),
        _ => panic!("Expected Utf8 at constant pool index 20"),
    }

    // #22 Utf8 "java/lang/Object"
    item = constant_pool_items.get(21).unwrap();
    assert_eq!(*item.tag(), ConstantPoolTag::Utf8);
    data = item.data();
    match data {
        ConstantPoolData::Utf8(u) => assert_eq!(u.value(), "java/lang/Object"),
        _ => panic!("Expected Utf8 at constant pool index 21"),
    }

    // #23 Utf8 "java/lang/System"
    item = constant_pool_items.get(22).unwrap();
    assert_eq!(*item.tag(), ConstantPoolTag::Utf8);
    data = item.data();
    match data {
        ConstantPoolData::Utf8(u) => assert_eq!(u.value(), "java/lang/System"),
        _ => panic!("Expected Utf8 at constant pool index 22"),
    }

    // #24 Utf8 "out"
    item = constant_pool_items.get(23).unwrap();
    assert_eq!(*item.tag(), ConstantPoolTag::Utf8);
    data = item.data();
    match data {
        ConstantPoolData::Utf8(u) => assert_eq!(u.value(), "out"),
        _ => panic!("Expected Utf8 at constant pool index 23"),
    }

    // #25 Utf8 "Ljava/io/PrintStream;"
    item = constant_pool_items.get(24).unwrap();
    assert_eq!(*item.tag(), ConstantPoolTag::Utf8);
    data = item.data();
    match data {
        ConstantPoolData::Utf8(u) => assert_eq!(u.value(), "Ljava/io/PrintStream;"),
        _ => panic!("Expected Utf8 at constant pool index 24"),
    }

    // #26 Utf8 "java/io/PrintStream"
    item = constant_pool_items.get(25).unwrap();
    assert_eq!(*item.tag(), ConstantPoolTag::Utf8);
    data = item.data();
    match data {
        ConstantPoolData::Utf8(u) => assert_eq!(u.value(), "java/io/PrintStream"),
        _ => panic!("Expected Utf8 at constant pool index 25"),
    }

    // #27 Utf8 "println"
    item = constant_pool_items.get(26).unwrap();
    assert_eq!(*item.tag(), ConstantPoolTag::Utf8);
    data = item.data();
    match data {
        ConstantPoolData::Utf8(u) => assert_eq!(u.value(), "println"),
        _ => panic!("Expected Utf8 at constant pool index 26"),
    }

    // #28 Utf8 "(Ljava/lang/String;)V"
    item = constant_pool_items.get(27).unwrap();
    assert_eq!(*item.tag(), ConstantPoolTag::Utf8);
    data = item.data();
    match data {
        ConstantPoolData::Utf8(u) => assert_eq!(u.value(), "(Ljava/lang/String;)V"),
        _ => panic!("Expected Utf8 at constant pool index 27"),
    }

    // the decoder stopped behind the pool
    assert_eq!(reader.remaining_len(), BEHIND_THE_POOL.len());
}

#[test]
fn class_file_fail_to_read_class_thats_too_new() {
    let mut class_file = ClassFile::new();
    let mut reader = ByteSource::new(too_new_class());
    assert!(class_file.decode(&mut reader).is_err());
}

#[test]
fn too_new_class_is_rejected_for_its_version() {
    let mut class_file = ClassFile::new();
    let mut reader = ByteSource::new(too_new_class());
    assert_eq!(
        class_file.decode(&mut reader),
        Err(DecodeError::UnsupportedVersion { found: 53, max_supported: 52 })
    );
    // nothing of the failed decode is kept
    assert_eq!(class_file.magic_number(), 0);
    assert_eq!(class_file.major_version(), 0);
    assert_eq!(class_file.constant_pool().count(), 0);
    // the decoder stopped behind the header
    assert_eq!(reader.remaining_len(), too_new_class().len() - 8);
}

#[test]
fn new_class_file_is_blank() {
    let class_file = ClassFile::new();
    assert_eq!(class_file.magic_number(), 0);
    assert_eq!(class_file.minor_version(), 0);
    assert_eq!(class_file.major_version(), 0);
    assert_eq!(class_file.constant_pool().count(), 0);
    assert!(class_file.constant_pool().items().is_empty());
}

#[test]
fn magic_gate() {
    let candidates: [[u8; 4]; 8] = [
        [0x00, 0x00, 0x00, 0x00],
        [0xFF, 0xFF, 0xFF, 0xFF],
        [0xCA, 0xFE, 0xBA, 0xBF],
        [0xCA, 0xFE, 0xBB, 0xBE],
        [0xCA, 0xFF, 0xBA, 0xBE],
        [0xCB, 0xFE, 0xBA, 0xBE],
        [0xBE, 0xBA, 0xFE, 0xCA],
        [0xCA, 0xFE, 0xD0, 0x0D],
    ];
    for magic in candidates {
        let mut bytes = hello_world_class();
        bytes[..4].copy_from_slice(&magic);
        let mut reader = ByteSource::new(bytes);
        let mut class_file = ClassFile::new();
        assert_eq!(
            class_file.decode(&mut reader),
            Err(DecodeError::InvalidMagicNumber { found: u32::from_be_bytes(magic) })
        );
        assert_eq!(reader.remaining_len(), hello_world_class().len() - 4);
    }
    assert!(decode(hello_world_class()).is_ok());
}

#[test]
fn magic_number_alone_is_not_enough() {
    assert_eq!(
        decode(vec![0xCA, 0xFE, 0xBA, 0xBE]).err(),
        Some(DecodeError::ShortRead { expected: 2, actual: 0 })
    );
}

#[test]
fn version_gate() {
    for major_version in [0u16, 1, 45, 51, 52] {
        let class_file = decode(hello_world_up_to_pool(major_version)).unwrap();
        assert_eq!(class_file.major_version(), major_version);
    }
    for major_version in [53u16, 54, 61, 0x0100, 0x3400, 0xFFFF] {
        assert_eq!(
            decode(hello_world_up_to_pool(major_version)).err(),
            Some(DecodeError::UnsupportedVersion { found: major_version, max_supported: 52 })
        );
    }
}

#[test]
fn any_minor_version_is_accepted() {
    for minor_version in [0u16, 1, 3, 0x00FF, 0x0100, 0x8000, 0xFFFF] {
        let mut bytes = hello_world_class();
        bytes[4] = (minor_version >> 8) as u8;
        bytes[5] = minor_version as u8;
        let class_file = decode(bytes).unwrap();
        assert_eq!(class_file.minor_version(), minor_version);
        assert_eq!(class_file.major_version(), 52);
    }
}

#[test]
fn count_invariant() {
    let class_file = decode(hello_world_class()).unwrap();
    let constant_pool = class_file.constant_pool();
    assert_eq!(constant_pool.items().len(), constant_pool.count() - 1);
    assert_eq!(constant_pool.max_constant_pool_index(), 28);
    // index i + 1 refers to the entry at position i
    assert!(constant_pool.get(0).is_none());
    assert!(constant_pool.get(29).is_none());
    for position in 0..28usize {
        let by_index = constant_pool.get(position as u16 + 1).unwrap();
        assert_eq!(by_index.tag(), constant_pool.items()[position].tag());
    }
    match constant_pool.get(1).unwrap().data() {
        ConstantPoolData::MethodRef(method_ref) => {
            assert_eq!(method_ref.class_index(), 6);
            assert_eq!(method_ref.name_and_type_index(), 15);
        }
        _ => panic!("index 1 is a MethodRef"),
    }
    match constant_pool.get(7).unwrap().data() {
        ConstantPoolData::Utf8(utf8) => assert_eq!(utf8.value(), "<init>"),
        _ => panic!("index 7 is a Utf8"),
    }
}

#[test]
fn truncation_anywhere_before_the_end_of_the_pool_is_a_short_read() {
    let whole = hello_world_up_to_pool(52);
    for length in 0..whole.len() {
        let mut class_file = ClassFile::new();
        let mut reader = ByteSource::new(whole[..length].to_vec());
        match class_file.decode(&mut reader) {
            Err(DecodeError::ShortRead { expected, actual }) => assert!(actual < expected),
            other => panic!("cut at {}: {:?}", length, other),
        }
        assert_eq!(reader.remaining_len(), 0);
        assert_eq!(class_file.constant_pool().items().len(), 0);
    }
    assert!(decode(whole).is_ok());
}

#[test]
fn truncation_inside_the_second_index_of_a_field_ref() {
    // header, count 3, a Utf8 "a", and a FieldRef that lacks its last byte
    let mut bytes = vec![0xCA, 0xFE, 0xBA, 0xBE, 0x00, 0x00, 0x00, 0x34, 0x00, 0x03];
    bytes.extend_from_slice(&[1, 0x00, 0x01, 0x61]);
    bytes.extend_from_slice(&[9, 0x00, 0x01, 0x00]);
    assert_eq!(decode(bytes).err(), Some(DecodeError::ShortRead { expected: 2, actual: 1 }));
}

#[test]
fn what_follows_the_pool_does_not_matter() {
    let mut bytes = hello_world_up_to_pool(52);
    bytes.extend_from_slice(&[0xFF; 40]);
    let mut reader = ByteSource::new(bytes);
    let mut class_file = ClassFile::new();
    assert_eq!(class_file.decode(&mut reader), Ok(()));
    assert_eq!(class_file.constant_pool().items().len(), 28);
    assert_eq!(reader.remaining_len(), 40);
}

#[test]
fn pool_that_declares_one_holds_nothing() {
    let class_file =
        decode(vec![0xCA, 0xFE, 0xBA, 0xBE, 0x00, 0x03, 0x00, 0x2D, 0x00, 0x01]).unwrap();
    assert_eq!(class_file.minor_version(), 3);
    assert_eq!(class_file.major_version(), 45);
    assert_eq!(class_file.constant_pool().count(), 1);
    assert!(class_file.constant_pool().items().is_empty());
}

#[test]
fn pool_that_declares_zero_holds_nothing() {
    let mut reader =
        ByteSource::new(vec![0xCA, 0xFE, 0xBA, 0xBE, 0x00, 0x00, 0x00, 0x34, 0x00, 0x00, 0x07]);
    let mut class_file = ClassFile::new();
    assert_eq!(class_file.decode(&mut reader), Ok(()));
    assert_eq!(class_file.constant_pool().count(), 0);
    assert!(class_file.constant_pool().items().is_empty());
    assert_eq!(reader.remaining_len(), 1);
}

#[test]
fn unknown_tag_in_the_pool_fails_the_class_file() {
    let mut bytes = vec![0xCA, 0xFE, 0xBA, 0xBE, 0x00, 0x00, 0x00, 0x34, 0x00, 0x03];
    bytes.extend_from_slice(&[1, 0x00, 0x01, 0x61]);
    bytes.extend_from_slice(&[2, 0x00, 0x01]);
    let mut reader = ByteSource::new(bytes);
    let mut class_file = ClassFile::new();
    assert_eq!(class_file.decode(&mut reader), Err(DecodeError::UnknownTag { value: 2 }));
    // no partial pool is kept
    assert_eq!(class_file.constant_pool().count(), 0);
    assert!(class_file.constant_pool().items().is_empty());
    assert_eq!(reader.remaining_len(), 2);
}

#[test]
fn index_outside_the_pool_fails_the_class_file() {
    // count 3: valid indices are 1 and 2; the Class entry points at 3
    let mut bytes = vec![0xCA, 0xFE, 0xBA, 0xBE, 0x00, 0x00, 0x00, 0x34, 0x00, 0x03];
    bytes.extend_from_slice(&[7, 0x00, 0x03]);
    bytes.extend_from_slice(&[1, 0x00, 0x01, 0x61]);
    assert_eq!(
        decode(bytes).err(),
        Some(DecodeError::InvalidPoolIndex { index: 3, first_valid: 1, last_valid: 2 })
    );
}

#[test]
fn a_failed_decode_keeps_what_was_decoded_before() {
    let mut class_file = ClassFile::new();
    let mut reader = ByteSource::new(hello_world_class());
    class_file.decode(&mut reader).unwrap();

    let mut bad = ByteSource::new(vec![0xCA, 0xFE, 0xBA, 0xBE, 0x00, 0x00, 0x00, 0x34, 0x00]);
    assert_eq!(
        class_file.decode(&mut bad),
        Err(DecodeError::ShortRead { expected: 2, actual: 1 })
    );
    assert_eq!(class_file.major_version(), 52);
    assert_eq!(class_file.constant_pool().items().len(), 28);
}
