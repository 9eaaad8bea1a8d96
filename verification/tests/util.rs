use jvm_classfile::error::DecodeError;
use jvm_classfile::util::bytes::{buffer_to_u16, buffer_to_u32, buffer_to_u64, buffer_to_u8};
use jvm_classfile::util::file::{read_bytes, read_u16, read_u32, read_u8, ByteSource};

#[test]
fn buffers_are_read_most_significant_byte_first() {
    assert_eq!(buffer_to_u8([0x7F]), 0x7F);
    assert_eq!(buffer_to_u16([0x02, 0x0A]), 522);
    assert_eq!(buffer_to_u32([0xCA, 0xFE, 0xBA, 0xBE]), 0xCAFEBABE);
    assert_eq!(
        buffer_to_u64([0x01, 0x23, 0x45, 0x67, 0x89, 0xAB, 0xCD, 0xEF]),
        0x0123456789ABCDEF
    );
}

#[test]
fn buffers_at_the_ends_of_their_ranges() {
    assert_eq!(buffer_to_u8([0xFF]), u8::MAX);
    assert_eq!(buffer_to_u16([0x00, 0x00]), 0);
    assert_eq!(buffer_to_u16([0xFF, 0xFF]), u16::MAX);
    assert_eq!(buffer_to_u32([0x00; 4]), 0);
    assert_eq!(buffer_to_u32([0xFF; 4]), u32::MAX);
    assert_eq!(buffer_to_u64([0x00; 8]), 0);
    assert_eq!(buffer_to_u64([0xFF; 8]), u64::MAX);
}

#[test]
fn buffers_agree_with_the_standard_conversions() {
    for high in [0x00u8, 0x01, 0x7F, 0x80, 0xFE, 0xFF] {
        for low in [0x00u8, 0x01, 0x7F, 0x80, 0xFE, 0xFF] {
            assert_eq!(buffer_to_u16([high, low]), u16::from_be_bytes([high, low]));
            let four = [high, low, low, high];
            assert_eq!(buffer_to_u32(four), u32::from_be_bytes(four));
            let eight = [high, low, high, high, low, low, high, low];
            assert_eq!(buffer_to_u64(eight), u64::from_be_bytes(eight));
        }
    }
}

#[test]
fn read_bytes_hands_out_the_bytes_in_order() {
    let mut reader = ByteSource::new(vec![10, 20, 30, 40, 50]);
    assert_eq!(reader.remaining_len(), 5);
    assert_eq!(read_bytes(&mut reader, 2), Ok(vec![10, 20]));
    assert_eq!(reader.remaining_len(), 3);
    assert_eq!(read_bytes(&mut reader, 0), Ok(vec![]));
    assert_eq!(reader.remaining_len(), 3);
    assert_eq!(read_bytes(&mut reader, 3), Ok(vec![30, 40, 50]));
    assert_eq!(reader.remaining_len(), 0);
    assert_eq!(read_bytes(&mut reader, 0), Ok(vec![]));
}

#[test]
fn read_bytes_reports_how_much_was_missing() {
    let mut reader = ByteSource::new(vec![10, 20, 30]);
    assert_eq!(
        read_bytes(&mut reader, 4),
        Err(DecodeError::ShortRead { expected: 4, actual: 3 })
    );
    // a request that cannot be met drains the source
    assert_eq!(reader.remaining_len(), 0);
    assert_eq!(
        read_bytes(&mut reader, 1),
        Err(DecodeError::ShortRead { expected: 1, actual: 0 })
    );
}

#[test]
fn typed_reads() {
    let mut reader = ByteSource::new(vec![0x07, 0x02, 0x0A, 0xCA, 0xFE, 0xBA, 0xBE, 0x01]);
    assert_eq!(read_u8(&mut reader), Ok(0x07));
    assert_eq!(read_u16(&mut reader), Ok(522));
    assert_eq!(read_u32(&mut reader), Ok(0xCAFEBABE));
    assert_eq!(read_u16(&mut reader), Err(DecodeError::ShortRead { expected: 2, actual: 1 }));
    assert_eq!(read_u8(&mut reader), Err(DecodeError::ShortRead { expected: 1, actual: 0 }));
    assert_eq!(read_u32(&mut reader), Err(DecodeError::ShortRead { expected: 4, actual: 0 }));
}
