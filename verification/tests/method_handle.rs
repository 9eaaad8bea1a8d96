use jvm_classfile::class_file::constant_pool::types::method_handle::{MethodHandle, ReferenceKind};
use jvm_classfile::error::DecodeError;
use jvm_classfile::util::file::ByteSource;

#[test]
fn read_small_kind_and_index() {
    // reference_kind = 1 (GetField), index = 0x0005
    let bytes = [0x01, 0x00, 0x05];
    let mut reader = ByteSource::new(bytes.to_vec());
    let mh = MethodHandle::from(&mut reader).unwrap();
    assert!(matches!(mh.reference_kind, ReferenceKind::GetField));
    assert_eq!(mh.reference_index, 5);
}

#[test]
fn read_large_kind_and_index() {
    // reference_kind = 9 (InvokeInterface), index = 0xFFFE
    let bytes = [0x09, 0xFF, 0xFE];
    let mut reader = ByteSource::new(bytes.to_vec());
    let mh = MethodHandle::from(&mut reader).unwrap();
    assert!(matches!(mh.reference_kind, ReferenceKind::InvokeInterface));
    assert_eq!(mh.reference_index, 0xFFFE);
}

#[test]
fn read_unrecognized_kind_defaults_uninit() {
    // reference_kind = 0 names no kind: the record is rejected, whatever
    // index follows
    let bytes = [0x00, 0x12, 0x34];
    let mut reader = ByteSource::new(bytes.to_vec());
    let mh = MethodHandle::from(&mut reader);
    assert_eq!(mh, Err(DecodeError::InvalidReferenceKind { value: 0 }));
    // the index behind the bad kind byte was not read
    assert_eq!(reader.remaining_len(), 2);
}

#[test]
fn method_handle_kind_ten_is_rejected() {
    let mut reader = ByteSource::new(vec![0x0A, 0x00, 0x01]);
    assert_eq!(
        MethodHandle::from(&mut reader),
        Err(DecodeError::InvalidReferenceKind { value: 10 })
    );
}

#[test]
fn method_handle_bad_kind_wins_over_missing_index() {
    let mut reader = ByteSource::new(vec![0xFF]);
    assert_eq!(
        MethodHandle::from(&mut reader),
        Err(DecodeError::InvalidReferenceKind { value: 0xFF })
    );
}

#[test]
fn method_handle_cut_short() {
    let mut reader = ByteSource::new(vec![]);
    assert_eq!(
        MethodHandle::from(&mut reader),
        Err(DecodeError::ShortRead { expected: 1, actual: 0 })
    );
    let mut reader = ByteSource::new(vec![0x05, 0x00]);
    assert_eq!(
        MethodHandle::from(&mut reader),
        Err(DecodeError::ShortRead { expected: 2, actual: 1 })
    );
}

#[test]
fn reference_kinds_and_their_codes() {
    let kinds = [
        ReferenceKind::GetField,
        ReferenceKind::GetStatic,
        ReferenceKind::PutField,
        ReferenceKind::PutStatic,
        ReferenceKind::InvokeVirtual,
        ReferenceKind::InvokeStatic,
        ReferenceKind::InvokeSpecial,
        ReferenceKind::NewInvokeSpecial,
        ReferenceKind::InvokeInterface,
    ];
    for code in 0..=255u8 {
        let kind = ReferenceKind::from_code(code);
        if (1..=9).contains(&code) {
            assert_eq!(kind, Some(kinds[code as usize - 1]));
            assert_eq!(kinds[code as usize - 1].code(), code);
        } else {
            assert_eq!(kind, None);
        }
    }
}

#[test]
fn method_handle_new_is_blank() {
    assert_eq!(
        MethodHandle::new(),
        MethodHandle { reference_kind: ReferenceKind::GetField, reference_index: 0 }
    );
}
