use bitcoin_genesis::script::{Builder, ConstructionError, OP_CHECKSIG};

#[test]
fn minimal_int_pushes_use_dedicated_opcodes() {
    assert_eq!(Builder::new().push_int(0).into_script().as_bytes(), &[0x00]);
    assert_eq!(Builder::new().push_int(-1).into_script().as_bytes(), &[0x4f]);
    assert_eq!(Builder::new().push_int(1).into_script().as_bytes(), &[0x51]);
    assert_eq!(Builder::new().push_int(4).into_script().as_bytes(), &[0x54]);
    assert_eq!(Builder::new().push_int(16).into_script().as_bytes(), &[0x60]);
}

#[test]
fn minimal_int_pushes_beyond_the_opcodes_use_data_pushes() {
    assert_eq!(Builder::new().push_int(17).into_script().as_bytes(), &[0x01, 0x11]);
    assert_eq!(Builder::new().push_int(-2).into_script().as_bytes(), &[0x01, 0x82]);
    assert_eq!(Builder::new().push_int(128).into_script().as_bytes(), &[0x02, 0x80, 0x00]);
    assert_eq!(Builder::new().push_int(-128).into_script().as_bytes(), &[0x02, 0x80, 0x80]);
    assert_eq!(Builder::new().push_int(256).into_script().as_bytes(), &[0x02, 0x00, 0x01]);
    assert_eq!(
        Builder::new().push_int(486604799).into_script().as_bytes(),
        &[0x04, 0xff, 0xff, 0x00, 0x1d]
    );
}

#[test]
fn non_minimal_int_push_spells_out_small_numbers() {
    assert_eq!(Builder::new().push_int_non_minimal(0).into_script().as_bytes(), &[0x00]);
    assert_eq!(Builder::new().push_int_non_minimal(4).into_script().as_bytes(), &[0x01, 0x04]);
    assert_eq!(Builder::new().push_int_non_minimal(1).into_script().as_bytes(), &[0x01, 0x01]);
    // the minimal and the non-minimal push of the same number differ
    assert_ne!(
        Builder::new().push_int(4).into_script().as_bytes(),
        Builder::new().push_int_non_minimal(4).into_script().as_bytes()
    );
}

#[test]
fn non_minimal_int_push_of_zero_is_empty_data() {
    // zero encodes as an empty byte sequence: a zero-length data push
    let script = Builder::new().push_int_non_minimal(0).into_script();
    assert_eq!(script.as_bytes(), &[0x00]);
    assert_eq!(script.len(), 1);
}

#[test]
fn slice_push_prefixes_follow_the_length() {
    let s75 = Builder::new().push_slice(&[0xaa; 75]).unwrap().into_script();
    assert_eq!(s75.as_bytes()[0], 75);
    assert_eq!(s75.len(), 76);
    let s76 = Builder::new().push_slice(&[0xaa; 76]).unwrap().into_script();
    assert_eq!(&s76.as_bytes()[0..2], &[0x4c, 76]);
    assert_eq!(s76.len(), 78);
    let s255 = Builder::new().push_slice(&[0xaa; 255]).unwrap().into_script();
    assert_eq!(&s255.as_bytes()[0..2], &[0x4c, 255]);
    let s256 = Builder::new().push_slice(&[0xaa; 256]).unwrap().into_script();
    assert_eq!(&s256.as_bytes()[0..3], &[0x4d, 0x00, 0x01]);
    let s520 = Builder::new().push_slice(&[0xaa; 520]).unwrap().into_script();
    assert_eq!(&s520.as_bytes()[0..3], &[0x4d, 0x08, 0x02]);
    assert_eq!(s520.len(), 523);
}

#[test]
fn slice_push_over_the_element_limit_fails() {
    let err = Builder::new().push_slice(&[0xaa; 521]).unwrap_err();
    assert_eq!(err, ConstructionError::OversizedPush { len: 521 });
}

#[test]
fn opcode_push_appends_one_byte() {
    let script = Builder::new()
        .push_slice(&[0x01, 0x02])
        .unwrap()
        .push_opcode(OP_CHECKSIG)
        .into_script();
    assert_eq!(script.as_bytes(), &[0x02, 0x01, 0x02, 0xac]);
}
