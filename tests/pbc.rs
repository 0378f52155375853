use phira_monitor::pbc::{BinaryReader, PbcError};

#[test]
fn uleb_reads_multi_byte_values() {
    let mut r = BinaryReader::new(vec![0xE5, 0x8E, 0x26, 0x05]);
    assert_eq!(r.uleb(), Ok(624485));
    assert_eq!(r.pos, 3);
    assert_eq!(r.uleb(), Ok(5));
    assert_eq!(r.uleb(), Err(PbcError::UnexpectedEof));
    assert_eq!(r.pos, 4);
}

#[test]
fn uleb_keeps_low_64_bits_and_rejects_eleven_bytes() {
    let mut r = BinaryReader::new(vec![0xFF; 11]);
    assert_eq!(r.uleb(), Err(PbcError::Overflow));
    assert_eq!(r.pos, 0);
    let mut ok = BinaryReader::new(vec![0xFF, 0xFF, 0xFF, 0xFF, 0xFF, 0xFF, 0xFF, 0xFF, 0xFF, 0x01]);
    assert_eq!(ok.uleb(), Ok(u64::MAX));
    let mut top = BinaryReader::new(vec![0xFF, 0xFF, 0xFF, 0xFF, 0xFF, 0xFF, 0xFF, 0xFF, 0xFF, 0x7F]);
    assert_eq!(top.uleb(), Ok(u64::MAX));
    assert_eq!(top.pos, 10);
    let mut big = BinaryReader::new(vec![0xFF, 0xFF, 0xFF, 0xFF, 0xFF, 0xFF, 0xFF, 0xFF, 0xFF, 0x02]);
    assert_eq!(big.uleb(), Ok((1u64 << 63) - 1));
}

#[test]
fn uleb_eof_inside_value() {
    let mut r = BinaryReader::new(vec![0x80, 0x80]);
    assert_eq!(r.uleb(), Err(PbcError::UnexpectedEof));
    assert_eq!(r.pos, 0);
}

#[test]
fn bytes_flags_and_integers() {
    let mut r = BinaryReader::new(vec![1, 2, 0xFE, 0xFF, 0xFF, 0xFF, 0x01, 0x00, 0x00]);
    assert_eq!(r.read_bool(), Ok(true));
    assert_eq!(r.read_bool(), Ok(false));
    assert_eq!(r.read_i32(), Ok(-2));
    assert_eq!(r.read_u8(), Ok(1));
    assert_eq!(r.read_i32(), Err(PbcError::UnexpectedEof));
    assert_eq!(r.pos, 7);
}

#[test]
fn strings_are_length_prefixed_utf8() {
    let mut r = BinaryReader::new(vec![3, b'a', b'b', b'c', 2, 0xC3, 0xA9, 2, 0xFF, 0xFE, 9, b'x']);
    assert_eq!(r.read_string().unwrap(), "abc");
    assert_eq!(r.read_string().unwrap(), "é");
    assert_eq!(r.read_string(), Err(PbcError::InvalidUtf8));
    assert_eq!(r.pos, 7);
    r.pos = 10;
    assert_eq!(r.read_string(), Err(PbcError::UnexpectedEof));
    assert_eq!(r.pos, 10);
}

#[test]
fn times_accumulate_deltas_until_reset() {
    let mut r = BinaryReader::new(vec![100, 0xC8, 0x01, 7]);
    assert_eq!(r.time(), Ok(100));
    assert_eq!(r.time(), Ok(300));
    r.reset_time();
    assert_eq!(r.time_cursor, 0);
    assert_eq!(r.time(), Ok(7));
}

#[test]
fn arrays_read_count_then_items() {
    let mut r = BinaryReader::new(vec![3, 10, 20, 30, 2, 0x80, 0x01, 5]);
    let v: Vec<u8> = r.read_array().unwrap();
    assert_eq!(v, vec![10, 20, 30]);
    let w: Vec<u64> = r.read_array().unwrap();
    assert_eq!(w, vec![128, 5]);
    let mut short = BinaryReader::new(vec![4, 1, 2]);
    let e: Result<Vec<u8>, PbcError> = short.read_array();
    assert_eq!(e, Err(PbcError::UnexpectedEof));
}
