use cargo_eval::codec::CodecError;
use cargo_eval::platform_native;
use cargo_eval::platform_wide;

#[test]
fn native_round_trip_plain() {
    let path: Vec<u8> = b"/home/user/scripts/build.crs".to_vec();
    let mut record: Vec<u8> = Vec::new();
    platform_native::write_path(&mut record, &path);
    assert_eq!(record, path);
    let decoded = platform_native::read_path(&record).unwrap();
    assert_eq!(decoded, path);
}

#[test]
fn native_round_trip_non_text_bytes() {
    // Filesystem-legal but not valid UTF-8.
    let path: Vec<u8> = vec![0x2f, 0x74, 0xff, 0xfe, 0x00, 0x80, 0xc3];
    let mut record: Vec<u8> = Vec::new();
    platform_native::write_path(&mut record, &path);
    let decoded = platform_native::read_path(&record).unwrap();
    assert_eq!(decoded, path);
}

#[test]
fn native_round_trip_empty() {
    let path: Vec<u8> = Vec::new();
    let mut record: Vec<u8> = Vec::new();
    platform_native::write_path(&mut record, &path);
    assert_eq!(record.len(), 0);
    assert_eq!(platform_native::read_path(&record).unwrap(), path);
}

#[test]
fn native_write_appends() {
    let mut record: Vec<u8> = vec![1, 2];
    platform_native::write_path(&mut record, &vec![3, 4]);
    assert_eq!(record, vec![1, 2, 3, 4]);
}

#[test]
fn wide_encoding_is_low_byte_first() {
    let path: Vec<u16> = vec![0x0041, 0x1234];
    let mut record: Vec<u8> = Vec::new();
    platform_wide::write_path(&mut record, &path);
    assert_eq!(record, vec![0x41, 0x00, 0x34, 0x12]);
}

#[test]
fn wide_round_trip_with_unpaired_surrogates() {
    // 0xD800 and 0xDFFF are unpaired surrogate code units: representable
    // in paths on the wide-character family, not in any text encoding.
    let path: Vec<u16> = vec![0x0043, 0xd800, 0xdfff, 0xffff, 0x0000, 0x7a69];
    let mut record: Vec<u8> = Vec::new();
    platform_wide::write_path(&mut record, &path);
    assert_eq!(record.len(), 2 * path.len());
    let decoded = platform_wide::read_path(&record).unwrap();
    assert_eq!(decoded, path);
}

#[test]
fn wide_round_trip_empty() {
    let path: Vec<u16> = Vec::new();
    let mut record: Vec<u8> = Vec::new();
    platform_wide::write_path(&mut record, &path);
    assert_eq!(record.len(), 0);
    assert_eq!(platform_wide::read_path(&record).unwrap(), path);
}

#[test]
fn wide_odd_length_is_corruption() {
    let record: Vec<u8> = vec![0x41, 0x00, 0x42];
    let err = platform_wide::read_path(&record).unwrap_err();
    assert_eq!(err, CodecError::OddLength);
    assert_eq!(
        err.message(),
        "corrupted path record: odd number of bytes"
    );
    assert_eq!(err.blame(), cargo_eval::error::Blame::Internal);
}

#[test]
fn force_cargo_color_is_callable() {
    // Byte-native family: reflects whether stderr is a terminal.
    let _ = platform_native::force_cargo_color();
    // Wide-character family: never forces colour.
    assert!(!platform_wide::force_cargo_color());
}
