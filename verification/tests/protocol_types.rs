use db_wrapper::protocol::error::DbError;
use db_wrapper::protocol::new_table::{
    builder_to_column_def, col_with_default_value, default_col, id_column, not_null_col, ColumnDefBuilder, ColumnType,
};
use db_wrapper::protocol::row_col::Col;
use db_wrapper::protocol::serialization::{ok_serialized, Base64Bytes};

#[test]
fn id_column_is_the_conventional_key() {
    let c = id_column();
    assert_eq!(c.name, "id");
    assert_eq!(c.column_type, "INTEGER");
    assert!(c.primary_key && c.not_null && c.unique && c.autoincrement);
    assert_eq!(c.default_value, "");
}

#[test]
fn default_col_is_plain_and_nullable() {
    let c = default_col(ColumnType::Real, "score");
    assert_eq!(c.name, "score");
    assert_eq!(c.column_type, "REAL");
    assert!(!c.primary_key && !c.not_null && !c.unique && !c.autoincrement);
    assert_eq!(c.default_value, "");
}

#[test]
fn col_with_default_value_keeps_the_default() {
    let c = col_with_default_value(ColumnType::Text, "'x'".to_string(), "note");
    assert_eq!(c.name, "note");
    assert_eq!(c.column_type, "TEXT");
    assert_eq!(c.default_value, "'x'");
    assert!(!c.not_null && !c.primary_key);
}

#[test]
fn not_null_col_is_not_null_only() {
    let c = not_null_col(ColumnType::Blob, "data");
    assert_eq!(c.column_type, "BLOB");
    assert!(c.not_null && !c.unique && !c.primary_key && !c.autoincrement);
}

#[test]
fn builder_spells_every_type() {
    for (t, name) in [
        (ColumnType::Integer, "INTEGER"),
        (ColumnType::Text, "TEXT"),
        (ColumnType::Real, "REAL"),
        (ColumnType::Blob, "BLOB"),
    ] {
        let c = builder_to_column_def(ColumnDefBuilder("c".to_string(), t, true, false, true, "0".to_string(), false));
        assert_eq!(c.column_type, name);
        assert!(c.primary_key && !c.not_null && c.unique && !c.autoincrement);
        assert_eq!(c.default_value, "0");
    }
}

#[test]
fn col_accessors_take_only_their_kind() {
    let t = Col::Text("hi".to_string());
    assert_eq!(t.as_str(), Ok("hi"));
    assert_eq!(t.as_int(), Err("failed to convert to integer".to_string()));
    let i = Col::Integer(-4);
    assert_eq!(i.as_int(), Ok(&-4));
    assert_eq!(i.as_str(), Err("failed to convert to string".to_string()));
    let r = Col::Real(1.5f64.to_bits());
    assert_eq!(r.as_real().map(|b| f64::from_bits(*b)), Ok(1.5));
    assert_eq!(Col::Null.as_real(), Err("failed to convert to real".to_string()));
    let b = Col::Blob(vec![1, 2]);
    assert_eq!(b.as_blob(), Ok(&[1u8, 2][..]));
    assert_eq!(t.as_blob(), Err("failed to convert to blob".to_string()));
}

#[test]
fn duplicate_copies_every_kind() {
    for c in [Col::Null, Col::Integer(3), Col::Real(7), Col::Text("a".into()), Col::Blob(vec![9])] {
        assert_eq!(c.duplicate(), c);
    }
}

#[test]
fn ok_serialized_is_the_encoded_unit_success() {
    assert_eq!(ok_serialized(), vec![0, 0, 0, 0]);
    let back: Result<(), String> = bincode::deserialize(&ok_serialized()).unwrap();
    assert_eq!(back, Ok(()));
}

#[test]
fn base64_text_of_known_bytes() {
    assert_eq!(Base64Bytes(b"hello".to_vec()).to_base64(), "aGVsbG8=");
    assert_eq!(Base64Bytes(Vec::new()).to_base64(), "");
}

#[test]
fn base64_round_trip() {
    let payload = Base64Bytes(vec![0, 255, 17, 3, 250]);
    let text = payload.to_base64();
    assert_eq!(Base64Bytes::from_base64(&text), Ok(payload));
}

#[test]
fn base64_refuses_bad_text() {
    assert!(Base64Bytes::from_base64("not base64!").is_err());
    assert!(Base64Bytes::from_base64("aGVsbG8").is_err());
}

#[test]
fn db_error_variants_are_distinct() {
    assert_ne!(DbError::IllegalInput("x".into()), DbError::BadCode("x".into()));
}
