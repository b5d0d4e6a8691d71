use db_wrapper::explained::android_mascot::AndroidMascot;
use db_wrapper::explained::db_operations::{get_other_thing, get_thing};
use db_wrapper::explained::payload::{CombinedOut, DummyError, GetCombinedIn, GetThingIn, GetThingOut};
use db_wrapper::explained::plain_mascot::PlainMascot;
use db_wrapper::explained::serializer_mascot::SerializerMascot;

#[test]
fn plain_get_thing() {
    let m = PlainMascot { conn: "alpha".into() };
    let out = m.get_thing(GetThingIn { id: 7 }).unwrap();
    assert_eq!(out.value, "alpha says thing #7");
}

#[test]
fn plain_get_combined() {
    let m = PlainMascot { conn: "alpha".into() };
    let out = m.get_combined(GetCombinedIn { id: 3 }).unwrap();
    assert_eq!(out.value, "alpha says thing #3");
    assert_eq!(out.other, 5);
}

#[test]
fn serializer_get_thing() {
    let m = SerializerMascot { conn: "beta".into() };
    // bincode of GetThingIn { id: 9 } is the id as a little-endian u32.
    let bytes = bincode::serialize(&9u32).unwrap();
    let out_bytes = m.get_thing(bytes);
    // bincode of GetThingOut { value } is the value as a bincode string.
    let out: String = bincode::deserialize(&out_bytes).unwrap();
    assert_eq!(out, "beta says thing #9");
}

#[test]
fn serializer_get_combined() {
    let m = SerializerMascot { conn: "beta".into() };
    let bytes = bincode::serialize(&4u32).unwrap();
    let out_bytes = m.get_combined(bytes);
    let (value, other): (String, u32) = bincode::deserialize(&out_bytes).unwrap();
    assert_eq!(value, "beta says thing #4");
    assert_eq!(other, 4);
}

#[test]
fn db_operations_render_ids_in_decimal() {
    assert_eq!(get_thing("c", 0).unwrap(), "c says thing #0");
    assert_eq!(get_thing("c", 10).unwrap(), "c says thing #10");
    assert_eq!(get_thing("", u32::MAX).unwrap(), " says thing #4294967295");
}

#[test]
fn other_thing_counts_utf8_bytes() {
    assert_eq!(get_other_thing("alpha").unwrap(), 5);
    assert_eq!(get_other_thing("").unwrap(), 0);
    assert_eq!(get_other_thing("é").unwrap(), 2);
}

#[test]
fn android_mascot_reads_through_the_lock() {
    let m = AndroidMascot::new("gamma".to_string());
    let out = m.get_thing(GetThingIn { id: 12 }).unwrap();
    assert_eq!(out, GetThingOut { value: "gamma says thing #12".to_string() });
    let out = m.get_combined(GetCombinedIn { id: 1 }).unwrap();
    assert_eq!(out, CombinedOut { value: "gamma says thing #1".to_string(), other: 5 });
}

#[test]
fn serializer_encodes_the_answer_exactly() {
    let m = SerializerMascot { conn: "ab".into() };
    let out = m.get_thing(vec![2, 0, 0, 0, 99]);
    let text = b"ab says thing #2";
    let mut expected = (text.len() as u64).to_le_bytes().to_vec();
    expected.extend_from_slice(text);
    assert_eq!(out, expected);
    let out = m.get_combined(vec![1, 1, 0, 0]);
    let text = b"ab says thing #257";
    let mut expected = (text.len() as u64).to_le_bytes().to_vec();
    expected.extend_from_slice(text);
    expected.extend_from_slice(&2u32.to_le_bytes());
    assert_eq!(out, expected);
}

#[test]
fn serializer_short_input_gives_an_encoded_error() {
    let m = SerializerMascot { conn: "ab".into() };
    let out = m.get_thing(vec![1, 2]);
    assert_eq!(&out[0..4], &[0, 0, 0, 0]);
    let message: String = bincode::deserialize(&out[4..]).unwrap();
    assert!(!message.is_empty());
    let err = DummyError::Msg(message);
    assert!(matches!(err, DummyError::Msg(_)));
    let out = m.get_combined(vec![]);
    assert_eq!(&out[0..4], &[0, 0, 0, 0]);
}
