use sconcat::cat::checked_total;
use sconcat::text::utf8_width;
use sconcat::tree::reuse_side;
use sconcat::{CapacityOverflow, Cat, CatDebug, Side, CAT, MAX_LEN};

#[test]
fn round_trip_mixed_terms() {
    let cat = CAT + "ab" + 'é' + String::from("cd") + "" + '😀' + String::new();
    assert_eq!(cat.size_hint(), 2 + 2 + 2 + 0 + 4 + 0);
    assert_eq!(cat.try_into_string().unwrap(), "abécd😀");
}

#[test]
fn round_trip_single_terms() {
    assert_eq!((CAT + 'x').try_into_string().unwrap(), "x");
    assert_eq!((CAT + "xyz").try_into_string().unwrap(), "xyz");
    assert_eq!((CAT + String::from("owned")).try_into_string().unwrap(), "owned");
    assert_eq!(CAT.try_into_string().unwrap(), "");
}

#[test]
fn identity_on_either_side() {
    let plain = (CAT + "ab" + 'c').try_into_string().unwrap();
    assert_eq!((CAT + "ab" + 'c' + CAT).try_into_string().unwrap(), plain);
    assert_eq!((CAT + (CAT + "ab" + 'c')).try_into_string().unwrap(), plain);
    assert_eq!((CAT + "ab" + CAT).try_into_string().unwrap(), "ab");
    assert_eq!((CAT + (CAT + "ab")).try_into_string().unwrap(), "ab");
    assert_eq!((CAT + CAT).try_into_string().unwrap(), "");
}

#[test]
fn no_allocation_when_leftmost_buffer_has_room() {
    let mut buf = String::from("ab");
    buf.reserve(64);
    let ptr = buf.as_ptr();
    let cat = CAT + buf + "cd" + 'é' + String::from("fg") + "hi";
    let s = cat.try_into_string().unwrap();
    assert_eq!(s, "abcdéfghi");
    assert_eq!(s.as_ptr(), ptr);
}

#[test]
fn in_place_append_keeps_address() {
    let mut dst = String::from("X");
    dst.reserve(16);
    let ptr = dst.as_ptr();
    let cat = CAT + "ab" + 'c' + String::from("de");
    cat.try_append_to(&mut dst).unwrap();
    assert_eq!(dst, "Xabcde");
    assert_eq!(dst.as_ptr(), ptr);
}

#[test]
fn overlap_shift_right_buffer_reused() {
    let mut big = String::from("0123456789abcdefghij");
    big.reserve(32);
    let ptr = big.as_ptr();
    let cat = CAT + 'a' + big;
    let s = cat.try_into_string().unwrap();
    assert_eq!(s, "a0123456789abcdefghij");
    assert_eq!(s.as_ptr(), ptr);
}

#[test]
fn overlap_shift_with_nested_left() {
    let mut big = String::from("tail-of-the-buffer");
    big.reserve(32);
    let ptr = big.as_ptr();
    let cat = CAT + "xy" + 'é' + '☺' + big;
    let s = cat.try_into_string().unwrap();
    assert_eq!(s, "xyé☺tail-of-the-buffer");
    assert_eq!(s.as_ptr(), ptr);
}

#[test]
fn neither_side_has_room_grows_left() {
    let left = String::from("ab");
    let right = String::from("cd");
    let cat = CAT + left + right;
    assert_eq!(cat.try_into_string().unwrap(), "abcd");
    let cat = CAT + "ab" + String::from("cd");
    assert_eq!(cat.try_into_string().unwrap(), "abcd");
}

#[test]
fn end_to_end_scenario() {
    let cat = CAT + "ab" + 'c' + String::from("de");
    assert_eq!(cat.clone().try_into_string().unwrap(), "abcde");
    let mut dst = String::from("X");
    dst.reserve(cat.size_hint());
    let ptr = dst.as_ptr();
    cat.try_append_to(&mut dst).unwrap();
    assert_eq!(dst, "Xabcde");
    assert_eq!(dst.as_ptr(), ptr);
}

#[test]
fn append_of_empty_start_leaves_destination() {
    let mut dst = String::from("keep");
    CAT.try_append_to(&mut dst).unwrap();
    assert_eq!(dst, "keep");
    (CAT + "").try_append_to(&mut dst).unwrap();
    assert_eq!(dst, "keep");
}

#[test]
fn checked_total_rejects_overflow() {
    assert_eq!(checked_total(MAX_LEN, 1), Err(CapacityOverflow));
    assert_eq!(checked_total(usize::MAX, usize::MAX), Err(CapacityOverflow));
    assert_eq!(checked_total(MAX_LEN - 1, 1), Ok(MAX_LEN));
    assert_eq!(checked_total(3, 4), Ok(7));
    assert_eq!(checked_total(0, 0), Ok(0));
}

#[test]
fn checked_len_of_terms() {
    assert_eq!('☺'.checked_len(), Ok(3));
    assert_eq!("hello".checked_len(), Ok(5));
    assert_eq!(String::from("hé").checked_len(), Ok(3));
    let cat = CAT + "ab" + 'é' + String::from("c");
    assert_eq!(cat.checked_len(), Ok(5));
}

#[test]
fn reuse_rule_each_branch() {
    assert_eq!(reuse_side(10, 0, 10), Side::Left);
    assert_eq!(reuse_side(10, 50, 10), Side::Left);
    assert_eq!(reuse_side(0, 0, 10), Side::Left);
    assert_eq!(reuse_side(5, 9, 10), Side::Left);
    assert_eq!(reuse_side(5, 10, 10), Side::Right);
    assert_eq!(reuse_side(0, 100, 10), Side::Right);
}

#[test]
fn widths_of_characters() {
    assert_eq!(utf8_width('a'), 1);
    assert_eq!(utf8_width('é'), 2);
    assert_eq!(utf8_width('☺'), 3);
    assert_eq!(utf8_width('😀'), 4);
    assert_eq!('\u{7f}'.size_hint(), 1);
    assert_eq!('\u{80}'.size_hint(), 2);
    assert_eq!('\u{ffff}'.size_hint(), 3);
    assert_eq!('\u{10000}'.size_hint(), 4);
}

#[test]
fn term_operations() {
    let mut s = String::from("cd");
    "ab".prepend_to(&mut s);
    assert_eq!(s, "abcd");
    'é'.prepend_to(&mut s);
    assert_eq!(s, "éabcd");
    String::from("__").prepend_to(&mut s);
    assert_eq!(s, "__éabcd");
    'z'.append_to(&mut s);
    "yx".append_to(&mut s);
    String::from("!").append_to(&mut s);
    assert_eq!(s, "__éabcdzyx!");
    let node = CAT + "12" + '3';
    node.prepend_to(&mut s);
    assert_eq!(s, "123__éabcdzyx!");
    assert_eq!('q'.into_string(8), "q");
    assert_eq!("qr".into_string(0), "qr");
    assert_eq!(String::from("qrs").into_string(10), "qrs");
}

#[test]
fn owned_capacity_of_terms() {
    assert_eq!('a'.owned_capacity(), 0);
    assert_eq!("abc".owned_capacity(), 0);
    assert!(String::with_capacity(40).owned_capacity() >= 40);
    let cat = CAT + "ab" + String::with_capacity(30) + String::with_capacity(50);
    assert!(cat.owned_capacity() >= 50);
}

#[test]
fn reserve_grows_owned_term() {
    let s = String::from("ab").into_string(100);
    assert_eq!(s, "ab");
    assert!(s.capacity() >= 100);
}

#[test]
fn debug_forms_escape_leaves() {
    let cat = CAT + "a\"b" + '\n' + String::from("tab\t");
    assert_eq!(cat.debug_string().unwrap(), "\"a\\\"b\" + '\\n' + \"tab\\t\"");
    let mut out = String::from(">");
    "Hello".write_debug(&mut out).unwrap();
    '\''.write_debug(&mut out).unwrap();
    assert_eq!(out, ">\"Hello\"'\\''");
    assert_eq!((CAT + 'x').debug_string().unwrap(), "'x'");
}

#[test]
fn one_and_start_sizes() {
    assert_eq!((CAT + "héllo").size_hint(), 6);
    assert_eq!(CAT.size_hint(), 0);
}
