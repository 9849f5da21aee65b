use io_truncate::Cursor;
use io_truncate::ErrorKind;
use io_truncate::Truncate;
use io_truncate::TruncateError;
use io_truncate::decimal_string;

#[test]
fn vec() {
    let mut v: Vec<u8> = vec![0, 1, 2, 3];

    // Need to call like this in order to not conflict with the inherent method.
    Truncate::truncate(&mut v, 3).unwrap();
    assert_eq!(v, &[0, 1, 2]);

    // Error
    let e = Truncate::truncate(&mut v, 4).unwrap_err();
    assert_eq!(e.kind(), ErrorKind::InvalidInput);
}

#[test]
fn slice() {
    let mut v: &[u8] = &[0, 1, 2, 3];

    v.truncate(3).unwrap();
    assert_eq!(v, &[0, 1, 2]);

    // Error
    let e = v.truncate(4).unwrap_err();
    assert_eq!(e.kind(), ErrorKind::InvalidInput);
}

#[test]
fn cursor() {
    let mut v: Cursor<&[u8]> = Cursor::new(&[0, 1, 2, 3]);

    v.set_position(4); // end of data
    v.truncate(3).unwrap();
    assert_eq!(v.get_ref(), &[0, 1, 2]);
    assert_eq!(v.position(), 3);

    // Error
    let e = v.truncate(4).unwrap_err();
    assert_eq!(e.kind(), ErrorKind::InvalidInput);
}

#[test]
fn rejection_message_names_both_lengths() {
    let mut v: Vec<u8> = vec![0, 1, 2];
    let e = Truncate::truncate(&mut v, 4).unwrap_err();
    assert_eq!(e.message(), "tried to truncate to greater length (4 > 3)");
    assert_eq!(v, &[0, 1, 2]);
}

#[test]
fn truncate_to_current_length_is_noop() {
    let mut v: Vec<u8> = vec![9, 8, 7];
    Truncate::truncate(&mut v, 3).unwrap();
    assert_eq!(v, &[9, 8, 7]);

    let mut s: &[u8] = &[9, 8, 7];
    s.truncate(3).unwrap();
    assert_eq!(s, &[9, 8, 7]);
}

#[test]
fn truncate_to_zero() {
    let mut v: Vec<u8> = vec![1, 2];
    Truncate::truncate(&mut v, 0).unwrap();
    assert_eq!(v, &[]);

    let mut empty: Vec<u8> = Vec::new();
    Truncate::truncate(&mut empty, 0).unwrap();
    assert_eq!(empty, &[]);
    let e = Truncate::truncate(&mut empty, 1).unwrap_err();
    assert_eq!(e.kind(), ErrorKind::InvalidInput);
    assert_eq!(e.message(), "tried to truncate to greater length (1 > 0)");
}

#[test]
fn view_narrowing_leaves_storage_untouched() {
    let data: [u8; 4] = [0, 1, 2, 3];
    let mut s: &[u8] = &data;
    s.truncate(3).unwrap();
    assert_eq!(s, &[0, 1, 2]);
    assert_eq!(data, [0, 1, 2, 3]);
}

#[test]
fn cursor_within_bounds_is_left_alone() {
    let mut c = Cursor::new(vec![0u8, 1, 2, 3]);
    c.set_position(1);
    c.truncate(2).unwrap();
    assert_eq!(c.position(), 1);
    assert_eq!(c.into_inner(), &[0, 1]);
}

#[test]
fn cursor_untouched_on_failure() {
    let mut c = Cursor::new(vec![0u8, 1, 2, 3]);
    c.set_position(9);
    let e = c.truncate(5).unwrap_err();
    assert_eq!(e.kind(), ErrorKind::InvalidInput);
    assert_eq!(c.position(), 9);
    assert_eq!(c.get_ref(), &[0, 1, 2, 3]);
}

#[test]
fn mut_ref_wrapper_matches_direct_call() {
    let mut direct: Vec<u8> = vec![0, 1, 2, 3];
    let mut referenced: Vec<u8> = vec![0, 1, 2, 3];

    let r_direct = Truncate::truncate(&mut direct, 2);
    let mut wrapper: &mut Vec<u8> = &mut referenced;
    let r_wrapped = Truncate::truncate(&mut wrapper, 2);
    assert!(r_direct.is_ok());
    assert!(r_wrapped.is_ok());
    assert_eq!(direct, referenced);

    let e_direct = Truncate::truncate(&mut direct, 5).unwrap_err();
    let mut wrapper: &mut Vec<u8> = &mut referenced;
    let e_wrapped = Truncate::truncate(&mut wrapper, 5).unwrap_err();
    assert_eq!(e_direct.kind(), e_wrapped.kind());
    assert_eq!(e_direct.message(), e_wrapped.message());
    assert_eq!(direct, referenced);
}

#[test]
fn io_error_passes_message_through() {
    let e = TruncateError::io(String::from("permission denied"));
    assert_eq!(e.kind(), ErrorKind::Io);
    assert_eq!(e.message(), "permission denied");
}

#[test]
fn decimal_rendering() {
    assert_eq!(decimal_string(0), "0");
    assert_eq!(decimal_string(7), "7");
    assert_eq!(decimal_string(10), "10");
    assert_eq!(decimal_string(105), "105");
    assert_eq!(decimal_string(18446744073709551615), "18446744073709551615");
}
