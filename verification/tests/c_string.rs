use xla_types::c_str_to_string;
use xla_types::c_string::c_str_len;

#[test]
fn text_of_a_terminated_buffer() {
    assert_eq!(c_str_to_string(b"abc\0"), "abc");
}

#[test]
fn text_ends_at_the_first_zero_byte() {
    assert_eq!(c_str_to_string(b"abc\0def\0"), "abc");
    assert_eq!(c_str_len(b"abc\0def\0"), 3);
}

#[test]
fn empty_text() {
    assert_eq!(c_str_to_string(b"\0"), "");
    assert_eq!(c_str_to_string(b"\0abc"), "");
    assert_eq!(c_str_to_string(b""), "");
    assert_eq!(c_str_len(b"\0"), 0);
    assert_eq!(c_str_len(b""), 0);
}

#[test]
fn a_buffer_without_zero_byte_is_taken_whole() {
    assert_eq!(c_str_to_string(b"abc"), "abc");
    assert_eq!(c_str_len(b"abc"), 3);
}

#[test]
fn valid_utf8_is_decoded_as_it_stands() {
    let buf = "gr\u{fc}\u{df}e \u{2713} \u{1f600}\0".as_bytes();
    assert_eq!(c_str_to_string(buf), "gr\u{fc}\u{df}e \u{2713} \u{1f600}");
}

#[test]
fn invalid_utf8_is_replaced_not_refused() {
    assert_eq!(c_str_to_string(b"a\xffb\0"), "a\u{fffd}b");
    assert_eq!(c_str_to_string(b"\xc3\0"), "\u{fffd}");
    assert_eq!(c_str_to_string(b"ok \xf0\x9f\x98 end\0"), "ok \u{fffd} end");
}

#[test]
fn the_text_outlives_the_buffer() {
    let text = {
        let buf = vec![b'd', b'u', b'm', b'p', 0];
        c_str_to_string(&buf)
    };
    assert_eq!(text, "dump");
}

#[test]
fn length_is_the_place_of_the_first_zero_byte() {
    assert_eq!(c_str_len(&[1, 2, 0, 3, 0]), 2);
    assert_eq!(c_str_len(&[0, 0]), 0);
    assert_eq!(c_str_len(&[255, 254, 253]), 3);
}
