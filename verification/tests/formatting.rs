use lcard_dac_signal_generator::cstring::{c_str_length, c_string_from_bytes};
use lcard_dac_signal_generator::text::{to_decimal, to_hex_lower};
use lcard_dac_signal_generator::ui::section;

#[test]
fn decimal_of_zero_and_larger_values() {
    assert_eq!(to_decimal(0), "0");
    assert_eq!(to_decimal(7), "7");
    assert_eq!(to_decimal(12345), "12345");
    assert_eq!(to_decimal(u64::MAX), "18446744073709551615");
}

#[test]
fn hex_is_lower_case_without_prefix() {
    assert_eq!(to_hex_lower(0), "0");
    assert_eq!(to_hex_lower(0x30002), "30002");
    assert_eq!(to_hex_lower(0xdead_beef), "deadbeef");
}

#[test]
fn c_string_stops_at_first_nul() {
    assert_eq!(c_str_length(b"E140\0xyz"), 4);
    assert_eq!(c_string_from_bytes(b"E140\0xyz"), "E140");
    assert_eq!(c_string_from_bytes(b"\0abc"), "");
}

#[test]
fn c_string_without_nul_takes_whole_buffer() {
    assert_eq!(c_str_length(b"abc"), 3);
    assert_eq!(c_string_from_bytes(b"abc"), "abc");
    assert_eq!(c_string_from_bytes(b""), "");
}

#[test]
fn c_string_replaces_invalid_utf8() {
    assert_eq!(c_string_from_bytes(&[0xff, b'a', 0, b'b']), "\u{FFFD}a");
    assert_eq!(c_string_from_bytes("Привет".as_bytes()), "Привет");
}

#[test]
fn section_puts_label_on_its_own_line() {
    assert_eq!(section(" Channel 0 "), "\n Channel 0 \n");
    assert_eq!(section(""), "\n\n");
}

#[test]
fn c_string_never_holds_nul() {
    for bytes in [&b"a\0b"[..], &[0xff, 0xfe, b'x', 0, 0][..], &b"\0"[..], &[0xc3, 0x28][..]] {
        assert!(!c_string_from_bytes(bytes).contains('\0'));
    }
}
