use setns_shell::text::{is_space_byte, trim, until_nul};

#[test]
fn c_string_ends_at_the_first_zero_byte() {
    assert_eq!(until_nul(b"577\0"), b"577");
    assert_eq!(until_nul(b"box\0\0\0\0"), b"box");
    assert_eq!(until_nul(b"one\0two\0"), b"one");
    assert_eq!(until_nul(b"\0hidden"), b"");
}

#[test]
fn c_string_without_a_zero_byte_is_the_whole_buffer() {
    assert_eq!(until_nul(b"unterminated"), b"unterminated");
    assert_eq!(until_nul(b""), b"");
}

#[test]
fn c_string_of_a_host_name_buffer() {
    let mut buffer = vec![0u8; 256];
    buffer[..9].copy_from_slice(b"container");
    assert_eq!(until_nul(&buffer), b"container");
    let full = vec![b'h'; 256];
    assert_eq!(until_nul(&full), full);
}

#[test]
fn trim_removes_white_space_on_both_sides() {
    assert_eq!(trim(b"  /usr/bin:/bin\n"), b"/usr/bin:/bin");
    assert_eq!(trim(b"\t\r\n /bin \x0c"), b"/bin");
    assert_eq!(trim(b"/bin"), b"/bin");
}

#[test]
fn trim_keeps_white_space_inside() {
    assert_eq!(trim(b" /opt/my tools/bin:/bin "), b"/opt/my tools/bin:/bin");
    assert_eq!(trim(b"a\nb"), b"a\nb");
}

#[test]
fn trim_of_nothing_but_white_space_is_empty() {
    assert_eq!(trim(b""), b"");
    assert_eq!(trim(b" "), b"");
    assert_eq!(trim(b" \n\t\r\x0c "), b"");
}

#[test]
fn trim_leaves_other_control_bytes() {
    assert_eq!(trim(b"\x0b/bin\x0b"), b"\x0b/bin\x0b");
    assert_eq!(trim(b"\0/bin\0"), b"\0/bin\0");
    assert_eq!(trim(b"\xa0/bin"), b"\xa0/bin");
}

#[test]
fn white_space_is_five_bytes() {
    for b in 0..=255u8 {
        assert_eq!(is_space_byte(b), matches!(b, b' ' | b'\t' | b'\n' | b'\r' | 0x0c));
        assert_eq!(is_space_byte(b), b.is_ascii_whitespace());
    }
}
