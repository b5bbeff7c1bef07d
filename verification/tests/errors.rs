use macho::{FormatError, MachObject};

fn header(ncmds: u32) -> Vec<u8> {
    let mut b = Vec::new();
    b.extend_from_slice(&0xfeedfacf_u32.to_le_bytes());
    b.extend_from_slice(&7_u32.to_le_bytes());
    b.extend_from_slice(&3_u32.to_le_bytes());
    b.extend_from_slice(&2_u32.to_le_bytes());
    b.extend_from_slice(&ncmds.to_le_bytes());
    b.extend_from_slice(&0_u32.to_le_bytes());
    b.extend_from_slice(&0_u32.to_le_bytes());
    b.extend_from_slice(&0_u32.to_le_bytes());
    b
}

fn err_of(bytes: &[u8]) -> FormatError {
    MachObject::parse(bytes).unwrap_err()
}

fn symtab_object(entries: &[(i32, u64)], strtab: &[u8]) -> Vec<u8> {
    let symoff: u32 = 32 + 24;
    let nsyms = entries.len() as u32;
    let stroff: u32 = symoff + nsyms * 16;
    let mut b = header(1);
    b.extend_from_slice(&0x2_u32.to_le_bytes());
    b.extend_from_slice(&24_u32.to_le_bytes());
    b.extend_from_slice(&symoff.to_le_bytes());
    b.extend_from_slice(&nsyms.to_le_bytes());
    b.extend_from_slice(&stroff.to_le_bytes());
    b.extend_from_slice(&(strtab.len() as u32).to_le_bytes());
    for &(n_strx, n_value) in entries {
        b.extend_from_slice(&n_strx.to_le_bytes());
        b.push(0);
        b.push(0);
        b.extend_from_slice(&0_i16.to_le_bytes());
        b.extend_from_slice(&n_value.to_le_bytes());
    }
    b.extend_from_slice(strtab);
    b
}

#[test]
fn empty_buffer_is_truncated() {
    assert_eq!(err_of(&[]), FormatError::Truncated);
}

#[test]
fn short_header_with_good_magic_is_truncated() {
    let b = header(0);
    assert_eq!(err_of(&b[..31]), FormatError::Truncated);
    assert_eq!(err_of(&b[..4]), FormatError::Truncated);
    assert_eq!(err_of(&b[..20]), FormatError::Truncated);
}

#[test]
fn wrong_magic_is_bad_magic_whatever_follows() {
    let mut b = header(0);
    b[0] = 0xce;
    assert_eq!(err_of(&b), FormatError::BadMagic);
    // the big-endian byte order of the same constant is rejected too
    let mut b2 = header(3);
    b2[..4].copy_from_slice(&0xcffaedfe_u32.to_le_bytes());
    b2.extend_from_slice(&[0xff; 200]);
    assert_eq!(err_of(&b2), FormatError::BadMagic);
    // the magic check comes before the header-width check
    assert_eq!(err_of(&[0, 0, 0, 0]), FormatError::BadMagic);
    assert_eq!(err_of(&[0xcf, 0xfa, 0xed, 0xff, 7]), FormatError::BadMagic);
}

#[test]
fn missing_command_prefix_is_truncated() {
    let b = header(1);
    assert_eq!(err_of(&b), FormatError::Truncated);
    let mut b7 = header(1);
    b7.extend_from_slice(&[0x19, 0, 0, 0, 8, 0, 0]); // only 7 bytes remain
    assert_eq!(err_of(&b7), FormatError::Truncated);
}

#[test]
fn declared_size_below_prefix_is_truncated() {
    for cmdsize in [0u32, 1, 7] {
        let mut b = header(1);
        b.extend_from_slice(&0x2a_u32.to_le_bytes());
        b.extend_from_slice(&cmdsize.to_le_bytes());
        assert_eq!(err_of(&b), FormatError::Truncated);
    }
}

#[test]
fn declared_size_past_buffer_end_is_truncated() {
    let mut b = header(1);
    b.extend_from_slice(&0x2a_u32.to_le_bytes());
    b.extend_from_slice(&100_u32.to_le_bytes());
    b.extend_from_slice(&[0; 50]);
    assert_eq!(err_of(&b), FormatError::Truncated);
}

#[test]
fn second_command_is_checked_too() {
    let mut b = header(2);
    b.extend_from_slice(&0x2a_u32.to_le_bytes());
    b.extend_from_slice(&8_u32.to_le_bytes());
    assert_eq!(err_of(&b), FormatError::Truncated);
}

#[test]
fn segment_smaller_than_its_fixed_fields_is_truncated() {
    let mut b = header(1);
    b.extend_from_slice(&0x19_u32.to_le_bytes());
    b.extend_from_slice(&48_u32.to_le_bytes());
    b.extend_from_slice(&[0; 40]);
    assert_eq!(err_of(&b), FormatError::Truncated);
}

#[test]
fn declared_two_sections_with_bytes_for_one_is_a_count_mismatch() {
    // section-array length of exactly one section record, count says two
    let mut b = header(1);
    b.extend_from_slice(&0x19_u32.to_le_bytes());
    b.extend_from_slice(&(72 + 80_u32).to_le_bytes());
    b.extend_from_slice(&[0; 56]); // name, addresses, sizes, protections
    b.extend_from_slice(&2_u32.to_le_bytes()); // nsects
    b.extend_from_slice(&0_u32.to_le_bytes()); // flags
    b.extend_from_slice(&[0; 80]); // one section's worth of bytes
    assert_eq!(err_of(&b), FormatError::SectionCountMismatch);
}

#[test]
fn leftover_section_bytes_are_trailing_bytes() {
    // one whole section record plus twenty leftover bytes, count says one
    let mut b = header(1);
    b.extend_from_slice(&0x19_u32.to_le_bytes());
    b.extend_from_slice(&(72 + 100_u32).to_le_bytes());
    b.extend_from_slice(&[0; 56]);
    b.extend_from_slice(&1_u32.to_le_bytes());
    b.extend_from_slice(&0_u32.to_le_bytes());
    b.extend_from_slice(&[0; 100]);
    assert_eq!(err_of(&b), FormatError::TrailingBytes);
}

#[test]
fn symbol_array_out_of_bounds_is_truncated() {
    let mut b = header(1);
    b.extend_from_slice(&0x2_u32.to_le_bytes());
    b.extend_from_slice(&24_u32.to_le_bytes());
    b.extend_from_slice(&56_u32.to_le_bytes()); // symoff: past the end
    b.extend_from_slice(&4_u32.to_le_bytes()); // nsyms
    b.extend_from_slice(&56_u32.to_le_bytes());
    b.extend_from_slice(&0_u32.to_le_bytes());
    assert_eq!(err_of(&b), FormatError::Truncated);
}

#[test]
fn string_table_out_of_bounds_is_truncated() {
    let mut b = header(1);
    b.extend_from_slice(&0x2_u32.to_le_bytes());
    b.extend_from_slice(&24_u32.to_le_bytes());
    b.extend_from_slice(&56_u32.to_le_bytes()); // symoff
    b.extend_from_slice(&0_u32.to_le_bytes()); // nsyms: no symbols
    b.extend_from_slice(&56_u32.to_le_bytes()); // stroff
    b.extend_from_slice(&100_u32.to_le_bytes()); // strsize: past the end
    assert_eq!(err_of(&b), FormatError::Truncated);
}

#[test]
fn string_index_at_table_size_is_a_bad_offset() {
    let strtab = b"\0abc\0";
    let b = symtab_object(&[(strtab.len() as i32, 0)], strtab);
    assert_eq!(err_of(&b), FormatError::BadStringOffset);
}

#[test]
fn string_index_past_table_size_is_a_bad_offset() {
    let strtab = b"\0abc\0";
    let b = symtab_object(&[(1000, 0)], strtab);
    assert_eq!(err_of(&b), FormatError::BadStringOffset);
}

#[test]
fn negative_string_index_is_a_bad_offset() {
    let strtab = b"\0abc\0";
    let b = symtab_object(&[(-1, 0)], strtab);
    assert_eq!(err_of(&b), FormatError::BadStringOffset);
}

#[test]
fn missing_null_terminator_is_an_unterminated_string() {
    let strtab = b"\0abcdef"; // no null byte after index 1
    let b = symtab_object(&[(1, 0)], strtab);
    assert_eq!(err_of(&b), FormatError::UnterminatedString);
}

#[test]
fn first_bad_entry_decides_the_error() {
    // entry 0 resolves; entry 1 is out of range; entry 2 is unterminated
    let strtab = b"\0ok\0xyz";
    let b = symtab_object(&[(1, 0), (700, 0), (4, 0)], strtab);
    assert_eq!(err_of(&b), FormatError::BadStringOffset);
}

#[test]
fn empty_string_table_rejects_any_index() {
    let b = symtab_object(&[(0, 0)], b"");
    assert_eq!(err_of(&b), FormatError::BadStringOffset);
}
