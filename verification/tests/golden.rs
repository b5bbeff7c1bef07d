//! Scenarios with the shape of real object files: a known command count,
//! a known build identifier, and a symbol table whose last entry is the
//! dynamic-linker binding stub.

use macho::MachObject;

fn header(ncmds: u32, sizeofcmds: u32) -> Vec<u8> {
    let mut b = Vec::new();
    b.extend_from_slice(&0xfeedfacf_u32.to_le_bytes());
    b.extend_from_slice(&0x01000007_u32.to_le_bytes());
    b.extend_from_slice(&0x80000003_u32.to_le_bytes());
    b.extend_from_slice(&2_u32.to_le_bytes());
    b.extend_from_slice(&ncmds.to_le_bytes());
    b.extend_from_slice(&sizeofcmds.to_le_bytes());
    b.extend_from_slice(&0x00200085_u32.to_le_bytes());
    b.extend_from_slice(&0_u32.to_le_bytes());
    b
}

const UUID_BYTES: [u8; 16] = [
    0x7a, 0xb8, 0x77, 0xde, 0x19, 0xd1, 0x3a, 0x1c, 0x95, 0xbf, 0xff, 0x8a, 0x06, 0x47, 0x37,
    0x3a,
];

/// An object with 14 load commands: one empty segment, a build identifier,
/// a symbol table of 15 entries whose last name is "dyld_stub_binder", and
/// eleven generic records.
fn fixture() -> Vec<u8> {
    let mut names: Vec<String> = (0..14).map(|i| format!("_sym{}", i)).collect();
    names.push("dyld_stub_binder".to_string());

    let mut strtab: Vec<u8> = vec![0];
    let mut offsets = Vec::new();
    for name in &names {
        offsets.push(strtab.len() as i32);
        strtab.extend_from_slice(name.as_bytes());
        strtab.push(0);
    }

    let sizeofcmds: u32 = 72 + 24 + 11 * 16 + 24;
    let symoff: u32 = 32 + sizeofcmds;
    let nsyms: u32 = 15;
    let stroff: u32 = symoff + nsyms * 16;

    let mut b = header(14, sizeofcmds);
    // an empty segment
    b.extend_from_slice(&0x19_u32.to_le_bytes());
    b.extend_from_slice(&72_u32.to_le_bytes());
    let mut segname = [0u8; 16];
    segname[..10].copy_from_slice(b"__LINKEDIT");
    b.extend_from_slice(&segname);
    b.extend_from_slice(&0x100004000_u64.to_le_bytes());
    b.extend_from_slice(&0x4000_u64.to_le_bytes());
    b.extend_from_slice(&0x4000_u64.to_le_bytes());
    b.extend_from_slice(&0x1000_u64.to_le_bytes());
    b.extend_from_slice(&1_i32.to_le_bytes());
    b.extend_from_slice(&1_i32.to_le_bytes());
    b.extend_from_slice(&0_u32.to_le_bytes());
    b.extend_from_slice(&0_u32.to_le_bytes());
    // the build identifier
    b.extend_from_slice(&0x1b_u32.to_le_bytes());
    b.extend_from_slice(&24_u32.to_le_bytes());
    b.extend_from_slice(&UUID_BYTES);
    // eleven generic commands
    for i in 0..11u32 {
        b.extend_from_slice(&(0x20 + i).to_le_bytes());
        b.extend_from_slice(&16_u32.to_le_bytes());
        b.extend_from_slice(&[0; 8]);
    }
    // the symbol table command
    b.extend_from_slice(&0x2_u32.to_le_bytes());
    b.extend_from_slice(&24_u32.to_le_bytes());
    b.extend_from_slice(&symoff.to_le_bytes());
    b.extend_from_slice(&nsyms.to_le_bytes());
    b.extend_from_slice(&stroff.to_le_bytes());
    b.extend_from_slice(&(strtab.len() as u32).to_le_bytes());
    // the symbol array
    for (i, off) in offsets.iter().enumerate() {
        b.extend_from_slice(&off.to_le_bytes());
        b.push(0x0f);
        b.push(1);
        b.extend_from_slice(&0_i16.to_le_bytes());
        b.extend_from_slice(&(0x100000000_u64 + i as u64 * 8).to_le_bytes());
    }
    // the string table
    b.extend_from_slice(&strtab);
    b
}

#[test]
fn golden_command_count() {
    let obj = MachObject::parse(&fixture()).unwrap();
    assert_eq!(obj.header.ncmds, 14);
}

#[test]
fn golden_build_identifier() {
    let obj = MachObject::parse(&fixture()).unwrap();
    let raw = obj.uuid.expect("a build identifier");
    assert_eq!(raw, UUID_BYTES.to_vec());
    let formatted = format!("{}", uuid::Uuid::from_bytes(raw.try_into().unwrap()));
    assert_eq!("7ab877de-19d1-3a1c-95bf-ff8a0647373a", formatted);
}

#[test]
fn golden_symbol_table() {
    let obj = MachObject::parse(&fixture()).unwrap();
    assert_eq!(1, obj.symtab.len());
    assert_eq!(15, obj.symtab.get(0).unwrap().entries.len());
    assert_eq!(
        "dyld_stub_binder",
        obj.symtab.get(0).unwrap().entries.get(14).unwrap().symbol
    );
    assert_eq!("_sym0", obj.symtab.get(0).unwrap().entries.get(0).unwrap().symbol);
}

#[test]
fn golden_segment_and_records() {
    let obj = MachObject::parse(&fixture()).unwrap();
    assert_eq!(obj.segments.len(), 1);
    assert_eq!(obj.segments[0].segname, "__LINKEDIT");
    assert_eq!(obj.segments[0].sections.len(), 0);
    // eleven generic records plus the symbol-table record
    assert_eq!(obj.commands.len(), 12);
}
