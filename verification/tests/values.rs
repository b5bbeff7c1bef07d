use macho::constants::{LcType, SymTabRef, SymTabRefMask, SymTabType, SymTabTypeMask};

#[test]
fn load_command_tag_values() {
    assert_eq!(LcType::LC_SEGMENT.value(), 0x1);
    assert_eq!(LcType::LC_SYMTAB.value(), 0x2);
    assert_eq!(LcType::LC_SEGMENT_64.value(), 0x19);
    assert_eq!(LcType::LC_UUID.value(), 0x1b);
    assert_eq!(LcType::LC_REQ_DYLD.value(), 0x80000000);
    assert_eq!(LcType::LC_LOAD_WEAK_DYLIB.value(), 0x18 | 0x80000000);
    assert_eq!(LcType::LC_RPATH.value(), 0x1c | 0x80000000);
    assert_eq!(LcType::LC_DYLD_INFO_ONLY.value(), 0x22 | 0x80000000);
    assert_eq!(LcType::LC_MAIN.value(), 0x28 | 0x80000000);
    assert_eq!(LcType::LC_VERSION_MIN_WATCHOS.value(), 0x30);
}

#[test]
fn magic_constants() {
    assert_eq!(macho::constants::MH_MAGIC_64, 0xfeedfacf);
    assert_eq!(macho::constants::MH_CIGAM_64, 0xcffaedfe);
}

#[test]
fn symbol_type_mask_values() {
    assert_eq!(SymTabTypeMask::N_STAB.value(), 0xe0);
    assert_eq!(SymTabTypeMask::N_PEXT.value(), 0x10);
    assert_eq!(SymTabTypeMask::N_TYPE.value(), 0x0e);
    assert_eq!(SymTabTypeMask::N_EXT.value(), 0x01);
}

#[test]
fn symbol_type_values() {
    assert_eq!(SymTabType::N_UNDF.value(), 0x0);
    assert_eq!(SymTabType::N_ABS.value(), 0x2);
    assert_eq!(SymTabType::N_SECT.value(), 0xe);
    assert_eq!(SymTabType::N_PBUD.value(), 0xc);
    assert_eq!(SymTabType::N_INDR.value(), 0xa);
}

#[test]
fn symbol_reference_values() {
    assert_eq!(SymTabRefMask::REFERENCE_TYPE.value(), 0xf);
    assert_eq!(SymTabRefMask::REFERENCED_DYNAMICALLY.value(), 0x10);
    assert_eq!(SymTabRefMask::N_DESC_DISCARDED.value(), 0x20);
    assert_eq!(SymTabRefMask::N_WEAK_REF.value(), 0x40);
    assert_eq!(SymTabRefMask::N_WEAK_DEF.value(), 0x80);
    assert_eq!(SymTabRef::REFERENCE_FLAG_UNDEFINED_NON_LAZY.value(), 0x0);
    assert_eq!(SymTabRef::REFERENCE_FLAG_UNDEFINED_LAZY.value(), 0x1);
    assert_eq!(SymTabRef::REFERENCE_FLAG_DEFINED.value(), 0x2);
    assert_eq!(SymTabRef::REFERENCE_FLAG_PRIVATE_DEFINED.value(), 0x3);
    assert_eq!(SymTabRef::REFERENCE_FLAG_PRIVATE_UNDEFINED_NON_LAZY.value(), 0x4);
    assert_eq!(SymTabRef::REFERENCE_FLAG_PRIVATE_UNDEFINED_LAZY.value(), 0x5);
}
