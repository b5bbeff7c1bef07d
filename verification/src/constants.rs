//! Wire-format constants: the magic number, record widths, load-command
//! tags, and the symbol-table flag vocabularies.

use vstd::prelude::*;

verus! {

/// Magic constant of a little-endian 64-bit object file.
pub const MH_MAGIC_64: u32 = 0xfeedfacf;

/// The same magic seen byte-swapped (a big-endian file; not decoded here).
pub const MH_CIGAM_64: u32 = 0xcffaedfe;

/// Bit set on tags that the dynamic linker must understand.
pub const LC_REQ_DYLD: u32 = 0x8000_0000;

/// Width of the fixed file header.
pub const HEADER_WIDTH: usize = 32;

/// Width of the tag-and-size prefix every load command starts with.
pub const COMMAND_PREFIX_WIDTH: usize = 8;

/// Fixed width of a 64-bit segment command, before its section array.
pub const SEGMENT_FIXED_WIDTH: usize = 72;

/// Width of one section record.
pub const SECTION_WIDTH: usize = 80;

/// Width of a symbol-table command's fixed fields.
pub const SYMTAB_FIXED_WIDTH: usize = 24;

/// Width of one symbol entry.
pub const SYMBOL_ENTRY_WIDTH: usize = 16;

/// Total width of a build-identifier command: the prefix and its
/// 16-byte payload.
pub const UUID_COMMAND_WIDTH: usize = 24;

/// Tag of a 64-bit segment command.
pub const LC_SEGMENT_64_TAG: u32 = 0x19;

/// Tag of a symbol-table command.
pub const LC_SYMTAB_TAG: u32 = 0x2;

/// Tag of a build-identifier command.
pub const LC_UUID_TAG: u32 = 0x1b;

/// The load-command kinds the format defines.
#[allow(non_camel_case_types)]
#[derive(Copy, Clone, Debug, Eq, PartialEq, Structural)]
pub enum LcType {
    LC_REQ_DYLD,
    LC_SEGMENT,
    LC_SYMTAB,
    LC_SYMSEG,
    LC_THREAD,
    LC_UNIXTHREAD,
    LC_LOADFVMLIB,
    LC_IDFVMLIB,
    LC_IDENT,
    LC_FVMFILE,
    LC_PREPAGE,
    LC_DYSYMTAB,
    LC_LOAD_DYLIB,
    LC_ID_DYLIB,
    LC_LOAD_DYLINKER,
    LC_ID_DYLINKER,
    LC_PREBOUND_DYLIB,
    LC_ROUTINES,
    LC_SUB_FRAMEWORK,
    LC_SUB_UMBRELLA,
    LC_SUB_CLIENT,
    LC_SUB_LIBRARY,
    LC_TWOLEVEL_HINTS,
    LC_PREBIND_CKSUM,
    LC_LOAD_WEAK_DYLIB,
    LC_SEGMENT_64,
    LC_ROUTINES_64,
    LC_UUID,
    LC_RPATH,
    LC_CODE_SIGNATURE,
    LC_SEGMENT_SPLIT_INFO,
    LC_REEXPORT_DYLIB,
    LC_LAZY_LOAD_DYLIB,
    LC_ENCRYPTION_INFO,
    LC_DYLD_INFO,
    LC_DYLD_INFO_ONLY,
    LC_LOAD_UPWARD_DYLIB,
    LC_VERSION_MIN_MACOSX,
    LC_VERSION_MIN_IPHONEOS,
    LC_FUNCTION_STARTS,
    LC_DYLD_ENVIRONMENT,
    LC_MAIN,
    LC_DATA_IN_CODE,
    LC_SOURCE_VERSION,
    LC_DYLIB_CODE_SIGN_DRS,
    LC_ENCRYPTION_INFO_64,
    LC_LINKER_OPTION,
    LC_LINKER_OPTIMIZATION_HINT,
    LC_VERSION_MIN_WATCHOS,
}

impl LcType {
    /// The numeric tag of this kind, as it appears on the wire.
    pub open spec fn spec_value(self) -> u32 {
        match self {
            LcType::LC_REQ_DYLD => 0x8000_0000,
            LcType::LC_SEGMENT => 0x1,
            LcType::LC_SYMTAB => 0x2,
            LcType::LC_SYMSEG => 0x3,
            LcType::LC_THREAD => 0x4,
            LcType::LC_UNIXTHREAD => 0x5,
            LcType::LC_LOADFVMLIB => 0x6,
            LcType::LC_IDFVMLIB => 0x7,
            LcType::LC_IDENT => 0x8,
            LcType::LC_FVMFILE => 0x9,
            LcType::LC_PREPAGE => 0xa,
            LcType::LC_DYSYMTAB => 0xb,
            LcType::LC_LOAD_DYLIB => 0xc,
            LcType::LC_ID_DYLIB => 0xd,
            LcType::LC_LOAD_DYLINKER => 0xe,
            LcType::LC_ID_DYLINKER => 0xf,
            LcType::LC_PREBOUND_DYLIB => 0x10,
            LcType::LC_ROUTINES => 0x11,
            LcType::LC_SUB_FRAMEWORK => 0x12,
            LcType::LC_SUB_UMBRELLA => 0x13,
            LcType::LC_SUB_CLIENT => 0x14,
            LcType::LC_SUB_LIBRARY => 0x15,
            LcType::LC_TWOLEVEL_HINTS => 0x16,
            LcType::LC_PREBIND_CKSUM => 0x17,
            LcType::LC_LOAD_WEAK_DYLIB => 0x8000_0018,
            LcType::LC_SEGMENT_64 => 0x19,
            LcType::LC_ROUTINES_64 => 0x1a,
            LcType::LC_UUID => 0x1b,
            LcType::LC_RPATH => 0x8000_001c,
            LcType::LC_CODE_SIGNATURE => 0x1d,
            LcType::LC_SEGMENT_SPLIT_INFO => 0x1e,
            LcType::LC_REEXPORT_DYLIB => 0x8000_001f,
            LcType::LC_LAZY_LOAD_DYLIB => 0x20,
            LcType::LC_ENCRYPTION_INFO => 0x21,
            LcType::LC_DYLD_INFO => 0x22,
            LcType::LC_DYLD_INFO_ONLY => 0x8000_0022,
            LcType::LC_LOAD_UPWARD_DYLIB => 0x8000_0023,
            LcType::LC_VERSION_MIN_MACOSX => 0x24,
            LcType::LC_VERSION_MIN_IPHONEOS => 0x25,
            LcType::LC_FUNCTION_STARTS => 0x26,
            LcType::LC_DYLD_ENVIRONMENT => 0x27,
            LcType::LC_MAIN => 0x8000_0028,
            LcType::LC_DATA_IN_CODE => 0x29,
            LcType::LC_SOURCE_VERSION => 0x2a,
            LcType::LC_DYLIB_CODE_SIGN_DRS => 0x2b,
            LcType::LC_ENCRYPTION_INFO_64 => 0x2c,
            LcType::LC_LINKER_OPTION => 0x2d,
            LcType::LC_LINKER_OPTIMIZATION_HINT => 0x2e,
            LcType::LC_VERSION_MIN_WATCHOS => 0x30,
        }
    }

    /// The numeric tag of this kind, as it appears on the wire.
    pub fn value(self) -> (r: u32)
        ensures
            r == self.spec_value(),
    {
        match self {
            LcType::LC_REQ_DYLD => 0x8000_0000,
            LcType::LC_SEGMENT => 0x1,
            LcType::LC_SYMTAB => 0x2,
            LcType::LC_SYMSEG => 0x3,
            LcType::LC_THREAD => 0x4,
            LcType::LC_UNIXTHREAD => 0x5,
            LcType::LC_LOADFVMLIB => 0x6,
            LcType::LC_IDFVMLIB => 0x7,
            LcType::LC_IDENT => 0x8,
            LcType::LC_FVMFILE => 0x9,
            LcType::LC_PREPAGE => 0xa,
            LcType::LC_DYSYMTAB => 0xb,
            LcType::LC_LOAD_DYLIB => 0xc,
            LcType::LC_ID_DYLIB => 0xd,
            LcType::LC_LOAD_DYLINKER => 0xe,
            LcType::LC_ID_DYLINKER => 0xf,
            LcType::LC_PREBOUND_DYLIB => 0x10,
            LcType::LC_ROUTINES => 0x11,
            LcType::LC_SUB_FRAMEWORK => 0x12,
            LcType::LC_SUB_UMBRELLA => 0x13,
            LcType::LC_SUB_CLIENT => 0x14,
            LcType::LC_SUB_LIBRARY => 0x15,
            LcType::LC_TWOLEVEL_HINTS => 0x16,
            LcType::LC_PREBIND_CKSUM => 0x17,
            LcType::LC_LOAD_WEAK_DYLIB => 0x8000_0018,
            LcType::LC_SEGMENT_64 => 0x19,
            LcType::LC_ROUTINES_64 => 0x1a,
            LcType::LC_UUID => 0x1b,
            LcType::LC_RPATH => 0x8000_001c,
            LcType::LC_CODE_SIGNATURE => 0x1d,
            LcType::LC_SEGMENT_SPLIT_INFO => 0x1e,
            LcType::LC_REEXPORT_DYLIB => 0x8000_001f,
            LcType::LC_LAZY_LOAD_DYLIB => 0x20,
            LcType::LC_ENCRYPTION_INFO => 0x21,
            LcType::LC_DYLD_INFO => 0x22,
            LcType::LC_DYLD_INFO_ONLY => 0x8000_0022,
            LcType::LC_LOAD_UPWARD_DYLIB => 0x8000_0023,
            LcType::LC_VERSION_MIN_MACOSX => 0x24,
            LcType::LC_VERSION_MIN_IPHONEOS => 0x25,
            LcType::LC_FUNCTION_STARTS => 0x26,
            LcType::LC_DYLD_ENVIRONMENT => 0x27,
            LcType::LC_MAIN => 0x8000_0028,
            LcType::LC_DATA_IN_CODE => 0x29,
            LcType::LC_SOURCE_VERSION => 0x2a,
            LcType::LC_DYLIB_CODE_SIGN_DRS => 0x2b,
            LcType::LC_ENCRYPTION_INFO_64 => 0x2c,
            LcType::LC_LINKER_OPTION => 0x2d,
            LcType::LC_LINKER_OPTIMIZATION_HINT => 0x2e,
            LcType::LC_VERSION_MIN_WATCHOS => 0x30,
        }
    }
}

/// Bit masks over a symbol entry's type byte.
#[allow(non_camel_case_types)]
#[derive(Copy, Clone, Debug, Eq, PartialEq, Structural)]
pub enum SymTabTypeMask {
    N_STAB,
    N_PEXT,
    N_TYPE,
    N_EXT,
}

impl SymTabTypeMask {
    /// The mask's numeric value.
    pub open spec fn spec_value(self) -> u8 {
        match self {
            SymTabTypeMask::N_STAB => 0xe0,
            SymTabTypeMask::N_PEXT => 0x10,
            SymTabTypeMask::N_TYPE => 0x0e,
            SymTabTypeMask::N_EXT => 0x01,
        }
    }

    /// The mask's numeric value.
    pub fn value(self) -> (r: u8)
        ensures
            r == self.spec_value(),
    {
        match self {
            SymTabTypeMask::N_STAB => 0xe0,
            SymTabTypeMask::N_PEXT => 0x10,
            SymTabTypeMask::N_TYPE => 0x0e,
            SymTabTypeMask::N_EXT => 0x01,
        }
    }
}

/// The values the type field of a symbol entry can take, under the
/// `N_TYPE` mask.
#[allow(non_camel_case_types)]
#[derive(Copy, Clone, Debug, Eq, PartialEq, Structural)]
pub enum SymTabType {
    N_UNDF,
    N_ABS,
    N_SECT,
    N_PBUD,
    N_INDR,
}

impl SymTabType {
    /// The kind's numeric value.
    pub open spec fn spec_value(self) -> u8 {
        match self {
            SymTabType::N_UNDF => 0x0,
            SymTabType::N_ABS => 0x2,
            SymTabType::N_SECT => 0xe,
            SymTabType::N_PBUD => 0xc,
            SymTabType::N_INDR => 0xa,
        }
    }

    /// The kind's numeric value.
    pub fn value(self) -> (r: u8)
        ensures
            r == self.spec_value(),
    {
        match self {
            SymTabType::N_UNDF => 0x0,
            SymTabType::N_ABS => 0x2,
            SymTabType::N_SECT => 0xe,
            SymTabType::N_PBUD => 0xc,
            SymTabType::N_INDR => 0xa,
        }
    }
}

/// Bit masks over a symbol entry's descriptor field.
#[allow(non_camel_case_types)]
#[derive(Copy, Clone, Debug, Eq, PartialEq, Structural)]
pub enum SymTabRefMask {
    REFERENCE_TYPE,
    REFERENCED_DYNAMICALLY,
    N_DESC_DISCARDED,
    N_WEAK_REF,
    N_WEAK_DEF,
}

impl SymTabRefMask {
    /// The mask's numeric value.
    pub open spec fn spec_value(self) -> u16 {
        match self {
            SymTabRefMask::REFERENCE_TYPE => 0xf,
            SymTabRefMask::REFERENCED_DYNAMICALLY => 0x10,
            SymTabRefMask::N_DESC_DISCARDED => 0x20,
            SymTabRefMask::N_WEAK_REF => 0x40,
            SymTabRefMask::N_WEAK_DEF => 0x80,
        }
    }

    /// The mask's numeric value.
    pub fn value(self) -> (r: u16)
        ensures
            r == self.spec_value(),
    {
        match self {
            SymTabRefMask::REFERENCE_TYPE => 0xf,
            SymTabRefMask::REFERENCED_DYNAMICALLY => 0x10,
            SymTabRefMask::N_DESC_DISCARDED => 0x20,
            SymTabRefMask::N_WEAK_REF => 0x40,
            SymTabRefMask::N_WEAK_DEF => 0x80,
        }
    }
}

/// The values the reference-type bits of a descriptor can take.
#[allow(non_camel_case_types)]
#[derive(Copy, Clone, Debug, Eq, PartialEq, Structural)]
pub enum SymTabRef {
    REFERENCE_FLAG_UNDEFINED_NON_LAZY,
    REFERENCE_FLAG_UNDEFINED_LAZY,
    REFERENCE_FLAG_DEFINED,
    REFERENCE_FLAG_PRIVATE_DEFINED,
    REFERENCE_FLAG_PRIVATE_UNDEFINED_NON_LAZY,
    REFERENCE_FLAG_PRIVATE_UNDEFINED_LAZY,
}

impl SymTabRef {
    /// The reference kind's numeric value.
    pub open spec fn spec_value(self) -> u16 {
        match self {
            SymTabRef::REFERENCE_FLAG_UNDEFINED_NON_LAZY => 0x0,
            SymTabRef::REFERENCE_FLAG_UNDEFINED_LAZY => 0x1,
            SymTabRef::REFERENCE_FLAG_DEFINED => 0x2,
            SymTabRef::REFERENCE_FLAG_PRIVATE_DEFINED => 0x3,
            SymTabRef::REFERENCE_FLAG_PRIVATE_UNDEFINED_NON_LAZY => 0x4,
            SymTabRef::REFERENCE_FLAG_PRIVATE_UNDEFINED_LAZY => 0x5,
        }
    }

    /// The reference kind's numeric value.
    pub fn value(self) -> (r: u16)
        ensures
            r == self.spec_value(),
    {
        match self {
            SymTabRef::REFERENCE_FLAG_UNDEFINED_NON_LAZY => 0x0,
            SymTabRef::REFERENCE_FLAG_UNDEFINED_LAZY => 0x1,
            SymTabRef::REFERENCE_FLAG_DEFINED => 0x2,
            SymTabRef::REFERENCE_FLAG_PRIVATE_DEFINED => 0x3,
            SymTabRef::REFERENCE_FLAG_PRIVATE_UNDEFINED_NON_LAZY => 0x4,
            SymTabRef::REFERENCE_FLAG_PRIVATE_UNDEFINED_LAZY => 0x5,
        }
    }
}

} // verus!
