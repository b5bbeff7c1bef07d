//! Decoder for the structural layout of a 64-bit little-endian Mach object
//! file: the fixed header, the load-command table, segment and section
//! records, symbol tables with resolved names, and an optional 16-byte
//! build identifier.

use vstd::prelude::*;

pub mod constants;
mod decode;
pub mod laws;
pub mod model;
pub mod reader;

pub use crate::reader::build_slice;

verus! {

/// The ways a decode can fail. Every structural violation aborts the whole
/// parse; the build identifier is the only optional, non-structural datum.
#[derive(Clone, Copy, Debug, PartialEq, Eq, Structural)]
pub enum FormatError {
    /// The first four bytes are not the required magic constant.
    BadMagic,
    /// Fewer bytes remain than a fixed-width field or a declared record
    /// size requires.
    Truncated,
    /// A segment's decoded section count differs from its declared count.
    SectionCountMismatch,
    /// A bounded sub-slice was not fully consumed by its fixed-width records.
    TrailingBytes,
    /// A symbol's string index lies outside the string table.
    BadStringOffset,
    /// No null terminator exists in the string table at or after a symbol's
    /// string index.
    UnterminatedString,
}

/// The view of an optional byte vector.
pub open spec fn opt_view(u: Option<Vec<u8>>) -> Option<Seq<u8>> {
    match u {
        Some(v) => Some(v@),
        None => None,
    }
}

/// The sequence of views of a sequence of viewable values.
pub open spec fn views_of<T: View>(v: Seq<T>) -> Seq<T::V> {
    v.map_values(|t: T| t@)
}

/// The view of a decode result: the value's view on success, the same
/// error on failure.
pub open spec fn ok_view<T: View>(r: Result<T, FormatError>) -> Result<T::V, FormatError> {
    match r {
        Ok(t) => Ok(t@),
        Err(e) => Err(e),
    }
}

/// The fixed file header.
#[derive(Debug)]
pub struct Header {
    pub magic: u32,
    pub cputype: i32,
    pub cpusubtype: u32,
    pub filetype: u32,
    pub ncmds: u32,
    pub sizeofcmds: u32,
    pub flags: u32,
    pub reserved: u32,
}

impl View for Header {
    type V = model::SpecHeader;

    open spec fn view(&self) -> model::SpecHeader {
        model::SpecHeader {
            magic: self.magic as int,
            cputype: self.cputype as int,
            cpusubtype: self.cpusubtype as int,
            filetype: self.filetype as int,
            ncmds: self.ncmds as int,
            sizeofcmds: self.sizeofcmds as int,
            flags: self.flags as int,
            reserved: self.reserved as int,
        }
    }
}

/// A load-command record kept generically: its tag, its declared size,
/// and its payload copied out of the buffer.
#[derive(Debug)]
pub struct LoadCommand {
    pub cmd: u32,
    pub cmdsize: u32,
    pub data: Vec<u8>,
}

impl View for LoadCommand {
    type V = model::SpecLoadCommand;

    open spec fn view(&self) -> model::SpecLoadCommand {
        model::SpecLoadCommand {
            cmd: self.cmd as int,
            cmdsize: self.cmdsize as int,
            data: self.data@,
        }
    }
}

/// A named sub-region of a segment.
#[derive(Debug)]
pub struct Section {
    pub sectname: String,
    pub segname: String,
    pub addr: u64,
    pub size: u64,
    pub offset: u32,
    pub align: u32,
    pub reloff: u32,
    pub nreloc: u32,
    pub flags: u32,
    pub reserved1: u32,
    pub reserved2: u32,
    pub reserved3: u32,
}

impl View for Section {
    type V = model::SpecSection;

    open spec fn view(&self) -> model::SpecSection {
        model::SpecSection {
            sectname: self.sectname@,
            segname: self.segname@,
            addr: self.addr as int,
            size: self.size as int,
            offset: self.offset as int,
            align: self.align as int,
            reloff: self.reloff as int,
            nreloc: self.nreloc as int,
            flags: self.flags as int,
            reserved1: self.reserved1 as int,
            reserved2: self.reserved2 as int,
            reserved3: self.reserved3 as int,
        }
    }
}

/// A segment load command together with its decoded section list.
#[derive(Debug)]
pub struct SegmentCommand {
    pub cmd: u32,
    pub cmdsize: u32,
    pub segname: String,
    pub vmaddr: u64,
    pub vmsize: u64,
    pub fileoff: u64,
    pub filesize: u64,
    pub maxprot: i32,
    pub initprot: i32,
    pub nsects: u32,
    pub flags: u32,
    pub sections: Vec<Section>,
}

impl View for SegmentCommand {
    type V = model::SpecSegment;

    open spec fn view(&self) -> model::SpecSegment {
        model::SpecSegment {
            cmd: self.cmd as int,
            cmdsize: self.cmdsize as int,
            segname: self.segname@,
            vmaddr: self.vmaddr as int,
            vmsize: self.vmsize as int,
            fileoff: self.fileoff as int,
            filesize: self.filesize as int,
            maxprot: self.maxprot as int,
            initprot: self.initprot as int,
            nsects: self.nsects as int,
            flags: self.flags as int,
            sections: views_of(self.sections@),
        }
    }
}

/// One symbol entry, with its name resolved from the string table.
#[derive(Debug)]
pub struct SymbolTableEntry {
    pub n_strx: i32,
    pub n_type: u8,
    pub n_sect: u8,
    pub n_desc: i16,
    pub n_value: u64,
    pub symbol: String,
}

impl View for SymbolTableEntry {
    type V = model::SpecSymbolEntry;

    open spec fn view(&self) -> model::SpecSymbolEntry {
        model::SpecSymbolEntry {
            n_strx: self.n_strx as int,
            n_type: self.n_type as int,
            n_sect: self.n_sect as int,
            n_desc: self.n_desc as int,
            n_value: self.n_value as int,
            symbol: self.symbol@,
        }
    }
}

/// A symbol-table load command together with its resolved entries.
#[derive(Debug)]
pub struct SymbolTable {
    pub cmd: u32,
    pub cmdsize: u32,
    pub symoff: u32,
    pub nsyms: u32,
    pub stroff: u32,
    pub strsize: u32,
    pub entries: Vec<SymbolTableEntry>,
}

impl View for SymbolTable {
    type V = model::SpecSymbolTable;

    open spec fn view(&self) -> model::SpecSymbolTable {
        model::SpecSymbolTable {
            cmd: self.cmd as int,
            cmdsize: self.cmdsize as int,
            symoff: self.symoff as int,
            nsyms: self.nsyms as int,
            stroff: self.stroff as int,
            strsize: self.strsize as int,
            entries: views_of(self.entries@),
        }
    }
}

/// A fully decoded object file: the aggregate a successful parse returns.
#[derive(Debug)]
pub struct MachObject {
    pub header: Header,
    pub uuid: Option<Vec<u8>>,
    pub segments: Vec<SegmentCommand>,
    pub commands: Vec<LoadCommand>,
    pub symtab: Vec<SymbolTable>,
}

impl View for MachObject {
    type V = model::SpecMach;

    open spec fn view(&self) -> model::SpecMach {
        model::SpecMach {
            header: self.header@,
            uuid: opt_view(self.uuid),
            segments: views_of(self.segments@),
            commands: views_of(self.commands@),
            symtab: views_of(self.symtab@),
        }
    }
}

impl MachObject {
    /// Decodes a whole object file from `bytes`: the header, then exactly
    /// `ncmds` load commands, each advanced over by its declared size.
    /// Returns either the fully populated object or the first structural
    /// violation in document order; a malformed build identifier alone
    /// never fails the parse.
    #[verifier::loop_isolation(false)]
    pub fn parse(bytes: &[u8]) -> (r: Result<MachObject, FormatError>)
        ensures
            ok_view(r) == model::spec_parse(bytes@),
    {
        let ghost b = bytes@;
        let n = bytes.len();
        if n < 4 {
            return Err(FormatError::Truncated);
        }
        let magic = crate::reader::read_u32(bytes, 0);
        if magic != constants::MH_MAGIC_64 {
            return Err(FormatError::BadMagic);
        }
        if n < constants::HEADER_WIDTH {
            return Err(FormatError::Truncated);
        }
        let header = Header {
            magic,
            cputype: crate::reader::read_i32(bytes, 4),
            cpusubtype: crate::reader::read_u32(bytes, 8),
            filetype: crate::reader::read_u32(bytes, 12),
            ncmds: crate::reader::read_u32(bytes, 16),
            sizeofcmds: crate::reader::read_u32(bytes, 20),
            flags: crate::reader::read_u32(bytes, 24),
            reserved: crate::reader::read_u32(bytes, 28),
        };
        assert(header@ == model::spec_header(b));
        let ncmds = header.ncmds;
        let ghost whole = model::spec_cmds(b, constants::HEADER_WIDTH as int, ncmds as nat);
        let mut uuid: Option<Vec<u8>> = None;
        let mut segments: Vec<SegmentCommand> = Vec::new();
        let mut commands: Vec<LoadCommand> = Vec::new();
        let mut symtab: Vec<SymbolTable> = Vec::new();
        let mut cursor: usize = constants::HEADER_WIDTH;
        let mut i: u32 = 0;
        proof {
            if let Ok(r0) = whole {
                assert(Seq::<model::SpecSegment>::empty() + r0.segments =~= r0.segments);
                assert(Seq::<model::SpecLoadCommand>::empty() + r0.commands =~= r0.commands);
                assert(Seq::<model::SpecSymbolTable>::empty() + r0.symtab =~= r0.symtab);
            }
            assert(views_of(segments@) =~= Seq::<model::SpecSegment>::empty());
            assert(views_of(commands@) =~= Seq::<model::SpecLoadCommand>::empty());
            assert(views_of(symtab@) =~= Seq::<model::SpecSymbolTable>::empty());
        }
        while i < ncmds
            invariant
                i <= ncmds,
                constants::HEADER_WIDTH <= cursor <= n,
                whole == model::combine_cmds(
                    opt_view(uuid),
                    views_of(segments@),
                    views_of(commands@),
                    views_of(symtab@),
                    model::spec_cmds(b, cursor as int, (ncmds - i) as nat),
                ),
            decreases ncmds - i,
        {
            let ghost su = opt_view(uuid);
            let ghost ss = views_of(segments@);
            let ghost sc = views_of(commands@);
            let ghost sy = views_of(symtab@);
            let ghost rem = (ncmds - i) as nat;
            if n - cursor < 8 {
                return Err(FormatError::Truncated);
            }
            let cmd = crate::reader::read_u32(bytes, cursor);
            let cmdsize = crate::reader::read_u32(bytes, cursor + 4);
            if cmdsize < 8 {
                return Err(FormatError::Truncated);
            }
            if cmdsize as u64 > (n - cursor) as u64 {
                return Err(FormatError::Truncated);
            }
            let ghost rest = model::spec_cmds(b, cursor + cmdsize as int, (rem - 1) as nat);
            if cmd == constants::LC_SEGMENT_64_TAG {
                match crate::decode::decode_segment(bytes, cursor, cmdsize) {
                    Err(e) => {
                        return Err(e);
                    },
                    Ok(seg) => {
                        proof {
                            model::lemma_combine_segment(su, ss, sc, sy, seg@, rest);
                            assert(views_of(segments@.push(seg)) =~= ss.push(seg@));
                        }
                        segments.push(seg);
                    },
                }
            } else if cmd == constants::LC_UUID_TAG {
                if cmdsize as usize == constants::UUID_COMMAND_WIDTH {
                    let data = crate::reader::payload_vec(bytes, cursor, cmdsize);
                    proof {
                        assert(data@ =~= b.subrange(cursor + 8, cursor + 24));
                        model::lemma_combine_uuid(su, ss, sc, sy, Some(data@), rest);
                    }
                    uuid = Some(data);
                } else {
                    proof {
                        model::lemma_combine_uuid(su, ss, sc, sy, None, rest);
                    }
                }
            } else if cmd == constants::LC_SYMTAB_TAG {
                let data = crate::reader::payload_vec(bytes, cursor, cmdsize);
                let rec = LoadCommand { cmd, cmdsize, data };
                match crate::decode::decode_symtab(bytes, cursor) {
                    Err(e) => {
                        return Err(e);
                    },
                    Ok(st) => {
                        proof {
                            model::lemma_combine_symtab(su, ss, sc, sy, rec@, st@, rest);
                            assert(views_of(commands@.push(rec)) =~= sc.push(rec@));
                            assert(views_of(symtab@.push(st)) =~= sy.push(st@));
                        }
                        commands.push(rec);
                        symtab.push(st);
                    },
                }
            } else {
                let data = crate::reader::payload_vec(bytes, cursor, cmdsize);
                let rec = LoadCommand { cmd, cmdsize, data };
                proof {
                    model::lemma_combine_command(su, ss, sc, sy, rec@, rest);
                    assert(views_of(commands@.push(rec)) =~= sc.push(rec@));
                }
                commands.push(rec);
            }
            cursor = cursor + cmdsize as usize;
            i = i + 1;
        }
        proof {
            if let Ok(r0) = whole {
                assert(views_of(segments@) + Seq::<model::SpecSegment>::empty() =~= views_of(
                    segments@,
                ));
                assert(views_of(commands@) + Seq::<model::SpecLoadCommand>::empty() =~= views_of(
                    commands@,
                ));
                assert(views_of(symtab@) + Seq::<model::SpecSymbolTable>::empty() =~= views_of(
                    symtab@,
                ));
            }
        }
        let obj = MachObject { header, uuid, segments, commands, symtab };
        Ok(obj)
    }
}

} // verus!
