//! Mathematical model of the wire format: spec-level readers for
//! little-endian fields, ghost images of every decoded structure, and a
//! spec-level parser that the executable decoder is proved to implement
//! exactly.

use vstd::prelude::*;
use crate::FormatError;

verus! {

/// The 16-bit little-endian value at offset `i`.
pub open spec fn le16_at(b: Seq<u8>, i: int) -> int
    recommends
        0 <= i,
        i + 2 <= b.len(),
{
    b[i] as int + 0x100 * (b[i + 1] as int)
}

/// The 32-bit little-endian value at offset `i`.
pub open spec fn le32_at(b: Seq<u8>, i: int) -> int
    recommends
        0 <= i,
        i + 4 <= b.len(),
{
    le16_at(b, i) + 0x1_0000 * le16_at(b, i + 2)
}

/// The 64-bit little-endian value at offset `i`.
pub open spec fn le64_at(b: Seq<u8>, i: int) -> int
    recommends
        0 <= i,
        i + 8 <= b.len(),
{
    le32_at(b, i) + 0x1_0000_0000 * le32_at(b, i + 4)
}

/// Reinterprets an unsigned 32-bit value as a signed one
/// (two's complement).
pub open spec fn as_signed32(v: int) -> int
    recommends
        0 <= v < 0x1_0000_0000,
{
    if v >= 0x8000_0000 {
        v - 0x1_0000_0000
    } else {
        v
    }
}

/// Reinterprets an unsigned 16-bit value as a signed one
/// (two's complement).
pub open spec fn as_signed16(v: int) -> int
    recommends
        0 <= v < 0x1_0000,
{
    if v >= 0x8000 {
        v - 0x1_0000
    } else {
        v
    }
}

/// The index of the first null byte of `s`, or `s.len()` if `s` holds none.
pub open spec fn first_nul(s: Seq<u8>) -> int
    decreases s.len(),
{
    if s.len() == 0 {
        0
    } else if s[0] == 0 {
        0
    } else {
        1 + first_nul(s.drop_first())
    }
}

/// Each byte read as the character with that code point.
pub open spec fn chars_of(s: Seq<u8>) -> Seq<char> {
    s.map_values(|x: u8| x as char)
}

/// A fixed-width name field read as text: the bytes before the first null
/// terminator, or the whole field if none is present.
pub open spec fn name_of(s: Seq<u8>) -> Seq<char> {
    chars_of(s.take(first_nul(s)))
}

/// A position with no null byte before it, and a null byte at it (or the
/// end of the sequence), is exactly `first_nul`.
pub proof fn lemma_first_nul_is(s: Seq<u8>, j: int)
    requires
        0 <= j <= s.len(),
        forall|k: int| 0 <= k < j ==> s[k] != 0,
        j < s.len() ==> s[j] == 0,
    ensures
        first_nul(s) == j,
    decreases s.len(),
{
    if s.len() == 0 {
    } else if j == 0 {
    } else {
        assert(s[0] != 0);
        lemma_first_nul_is(s.drop_first(), j - 1);
    }
}

/// Ghost image of a decoded file header.
pub ghost struct SpecHeader {
    pub magic: int,
    pub cputype: int,
    pub cpusubtype: int,
    pub filetype: int,
    pub ncmds: int,
    pub sizeofcmds: int,
    pub flags: int,
    pub reserved: int,
}

/// Ghost image of a generic load-command record.
pub ghost struct SpecLoadCommand {
    pub cmd: int,
    pub cmdsize: int,
    pub data: Seq<u8>,
}

/// Ghost image of a decoded section record.
pub ghost struct SpecSection {
    pub sectname: Seq<char>,
    pub segname: Seq<char>,
    pub addr: int,
    pub size: int,
    pub offset: int,
    pub align: int,
    pub reloff: int,
    pub nreloc: int,
    pub flags: int,
    pub reserved1: int,
    pub reserved2: int,
    pub reserved3: int,
}

/// Ghost image of a decoded segment load command.
pub ghost struct SpecSegment {
    pub cmd: int,
    pub cmdsize: int,
    pub segname: Seq<char>,
    pub vmaddr: int,
    pub vmsize: int,
    pub fileoff: int,
    pub filesize: int,
    pub maxprot: int,
    pub initprot: int,
    pub nsects: int,
    pub flags: int,
    pub sections: Seq<SpecSection>,
}

/// Ghost image of a decoded symbol-table entry.
pub ghost struct SpecSymbolEntry {
    pub n_strx: int,
    pub n_type: int,
    pub n_sect: int,
    pub n_desc: int,
    pub n_value: int,
    pub symbol: Seq<char>,
}

/// Ghost image of a decoded symbol table.
pub ghost struct SpecSymbolTable {
    pub cmd: int,
    pub cmdsize: int,
    pub symoff: int,
    pub nsyms: int,
    pub stroff: int,
    pub strsize: int,
    pub entries: Seq<SpecSymbolEntry>,
}

/// Ghost image of a fully decoded object file.
pub ghost struct SpecMach {
    pub header: SpecHeader,
    pub uuid: Option<Seq<u8>>,
    pub segments: Seq<SpecSegment>,
    pub commands: Seq<SpecLoadCommand>,
    pub symtab: Seq<SpecSymbolTable>,
}

/// What one pass over the load-command table produces.
pub ghost struct SpecCmdLists {
    pub uuid: Option<Seq<u8>>,
    pub segments: Seq<SpecSegment>,
    pub commands: Seq<SpecLoadCommand>,
    pub symtab: Seq<SpecSymbolTable>,
}

/// The header fields, read at their fixed offsets.
pub open spec fn spec_header(b: Seq<u8>) -> SpecHeader
    recommends
        b.len() >= crate::constants::HEADER_WIDTH,
{
    SpecHeader {
        magic: le32_at(b, 0),
        cputype: as_signed32(le32_at(b, 4)),
        cpusubtype: le32_at(b, 8),
        filetype: le32_at(b, 12),
        ncmds: le32_at(b, 16),
        sizeofcmds: le32_at(b, 20),
        flags: le32_at(b, 24),
        reserved: le32_at(b, 28),
    }
}

/// The section record whose fixed fields start at `pos`.
pub open spec fn spec_section(b: Seq<u8>, pos: int) -> SpecSection
    recommends
        0 <= pos,
        pos + crate::constants::SECTION_WIDTH <= b.len(),
{
    SpecSection {
        sectname: name_of(b.subrange(pos, pos + 16)),
        segname: name_of(b.subrange(pos + 16, pos + 32)),
        addr: le64_at(b, pos + 32),
        size: le64_at(b, pos + 40),
        offset: le32_at(b, pos + 48),
        align: le32_at(b, pos + 52),
        reloff: le32_at(b, pos + 56),
        nreloc: le32_at(b, pos + 60),
        flags: le32_at(b, pos + 64),
        reserved1: le32_at(b, pos + 68),
        reserved2: le32_at(b, pos + 72),
        reserved3: le32_at(b, pos + 76),
    }
}

/// The fixed-width section records of the `len` bytes starting at `pos`,
/// in order, read until fewer bytes than one record remain.
pub open spec fn spec_sections(b: Seq<u8>, pos: int, len: int) -> Seq<SpecSection>
    recommends
        0 <= pos,
        0 <= len,
        pos + len <= b.len(),
    decreases len,
{
    if len < crate::constants::SECTION_WIDTH {
        Seq::empty()
    } else {
        seq![spec_section(b, pos)] + spec_sections(
            b,
            pos + crate::constants::SECTION_WIDTH,
            len - crate::constants::SECTION_WIDTH,
        )
    }
}

/// The segment load command whose record occupies
/// `[pos, pos + cmdsize)`. The record's trailing bytes are its section
/// array; the decoded section count must equal the declared one, and the
/// array must divide into whole section records.
pub open spec fn spec_segment(b: Seq<u8>, pos: int, cmdsize: int) -> Result<
    SpecSegment,
    FormatError,
>
    recommends
        0 <= pos,
        8 <= cmdsize,
        pos + cmdsize <= b.len(),
{
    if cmdsize < crate::constants::SEGMENT_FIXED_WIDTH {
        Err(FormatError::Truncated)
    } else {
        let sect_len = cmdsize - crate::constants::SEGMENT_FIXED_WIDTH;
        let sections = spec_sections(b, pos + crate::constants::SEGMENT_FIXED_WIDTH, sect_len);
        let nsects = le32_at(b, pos + 64);
        if sections.len() != nsects {
            Err(FormatError::SectionCountMismatch)
        } else if sect_len % (crate::constants::SECTION_WIDTH as int) != 0 {
            Err(FormatError::TrailingBytes)
        } else {
            Ok(
                SpecSegment {
                    cmd: le32_at(b, pos),
                    cmdsize: le32_at(b, pos + 4),
                    segname: name_of(b.subrange(pos + 8, pos + 24)),
                    vmaddr: le64_at(b, pos + 24),
                    vmsize: le64_at(b, pos + 32),
                    fileoff: le64_at(b, pos + 40),
                    filesize: le64_at(b, pos + 48),
                    maxprot: as_signed32(le32_at(b, pos + 56)),
                    initprot: as_signed32(le32_at(b, pos + 60)),
                    nsects,
                    flags: le32_at(b, pos + 68),
                    sections,
                },
            )
        }
    }
}

/// The symbol entry whose fixed fields start at `pos`, before name
/// resolution.
pub open spec fn spec_sym_entry(b: Seq<u8>, pos: int) -> SpecSymbolEntry
    recommends
        0 <= pos,
        pos + crate::constants::SYMBOL_ENTRY_WIDTH <= b.len(),
{
    SpecSymbolEntry {
        n_strx: as_signed32(le32_at(b, pos)),
        n_type: b[pos + 4] as int,
        n_sect: b[pos + 5] as int,
        n_desc: as_signed16(le16_at(b, pos + 6)),
        n_value: le64_at(b, pos + 8),
        symbol: Seq::empty(),
    }
}

/// The `n` fixed-width symbol entries starting at `pos`, unresolved.
pub open spec fn spec_sym_entries(b: Seq<u8>, pos: int, n: nat) -> Seq<SpecSymbolEntry>
    recommends
        0 <= pos,
        pos + n * crate::constants::SYMBOL_ENTRY_WIDTH <= b.len(),
    decreases n,
{
    if n == 0 {
        Seq::empty()
    } else {
        seq![spec_sym_entry(b, pos)] + spec_sym_entries(
            b,
            pos + crate::constants::SYMBOL_ENTRY_WIDTH,
            (n - 1) as nat,
        )
    }
}

/// The name a string-table index denotes: the bytes from the index to the
/// next null terminator. An index outside the table is `BadStringOffset`;
/// a table with no terminator from the index on is `UnterminatedString`.
pub open spec fn spec_resolve_name(strtab: Seq<u8>, idx: int) -> Result<Seq<char>, FormatError> {
    if idx < 0 || idx >= strtab.len() {
        Err(FormatError::BadStringOffset)
    } else {
        let tail = strtab.skip(idx);
        if first_nul(tail) == tail.len() {
            Err(FormatError::UnterminatedString)
        } else {
            Ok(chars_of(tail.take(first_nul(tail))))
        }
    }
}

/// Every entry with its name resolved against the string table, in order;
/// the first entry that fails to resolve decides the error.
pub open spec fn spec_resolve_all(strtab: Seq<u8>, entries: Seq<SpecSymbolEntry>) -> Result<
    Seq<SpecSymbolEntry>,
    FormatError,
>
    decreases entries.len(),
{
    if entries.len() == 0 {
        Ok(Seq::empty())
    } else {
        match spec_resolve_name(strtab, entries[0].n_strx) {
            Err(e) => Err(e),
            Ok(name) => match spec_resolve_all(strtab, entries.drop_first()) {
                Err(e) => Err(e),
                Ok(rest) => Ok(
                    seq![
                        SpecSymbolEntry {
                            n_strx: entries[0].n_strx,
                            n_type: entries[0].n_type,
                            n_sect: entries[0].n_sect,
                            n_desc: entries[0].n_desc,
                            n_value: entries[0].n_value,
                            symbol: name,
                        },
                    ] + rest,
                ),
            },
        }
    }
}

/// The symbol table whose load command starts at `pos`. The symbol array
/// and string table are addressed by absolute offsets into the original
/// buffer, not relative to `pos`.
pub open spec fn spec_symtab(b: Seq<u8>, pos: int) -> Result<SpecSymbolTable, FormatError>
    recommends
        0 <= pos,
{
    if pos + crate::constants::SYMTAB_FIXED_WIDTH > b.len() {
        Err(FormatError::Truncated)
    } else {
        let symoff = le32_at(b, pos + 8);
        let nsyms = le32_at(b, pos + 12);
        let stroff = le32_at(b, pos + 16);
        let strsize = le32_at(b, pos + 20);
        if symoff + nsyms * crate::constants::SYMBOL_ENTRY_WIDTH > b.len() {
            Err(FormatError::Truncated)
        } else if stroff + strsize > b.len() {
            Err(FormatError::Truncated)
        } else {
            let strtab = b.subrange(stroff, stroff + strsize);
            match spec_resolve_all(strtab, spec_sym_entries(b, symoff, nsyms as nat)) {
                Err(e) => Err(e),
                Ok(entries) => Ok(
                    SpecSymbolTable {
                        cmd: le32_at(b, pos),
                        cmdsize: le32_at(b, pos + 4),
                        symoff,
                        nsyms,
                        stroff,
                        strsize,
                        entries,
                    },
                ),
            }
        }
    }
}

/// A pass result with one segment put in front.
pub open spec fn with_segment(seg: SpecSegment, rest: Result<SpecCmdLists, FormatError>) -> Result<
    SpecCmdLists,
    FormatError,
> {
    match rest {
        Err(e) => Err(e),
        Ok(r) => Ok(
            SpecCmdLists {
                uuid: r.uuid,
                segments: seq![seg] + r.segments,
                commands: r.commands,
                symtab: r.symtab,
            },
        ),
    }
}

/// A pass result with one generic record put in front.
pub open spec fn with_command(rec: SpecLoadCommand, rest: Result<SpecCmdLists, FormatError>) -> Result<
    SpecCmdLists,
    FormatError,
> {
    match rest {
        Err(e) => Err(e),
        Ok(r) => Ok(
            SpecCmdLists {
                uuid: r.uuid,
                segments: r.segments,
                commands: seq![rec] + r.commands,
                symtab: r.symtab,
            },
        ),
    }
}

/// A pass result with one symbol table, and its generic record, put in
/// front.
pub open spec fn with_symtab(
    rec: SpecLoadCommand,
    st: SpecSymbolTable,
    rest: Result<SpecCmdLists, FormatError>,
) -> Result<SpecCmdLists, FormatError> {
    match rest {
        Err(e) => Err(e),
        Ok(r) => Ok(
            SpecCmdLists {
                uuid: r.uuid,
                segments: r.segments,
                commands: seq![rec] + r.commands,
                symtab: seq![st] + r.symtab,
            },
        ),
    }
}

/// A pass result with an earlier build identifier underneath it: a later
/// identifier wins over `here`.
pub open spec fn with_uuid(here: Option<Seq<u8>>, rest: Result<SpecCmdLists, FormatError>) -> Result<
    SpecCmdLists,
    FormatError,
> {
    match rest {
        Err(e) => Err(e),
        Ok(r) => Ok(
            SpecCmdLists {
                uuid: if r.uuid is Some {
                    r.uuid
                } else {
                    here
                },
                segments: r.segments,
                commands: r.commands,
                symtab: r.symtab,
            },
        ),
    }
}

/// One pass over `n` load-command records starting at `pos`: each record's
/// declared size is authoritative for the cursor, whatever its kind
/// consumed; the first failing record decides the error. A later build
/// identifier replaces an earlier one; a failed extraction leaves the
/// earlier one in place.
pub open spec fn spec_cmds(b: Seq<u8>, pos: int, n: nat) -> Result<SpecCmdLists, FormatError>
    recommends
        0 <= pos,
    decreases n,
{
    if n == 0 {
        Ok(SpecCmdLists { uuid: None, segments: Seq::empty(), commands: Seq::empty(), symtab: Seq::empty() })
    } else if pos + 8 > b.len() {
        Err(FormatError::Truncated)
    } else {
        let cmd = le32_at(b, pos);
        let cmdsize = le32_at(b, pos + 4);
        if cmdsize < 8 || pos + cmdsize > b.len() {
            Err(FormatError::Truncated)
        } else {
            let rest = spec_cmds(b, pos + cmdsize, (n - 1) as nat);
            if cmd == crate::constants::LC_SEGMENT_64_TAG {
                match spec_segment(b, pos, cmdsize) {
                    Err(e) => Err(e),
                    Ok(seg) => with_segment(seg, rest),
                }
            } else if cmd == crate::constants::LC_UUID_TAG {
                let here = if cmdsize == crate::constants::UUID_COMMAND_WIDTH {
                    Some(b.subrange(pos + 8, pos + 24))
                } else {
                    None
                };
                with_uuid(here, rest)
            } else if cmd == crate::constants::LC_SYMTAB_TAG {
                let record = SpecLoadCommand {
                    cmd,
                    cmdsize,
                    data: b.subrange(pos + 8, pos + cmdsize),
                };
                match spec_symtab(b, pos) {
                    Err(e) => Err(e),
                    Ok(st) => with_symtab(record, st, rest),
                }
            } else {
                let record = SpecLoadCommand {
                    cmd,
                    cmdsize,
                    data: b.subrange(pos + 8, pos + cmdsize),
                };
                with_command(record, rest)
            }
        }
    }
}

/// Lists already gathered, composed with what the rest of a pass yields:
/// the error if the rest fails, otherwise the gathered lists in front of
/// the rest's, under the rest's build identifier if it has one.
pub open spec fn combine_cmds(
    uuid: Option<Seq<u8>>,
    segments: Seq<SpecSegment>,
    commands: Seq<SpecLoadCommand>,
    symtab: Seq<SpecSymbolTable>,
    rest: Result<SpecCmdLists, FormatError>,
) -> Result<SpecCmdLists, FormatError> {
    match rest {
        Err(e) => Err(e),
        Ok(r) => Ok(
            SpecCmdLists {
                uuid: if r.uuid is Some {
                    r.uuid
                } else {
                    uuid
                },
                segments: segments + r.segments,
                commands: commands + r.commands,
                symtab: symtab + r.symtab,
            },
        ),
    }
}

/// Putting a segment in front of the rest and then composing is composing
/// with the segment appended to the gathered list.
pub proof fn lemma_combine_segment(
    uuid: Option<Seq<u8>>,
    segments: Seq<SpecSegment>,
    commands: Seq<SpecLoadCommand>,
    symtab: Seq<SpecSymbolTable>,
    seg: SpecSegment,
    rest: Result<SpecCmdLists, FormatError>,
)
    ensures
        combine_cmds(uuid, segments, commands, symtab, with_segment(seg, rest)) == combine_cmds(
            uuid,
            segments.push(seg),
            commands,
            symtab,
            rest,
        ),
{
    if let Ok(r) = rest {
        assert(segments + (seq![seg] + r.segments) =~= segments.push(seg) + r.segments);
    }
}

/// The same, for a generic record.
pub proof fn lemma_combine_command(
    uuid: Option<Seq<u8>>,
    segments: Seq<SpecSegment>,
    commands: Seq<SpecLoadCommand>,
    symtab: Seq<SpecSymbolTable>,
    rec: SpecLoadCommand,
    rest: Result<SpecCmdLists, FormatError>,
)
    ensures
        combine_cmds(uuid, segments, commands, symtab, with_command(rec, rest)) == combine_cmds(
            uuid,
            segments,
            commands.push(rec),
            symtab,
            rest,
        ),
{
    if let Ok(r) = rest {
        assert(commands + (seq![rec] + r.commands) =~= commands.push(rec) + r.commands);
    }
}

/// The same, for a symbol table together with its generic record.
pub proof fn lemma_combine_symtab(
    uuid: Option<Seq<u8>>,
    segments: Seq<SpecSegment>,
    commands: Seq<SpecLoadCommand>,
    symtab: Seq<SpecSymbolTable>,
    rec: SpecLoadCommand,
    st: SpecSymbolTable,
    rest: Result<SpecCmdLists, FormatError>,
)
    ensures
        combine_cmds(uuid, segments, commands, symtab, with_symtab(rec, st, rest)) == combine_cmds(
            uuid,
            segments,
            commands.push(rec),
            symtab.push(st),
            rest,
        ),
{
    if let Ok(r) = rest {
        assert(commands + (seq![rec] + r.commands) =~= commands.push(rec) + r.commands);
        assert(symtab + (seq![st] + r.symtab) =~= symtab.push(st) + r.symtab);
    }
}

/// The same, for a build identifier: a newly seen identifier replaces the
/// gathered one if it decoded, and keeps it otherwise.
pub proof fn lemma_combine_uuid(
    uuid: Option<Seq<u8>>,
    segments: Seq<SpecSegment>,
    commands: Seq<SpecLoadCommand>,
    symtab: Seq<SpecSymbolTable>,
    here: Option<Seq<u8>>,
    rest: Result<SpecCmdLists, FormatError>,
)
    ensures
        combine_cmds(uuid, segments, commands, symtab, with_uuid(here, rest)) == combine_cmds(
            if here is Some {
                here
            } else {
                uuid
            },
            segments,
            commands,
            symtab,
            rest,
        ),
{
}

/// The whole decode: the magic constant is checked first, then the header
/// width, then exactly `ncmds` load commands are consumed.
pub open spec fn spec_parse(b: Seq<u8>) -> Result<SpecMach, FormatError> {
    if b.len() < 4 {
        Err(FormatError::Truncated)
    } else if le32_at(b, 0) != crate::constants::MH_MAGIC_64 {
        Err(FormatError::BadMagic)
    } else if b.len() < crate::constants::HEADER_WIDTH {
        Err(FormatError::Truncated)
    } else {
        let h = spec_header(b);
        match spec_cmds(b, crate::constants::HEADER_WIDTH as int, h.ncmds as nat) {
            Err(e) => Err(e),
            Ok(lists) => Ok(
                SpecMach {
                    header: h,
                    uuid: lists.uuid,
                    segments: lists.segments,
                    commands: lists.commands,
                    symtab: lists.symtab,
                },
            ),
        }
    }
}

} // verus!
