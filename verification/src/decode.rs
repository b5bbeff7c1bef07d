//! The type-specific sub-decoders: section lists, segments, symbol
//! entries, name resolution, and symbol tables. Each is proved to return
//! exactly what the spec-level parser of `model` says for its byte range.

use vstd::prelude::*;
use crate::constants::{
    SECTION_WIDTH, SEGMENT_FIXED_WIDTH, SYMBOL_ENTRY_WIDTH, SYMTAB_FIXED_WIDTH,
};
use crate::model::{
    spec_resolve_all, spec_resolve_name, spec_section, spec_sections, spec_segment,
    spec_sym_entries, spec_symtab, lemma_first_nul_is,
};
use crate::reader::{
    build_slice, bytes_to_string, read_i16, read_i32, read_name, read_u32, read_u64, read_u8,
};
use crate::{ok_view, views_of, FormatError, Section, SegmentCommand, SymbolTable, SymbolTableEntry};

verus! {

/// Decodes the fixed-width section record at `pos`.
fn decode_section(bytes: &[u8], pos: usize) -> (s: Section)
    requires
        pos + SECTION_WIDTH <= bytes@.len(),
    ensures
        s@ == spec_section(bytes@, pos as int),
{
    let n = bytes.len();
    assert(pos + SECTION_WIDTH <= n);
    Section {
        sectname: read_name(bytes, pos),
        segname: read_name(bytes, pos + 16),
        addr: read_u64(bytes, pos + 32),
        size: read_u64(bytes, pos + 40),
        offset: read_u32(bytes, pos + 48),
        align: read_u32(bytes, pos + 52),
        reloff: read_u32(bytes, pos + 56),
        nreloc: read_u32(bytes, pos + 60),
        flags: read_u32(bytes, pos + 64),
        reserved1: read_u32(bytes, pos + 68),
        reserved2: read_u32(bytes, pos + 72),
        reserved3: read_u32(bytes, pos + 76),
    }
}

/// Decodes whole section records from the `len` bytes at `pos` until fewer
/// bytes than one record remain.
fn decode_sections(bytes: &[u8], pos: usize, len: usize) -> (v: Vec<Section>)
    requires
        pos + len <= bytes@.len(),
    ensures
        views_of(v@) == spec_sections(bytes@, pos as int, len as int),
{
    let n = bytes.len();
    let mut v: Vec<Section> = Vec::new();
    let mut off = pos;
    let mut rem = len;
    proof {
        assert(views_of(v@) =~= Seq::<crate::model::SpecSection>::empty());
        assert(views_of(v@) + spec_sections(bytes@, pos as int, len as int) =~= spec_sections(
            bytes@,
            pos as int,
            len as int,
        ));
    }
    while rem >= SECTION_WIDTH
        invariant
            pos + len <= n == bytes@.len(),
            rem <= len,
            off == pos + len - rem,
            spec_sections(bytes@, pos as int, len as int) == views_of(v@) + spec_sections(
                bytes@,
                off as int,
                rem as int,
            ),
        decreases rem,
    {
        let ghost old_views = views_of(v@);
        let s = decode_section(bytes, off);
        v.push(s);
        proof {
            assert(views_of(v@) =~= old_views.push(s@));
            assert(old_views + (seq![s@] + spec_sections(
                bytes@,
                off + SECTION_WIDTH,
                rem - SECTION_WIDTH,
            )) =~= old_views.push(s@) + spec_sections(
                bytes@,
                off + SECTION_WIDTH,
                rem - SECTION_WIDTH,
            ));
        }
        off = off + SECTION_WIDTH;
        rem = rem - SECTION_WIDTH;
    }
    proof {
        assert(views_of(v@) + spec_sections(bytes@, off as int, rem as int) =~= views_of(v@));
    }
    v
}

/// Decodes the segment load command whose record occupies
/// `[pos, pos + cmdsize)`: the fixed fields, then its trailing section
/// array, cross-checked against the declared section count.
pub(crate) fn decode_segment(bytes: &[u8], pos: usize, cmdsize: u32) -> (r: Result<
    SegmentCommand,
    FormatError,
>)
    requires
        8 <= cmdsize,
        pos + cmdsize <= bytes@.len(),
    ensures
        ok_view(r) == spec_segment(bytes@, pos as int, cmdsize as int),
{
    let n = bytes.len();
    if (cmdsize as usize) < SEGMENT_FIXED_WIDTH {
        return Err(FormatError::Truncated);
    }
    let sect_len = cmdsize as usize - SEGMENT_FIXED_WIDTH;
    let sections = decode_sections(bytes, pos + SEGMENT_FIXED_WIDTH, sect_len);
    let nsects = read_u32(bytes, pos + 64);
    assert(views_of(sections@).len() == sections@.len());
    if sections.len() != nsects as usize {
        return Err(FormatError::SectionCountMismatch);
    }
    if sect_len % SECTION_WIDTH != 0 {
        return Err(FormatError::TrailingBytes);
    }
    Ok(
        SegmentCommand {
            cmd: read_u32(bytes, pos),
            cmdsize: read_u32(bytes, pos + 4),
            segname: read_name(bytes, pos + 8),
            vmaddr: read_u64(bytes, pos + 24),
            vmsize: read_u64(bytes, pos + 32),
            fileoff: read_u64(bytes, pos + 40),
            filesize: read_u64(bytes, pos + 48),
            maxprot: read_i32(bytes, pos + 56),
            initprot: read_i32(bytes, pos + 60),
            nsects,
            flags: read_u32(bytes, pos + 68),
            sections,
        },
    )
}

/// Resolves the name a string-table index denotes: the text from the index
/// to the next null terminator of the table.
fn resolve_name(strtab: &[u8], n_strx: i32) -> (r: Result<String, FormatError>)
    ensures
        ok_view(r) == spec_resolve_name(strtab@, n_strx as int),
{
    if n_strx < 0 {
        return Err(FormatError::BadStringOffset);
    }
    let idx = n_strx as usize;
    let n = strtab.len();
    if idx >= n {
        return Err(FormatError::BadStringOffset);
    }
    let ghost tail = strtab@.skip(idx as int);
    let mut j = idx;
    while j < n && strtab[j] != 0
        invariant
            idx <= j <= n == strtab@.len(),
            tail == strtab@.skip(idx as int),
            forall|k: int| 0 <= k < j - idx ==> tail[k] != 0,
        decreases n - j,
    {
        assert(tail[j - idx] == strtab@[j as int]);
        j = j + 1;
    }
    proof {
        if j < n {
            assert(tail[j - idx] == strtab@[j as int]);
        }
        lemma_first_nul_is(tail, j - idx);
    }
    if j == n {
        return Err(FormatError::UnterminatedString);
    }
    let name = bytes_to_string(strtab, idx, j);
    proof {
        assert(strtab@.subrange(idx as int, j as int) =~= tail.take(j - idx));
    }
    Ok(name)
}

/// Decodes `nsyms` fixed-width symbol entries starting at the absolute
/// offset `symoff`, their names still unresolved.
fn decode_sym_entries(bytes: &[u8], symoff: usize, nsyms: u32) -> (v: Vec<SymbolTableEntry>)
    requires
        symoff + nsyms * SYMBOL_ENTRY_WIDTH <= bytes@.len(),
    ensures
        views_of(v@) == spec_sym_entries(bytes@, symoff as int, nsyms as nat),
{
    let n = bytes.len();
    let mut v: Vec<SymbolTableEntry> = Vec::new();
    let mut off = symoff;
    let mut i: u32 = 0;
    proof {
        assert(views_of(v@) =~= Seq::<crate::model::SpecSymbolEntry>::empty());
        assert(views_of(v@) + spec_sym_entries(bytes@, symoff as int, nsyms as nat) =~= spec_sym_entries(
            bytes@,
            symoff as int,
            nsyms as nat,
        ));
    }
    while i < nsyms
        invariant
            symoff + nsyms * SYMBOL_ENTRY_WIDTH <= n == bytes@.len(),
            i <= nsyms,
            off == symoff + i * SYMBOL_ENTRY_WIDTH,
            spec_sym_entries(bytes@, symoff as int, nsyms as nat) == views_of(v@)
                + spec_sym_entries(bytes@, off as int, (nsyms - i) as nat),
        decreases nsyms - i,
    {
        let ghost old_views = views_of(v@);
        assert(off + SYMBOL_ENTRY_WIDTH <= n) by (nonlinear_arith)
            requires
                off == symoff + i * SYMBOL_ENTRY_WIDTH,
                i < nsyms,
                symoff + nsyms * SYMBOL_ENTRY_WIDTH <= n,
        ;
        let e = SymbolTableEntry {
            n_strx: read_i32(bytes, off),
            n_type: read_u8(bytes, off + 4),
            n_sect: read_u8(bytes, off + 5),
            n_desc: read_i16(bytes, off + 6),
            n_value: read_u64(bytes, off + 8),
            symbol: String::new(),
        };
        v.push(e);
        proof {
            assert(e@ == crate::model::spec_sym_entry(bytes@, off as int));
            assert(views_of(v@) =~= old_views.push(e@));
            assert(old_views + (seq![e@] + spec_sym_entries(
                bytes@,
                off + SYMBOL_ENTRY_WIDTH,
                (nsyms - i - 1) as nat,
            )) =~= old_views.push(e@) + spec_sym_entries(
                bytes@,
                off + SYMBOL_ENTRY_WIDTH,
                (nsyms - i - 1) as nat,
            ));
        }
        off = off + SYMBOL_ENTRY_WIDTH;
        i = i + 1;
    }
    proof {
        assert(views_of(v@) + spec_sym_entries(bytes@, off as int, 0) =~= views_of(v@));
    }
    v
}

/// Resolves every entry's name against the string table, in entry order;
/// the first entry that fails decides the error.
fn resolve_entries(strtab: &[u8], entries: Vec<SymbolTableEntry>) -> (r: Result<
    Vec<SymbolTableEntry>,
    FormatError,
>)
    ensures
        r matches Ok(v) ==> spec_resolve_all(strtab@, views_of(entries@)) == Ok::<
            _,
            FormatError,
        >(views_of(v@)),
        r matches Err(e) ==> spec_resolve_all(strtab@, views_of(entries@)) == Err::<
            Seq<crate::model::SpecSymbolEntry>,
            _,
        >(e),
{
    let ghost orig = views_of(entries@);
    let mut out: Vec<SymbolTableEntry> = Vec::new();
    let mut i: usize = 0;
    let m = entries.len();
    proof {
        assert(orig.skip(0) =~= orig);
    }
    while i < m
        invariant
            i <= m == entries@.len(),
            orig == views_of(entries@),
            spec_resolve_all(strtab@, orig) == match spec_resolve_all(strtab@, orig.skip(i as int)) {
                Err(e) => Err(e),
                Ok(rest) => Ok(views_of(out@) + rest),
            },
        decreases m - i,
    {
        let ghost old_views = views_of(out@);
        let ghost rem = orig.skip(i as int);
        proof {
            assert(rem[0] == orig[i as int]);
            assert(rem.drop_first() =~= orig.skip(i + 1));
        }
        let e = &entries[i];
        let name = match resolve_name(strtab, e.n_strx) {
            Err(err) => {
                proof {
                    assert(spec_resolve_all(strtab@, rem) == Err::<
                        Seq<crate::model::SpecSymbolEntry>,
                        _,
                    >(err));
                }
                return Err(err);
            },
            Ok(name) => name,
        };
        let resolved = SymbolTableEntry {
            n_strx: e.n_strx,
            n_type: e.n_type,
            n_sect: e.n_sect,
            n_desc: e.n_desc,
            n_value: e.n_value,
            symbol: name,
        };
        out.push(resolved);
        proof {
            assert(views_of(out@) =~= old_views.push(resolved@));
            if let Ok(rest) = spec_resolve_all(strtab@, orig.skip(i + 1)) {
                assert(old_views + (seq![resolved@] + rest) =~= old_views.push(resolved@) + rest);
            }
        }
        i = i + 1;
    }
    proof {
        assert(orig.skip(i as int) =~= Seq::<crate::model::SpecSymbolEntry>::empty());
        assert(views_of(out@) + Seq::<crate::model::SpecSymbolEntry>::empty() =~= views_of(out@));
    }
    Ok(out)
}

/// Decodes the symbol-table command at `pos`: its fixed fields, the symbol
/// array they address absolutely in the original buffer, and every entry's
/// name from the string table.
pub(crate) fn decode_symtab(bytes: &[u8], pos: usize) -> (r: Result<SymbolTable, FormatError>)
    ensures
        ok_view(r) == spec_symtab(bytes@, pos as int),
{
    let n = bytes.len();
    if n < SYMTAB_FIXED_WIDTH || pos > n - SYMTAB_FIXED_WIDTH {
        return Err(FormatError::Truncated);
    }
    let symoff = read_u32(bytes, pos + 8);
    let nsyms = read_u32(bytes, pos + 12);
    let stroff = read_u32(bytes, pos + 16);
    let strsize = read_u32(bytes, pos + 20);
    if symoff as u64 + nsyms as u64 * SYMBOL_ENTRY_WIDTH as u64 > n as u64 {
        return Err(FormatError::Truncated);
    }
    if stroff as u64 + strsize as u64 > n as u64 {
        return Err(FormatError::Truncated);
    }
    let entries = decode_sym_entries(bytes, symoff as usize, nsyms);
    let strtab = build_slice(bytes, stroff as usize, strsize as usize);
    match resolve_entries(strtab, entries) {
        Err(e) => Err(e),
        Ok(resolved) => Ok(
            SymbolTable {
                cmd: read_u32(bytes, pos),
                cmdsize: read_u32(bytes, pos + 4),
                symoff,
                nsyms,
                stroff,
                strsize,
                entries: resolved,
            },
        ),
    }
}

} // verus!
