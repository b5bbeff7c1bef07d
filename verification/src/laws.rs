//! The guarantees the decoder gives beyond its exact contract, each proved
//! from the spec-level parser: count invariants of successful parses, the
//! terminal errors owed to malformed prefixes and symbol names, and
//! determinism.

use vstd::prelude::*;
use crate::constants::{
    HEADER_WIDTH, LC_SEGMENT_64_TAG, LC_UUID_TAG, MH_MAGIC_64, SYMBOL_ENTRY_WIDTH,
    SYMTAB_FIXED_WIDTH, UUID_COMMAND_WIDTH,
};
use crate::model::{
    le32_at, lemma_first_nul_is, spec_cmds, spec_header, spec_parse, spec_resolve_all,
    spec_resolve_name, spec_segment, spec_sym_entries, spec_symtab, SpecMach, SpecSymbolEntry,
};
use crate::{ok_view, FormatError, MachObject};

verus! {

proof fn lemma_cmds_segment_counts(b: Seq<u8>, pos: int, n: nat)
    ensures
        spec_cmds(b, pos, n) matches Ok(l) ==> forall|k: int|
            0 <= k < l.segments.len() ==> (#[trigger] l.segments[k]).sections.len()
                == l.segments[k].nsects,
    decreases n,
{
    if n == 0 || pos + 8 > b.len() {
    } else {
        let cmd = le32_at(b, pos);
        let cmdsize = le32_at(b, pos + 4);
        if cmdsize < 8 || pos + cmdsize > b.len() {
        } else {
            lemma_cmds_segment_counts(b, pos + cmdsize, (n - 1) as nat);
            if let Ok(l) = spec_cmds(b, pos, n) {
                if let Ok(rest) = spec_cmds(b, pos + cmdsize, (n - 1) as nat) {
                    if cmd == LC_SEGMENT_64_TAG {
                        if let Ok(seg) = spec_segment(b, pos, cmdsize) {
                            assert forall|k: int| 0 <= k < l.segments.len() implies (
                            #[trigger] l.segments[k]).sections.len() == l.segments[k].nsects by {
                                if k == 0 {
                                    assert(l.segments[k] == seg);
                                } else {
                                    assert(l.segments[k] == rest.segments[k - 1]);
                                }
                            }
                        }
                    } else {
                        assert(l.segments =~= rest.segments);
                    }
                }
            }
        }
    }
}

/// Every segment of a successfully parsed object holds exactly as many
/// sections as its declared section count says.
pub proof fn lemma_parse_section_counts(b: Seq<u8>, m: SpecMach)
    requires
        spec_parse(b) == Ok::<SpecMach, FormatError>(m),
    ensures
        forall|k: int|
            0 <= k < m.segments.len() ==> (#[trigger] m.segments[k]).sections.len()
                == m.segments[k].nsects,
{
    lemma_cmds_segment_counts(b, HEADER_WIDTH as int, spec_header(b).ncmds as nat);
}

proof fn lemma_sym_entries_len(b: Seq<u8>, pos: int, n: nat)
    ensures
        spec_sym_entries(b, pos, n).len() == n,
    decreases n,
{
    if n != 0 {
        lemma_sym_entries_len(b, pos + SYMBOL_ENTRY_WIDTH, (n - 1) as nat);
    }
}

proof fn lemma_resolve_all_len(strtab: Seq<u8>, entries: Seq<SpecSymbolEntry>)
    ensures
        spec_resolve_all(strtab, entries) matches Ok(res) ==> res.len() == entries.len(),
    decreases entries.len(),
{
    if entries.len() != 0 {
        lemma_resolve_all_len(strtab, entries.drop_first());
    }
}

proof fn lemma_symtab_count(b: Seq<u8>, pos: int)
    ensures
        spec_symtab(b, pos) matches Ok(st) ==> st.entries.len() == st.nsyms,
{
    if pos + SYMTAB_FIXED_WIDTH <= b.len() {
        let symoff = le32_at(b, pos + 8);
        let nsyms = le32_at(b, pos + 12);
        let stroff = le32_at(b, pos + 16);
        let strsize = le32_at(b, pos + 20);
        if symoff + nsyms * SYMBOL_ENTRY_WIDTH <= b.len() && stroff + strsize <= b.len() {
            let raw = spec_sym_entries(b, symoff, nsyms as nat);
            lemma_sym_entries_len(b, symoff, nsyms as nat);
            lemma_resolve_all_len(b.subrange(stroff, stroff + strsize), raw);
        }
    }
}

proof fn lemma_cmds_symbol_counts(b: Seq<u8>, pos: int, n: nat)
    ensures
        spec_cmds(b, pos, n) matches Ok(l) ==> forall|k: int|
            0 <= k < l.symtab.len() ==> (#[trigger] l.symtab[k]).entries.len()
                == l.symtab[k].nsyms,
    decreases n,
{
    if n == 0 || pos + 8 > b.len() {
    } else {
        let cmd = le32_at(b, pos);
        let cmdsize = le32_at(b, pos + 4);
        if cmdsize < 8 || pos + cmdsize > b.len() {
        } else {
            lemma_cmds_symbol_counts(b, pos + cmdsize, (n - 1) as nat);
            if let Ok(l) = spec_cmds(b, pos, n) {
                if let Ok(rest) = spec_cmds(b, pos + cmdsize, (n - 1) as nat) {
                    if cmd == crate::constants::LC_SYMTAB_TAG {
                        if let Ok(st) = spec_symtab(b, pos) {
                            lemma_symtab_count(b, pos);
                            assert forall|k: int| 0 <= k < l.symtab.len() implies (
                            #[trigger] l.symtab[k]).entries.len() == l.symtab[k].nsyms by {
                                if k == 0 {
                                    assert(l.symtab[k] == st);
                                } else {
                                    assert(l.symtab[k] == rest.symtab[k - 1]);
                                }
                            }
                        }
                    } else {
                        assert(l.symtab =~= rest.symtab);
                    }
                }
            }
        }
    }
}

/// Every symbol table of a successfully parsed object holds exactly as
/// many entries as its declared symbol count says.
pub proof fn lemma_parse_symbol_counts(b: Seq<u8>, m: SpecMach)
    requires
        spec_parse(b) == Ok::<SpecMach, FormatError>(m),
    ensures
        forall|k: int|
            0 <= k < m.symtab.len() ==> (#[trigger] m.symtab[k]).entries.len()
                == m.symtab[k].nsyms,
{
    lemma_cmds_symbol_counts(b, HEADER_WIDTH as int, spec_header(b).ncmds as nat);
}

proof fn lemma_cmds_uuid_width(b: Seq<u8>, pos: int, n: nat)
    requires
        0 <= pos,
    ensures
        spec_cmds(b, pos, n) matches Ok(l) ==> (l.uuid matches Some(u) ==> u.len() == 16),
    decreases n,
{
    if n == 0 || pos + 8 > b.len() {
    } else {
        let cmd = le32_at(b, pos);
        let cmdsize = le32_at(b, pos + 4);
        if cmdsize < 8 || pos + cmdsize > b.len() {
        } else {
            lemma_cmds_uuid_width(b, pos + cmdsize, (n - 1) as nat);
            if cmd == LC_UUID_TAG && cmdsize == UUID_COMMAND_WIDTH {
                assert(b.subrange(pos + 8, pos + 24).len() == 16);
            }
        }
    }
}

/// A parsed object's build identifier, when it is present at all, holds
/// exactly 16 bytes.
pub proof fn lemma_parse_uuid_width(b: Seq<u8>, m: SpecMach)
    requires
        spec_parse(b) == Ok::<SpecMach, FormatError>(m),
    ensures
        m.uuid matches Some(u) ==> u.len() == 16,
{
    lemma_cmds_uuid_width(b, HEADER_WIDTH as int, spec_header(b).ncmds as nat);
}

/// A buffer long enough to hold a magic number that is not the required
/// constant always decodes to `BadMagic`, whatever the rest of its bytes
/// hold.
pub proof fn lemma_bad_magic(b: Seq<u8>)
    requires
        b.len() >= 4,
        le32_at(b, 0) != MH_MAGIC_64,
    ensures
        spec_parse(b) == Err::<SpecMach, FormatError>(FormatError::BadMagic),
{
}

/// A buffer shorter than the fixed header always decodes to `Truncated`,
/// unless its first bytes already fail the magic check.
pub proof fn lemma_truncated_header(b: Seq<u8>)
    requires
        b.len() < HEADER_WIDTH,
        b.len() >= 4 ==> le32_at(b, 0) == MH_MAGIC_64,
    ensures
        spec_parse(b) == Err::<SpecMach, FormatError>(FormatError::Truncated),
{
}

/// A symbol name whose string index lies at or past the end of the string
/// table resolves to `BadStringOffset`.
pub proof fn lemma_bad_string_offset(strtab: Seq<u8>, idx: int)
    requires
        idx < 0 || idx >= strtab.len(),
    ensures
        spec_resolve_name(strtab, idx) == Err::<Seq<char>, FormatError>(
            FormatError::BadStringOffset,
        ),
{
}

/// A symbol name whose string index is inside the table, but from which no
/// null byte follows, resolves to `UnterminatedString`.
pub proof fn lemma_unterminated_string(strtab: Seq<u8>, idx: int)
    requires
        0 <= idx < strtab.len(),
        forall|k: int| idx <= k < strtab.len() ==> strtab[k] != 0,
    ensures
        spec_resolve_name(strtab, idx) == Err::<Seq<char>, FormatError>(
            FormatError::UnterminatedString,
        ),
{
    let tail = strtab.skip(idx);
    assert forall|k: int| 0 <= k < tail.len() implies tail[k] != 0 by {
        assert(tail[k] == strtab[k + idx]);
    }
    lemma_first_nul_is(tail, tail.len() as int);
}

/// Decoding is a pure function of the buffer: any two results that meet
/// the decoder's contract on the same bytes are the same, field for field.
pub proof fn lemma_parse_deterministic(
    b: Seq<u8>,
    r1: Result<MachObject, FormatError>,
    r2: Result<MachObject, FormatError>,
)
    requires
        ok_view(r1) == spec_parse(b),
        ok_view(r2) == spec_parse(b),
    ensures
        ok_view(r1) == ok_view(r2),
{
}

} // verus!

