//! Introspection of the produced shared object.
//!
//! The binding generator reads the object's dynamic symbol table to learn the
//! offset of every entry point, and the post-build checks read the header and
//! the section table. Both work on the raw bytes of the file; this module
//! holds the byte-level reading of the 64-bit little-endian ELF format that
//! they share.

use vstd::prelude::*;
use vstd::string::StringSliceAdditionalSpecFns;

verus! {

broadcast use vstd::string::is_ascii_spec_bytes;

/// The 16-bit little-endian value at `off`.
pub open spec fn le16(s: Seq<u8>, off: int) -> int {
    s[off] + 0x100 * s[off + 1]
}

/// The 32-bit little-endian value at `off`.
pub open spec fn le32(s: Seq<u8>, off: int) -> int {
    s[off] + 0x100 * s[off + 1] + 0x10000 * s[off + 2] + 0x1000000 * s[off + 3]
}

/// The 64-bit little-endian value at `off`.
pub open spec fn le64(s: Seq<u8>, off: int) -> int {
    le32(s, off) + 0x100000000 * le32(s, off + 4)
}

fn read_u16(b: &[u8], off: usize) -> (r: u16)
    requires
        off + 2 <= b@.len(),
    ensures
        r == le16(b@, off as int),
{
    (b[off] as u16) + 0x100 * (b[off + 1] as u16)
}

fn read_u32(b: &[u8], off: usize) -> (r: u32)
    requires
        off + 4 <= b@.len(),
    ensures
        r == le32(b@, off as int),
{
    (b[off] as u32) + 0x100 * (b[off + 1] as u32) + 0x10000 * (b[off + 2] as u32) + 0x1000000
        * (b[off + 3] as u32)
}

fn read_u64(b: &[u8], off: usize) -> (r: u64)
    requires
        off + 8 <= b@.len(),
    ensures
        r == le64(b@, off as int),
{
    let n = b.len();
    assert(off + 8 <= n);
    let lo = read_u32(b, off);
    let hi = read_u32(b, off + 4);
    (lo as u64) + 0x100000000 * (hi as u64)
}

/// Holds when the bytes begin with a well-formed header of a 64-bit
/// little-endian ELF object.
pub open spec fn header_valid(s: Seq<u8>) -> bool {
    &&& s.len() >= 64
    &&& s[0] == 0x7f
    &&& s[1] == 0x45
    &&& s[2] == 0x4c
    &&& s[3] == 0x46
    &&& s[4] == 2
    &&& s[5] == 1
}

/// The object type field of the header.
pub open spec fn spec_e_type(s: Seq<u8>) -> int {
    le16(s, 16)
}

/// The file offset of the program header table.
pub open spec fn spec_e_phoff(s: Seq<u8>) -> int {
    le64(s, 32)
}

/// The size of one program header.
pub open spec fn spec_e_phentsize(s: Seq<u8>) -> int {
    le16(s, 54)
}

/// The number of program headers.
pub open spec fn spec_e_phnum(s: Seq<u8>) -> int {
    le16(s, 56)
}

/// The file offset of the section header table.
pub open spec fn spec_e_shoff(s: Seq<u8>) -> int {
    le64(s, 40)
}

/// The size of one section header.
pub open spec fn spec_e_shentsize(s: Seq<u8>) -> int {
    le16(s, 58)
}

/// The number of section headers.
pub open spec fn spec_e_shnum(s: Seq<u8>) -> int {
    le16(s, 60)
}

/// The index of the section that holds the section names.
pub open spec fn spec_e_shstrndx(s: Seq<u8>) -> int {
    le16(s, 62)
}

/// Position independence: the object is a shared object (`ET_DYN`).
pub open spec fn spec_is_pie(s: Seq<u8>) -> bool {
    header_valid(s) && spec_e_type(s) == 3
}

/// Says whether the bytes are a position-independent 64-bit ELF object:
/// a well-formed header whose type is `ET_DYN`.
pub fn check_pie(b: &[u8]) -> (r: bool)
    ensures
        r == spec_is_pie(b@),
{
    if b.len() < 64 {
        return false;
    }
    if !(b[0] == 0x7f && b[1] == 0x45 && b[2] == 0x4c && b[3] == 0x46 && b[4] == 2 && b[5]
        == 1) {
        return false;
    }
    read_u16(b, 16) == 3
}

/// The file offset of section header `i`.
pub open spec fn spec_sh_off(s: Seq<u8>, i: int) -> int {
    spec_e_shoff(s) + 64 * i
}

/// The name-table offset of the name of section `i`.
pub open spec fn spec_sh_name(s: Seq<u8>, i: int) -> int {
    le32(s, spec_sh_off(s, i))
}

/// The load address of section `i`.
pub open spec fn spec_sh_addr(s: Seq<u8>, i: int) -> int {
    le64(s, spec_sh_off(s, i) + 16)
}

/// The file offset of the contents of section `i`.
pub open spec fn spec_sh_offset(s: Seq<u8>, i: int) -> int {
    le64(s, spec_sh_off(s, i) + 24)
}

/// The size in bytes of section `i`.
pub open spec fn spec_sh_size(s: Seq<u8>, i: int) -> int {
    le64(s, spec_sh_off(s, i) + 32)
}

/// The file offset of the section-name string table.
pub open spec fn spec_shstrtab_off(s: Seq<u8>) -> int {
    spec_sh_offset(s, spec_e_shstrndx(s))
}

/// Holds when the section table can be walked: the header is well formed,
/// section headers have the 64-bit size, the table lies inside the file, and
/// the section-name string table exists and starts inside the file.
pub open spec fn sections_wf(s: Seq<u8>) -> bool {
    &&& header_valid(s)
    &&& spec_e_shentsize(s) == 64
    &&& spec_e_shoff(s) + 64 * spec_e_shnum(s) <= s.len()
    &&& spec_e_shstrndx(s) < spec_e_shnum(s)
    &&& spec_shstrtab_off(s) <= s.len()
}

/// Holds when the zero-terminated byte string at `off` spells `name`.
pub open spec fn cstr_matches(s: Seq<u8>, off: int, name: Seq<char>) -> bool {
    &&& 0 <= off
    &&& off + name.len() < s.len()
    &&& forall|j: int| 0 <= j < name.len() ==> s[off + j] == name[j] as u8
    &&& s[off + name.len()] == 0
}

/// Holds when section `i` is named `name`.
pub open spec fn section_name_matches(s: Seq<u8>, i: int, name: Seq<char>) -> bool {
    cstr_matches(s, spec_shstrtab_off(s) + spec_sh_name(s, i), name)
}

/// The first section named `name` at or after index `i`.
pub open spec fn first_section_from(s: Seq<u8>, name: Seq<char>, i: int) -> Option<int>
    decreases spec_e_shnum(s) - i,
{
    if i < 0 || i >= spec_e_shnum(s) {
        None
    } else if section_name_matches(s, i, name) {
        Some(i)
    } else {
        first_section_from(s, name, i + 1)
    }
}

/// The index of the first section named `name`, if the section table can be
/// walked at all.
pub open spec fn spec_find_section(s: Seq<u8>, name: Seq<char>) -> Option<int> {
    if sections_wf(s) {
        first_section_from(s, name, 0)
    } else {
        None
    }
}

/// Address, file position and size of one section.
pub struct SectionInfo {
    /// Load address of the section.
    pub addr: u64,
    /// Offset of the section's contents in the file.
    pub offset: u64,
    /// Size of the section's contents in bytes.
    pub size: u64,
}

/// Compares the zero-terminated byte string at `off` with `name`.
fn cstr_eq_at(b: &[u8], off: usize, name: &str) -> (r: bool)
    requires
        name.is_ascii(),
        off <= b@.len(),
    ensures
        r == cstr_matches(b@, off as int, name@),
{
    let blen = b.len();
    let nb: &[u8] = name.as_bytes();
    let n = nb.len();
    let mut j: usize = 0;
    while j < n
        invariant
            name.is_ascii(),
            nb@ == name.spec_bytes(),
            n == nb@.len(),
            n == name@.len(),
            blen == b@.len(),
            off + j <= blen,
            j <= n,
            forall|t: int| 0 <= t < j ==> b@[off + t] == name@[t] as u8,
        decreases n - j,
    {
        if off + j == blen {
            return false;
        }
        if b[off + j] != nb[j] {
            return false;
        }
        j += 1;
    }
    if n < blen - off {
        b[off + n] == 0
    } else {
        false
    }
}

/// Finds the first section named `name`, walking the section table as the
/// header describes it. Returns its address, file offset and size.
pub fn find_section(b: &[u8], name: &str) -> (r: Option<SectionInfo>)
    requires
        name.is_ascii(),
    ensures
        match r {
            Some(info) => {
                &&& spec_find_section(b@, name@) is Some
                &&& info.addr == spec_sh_addr(b@, spec_find_section(b@, name@)->Some_0)
                &&& info.offset == spec_sh_offset(b@, spec_find_section(b@, name@)->Some_0)
                &&& info.size == spec_sh_size(b@, spec_find_section(b@, name@)->Some_0)
            },
            None => spec_find_section(b@, name@) is None,
        },
{
    if b.len() < 64 {
        return None;
    }
    if !(b[0] == 0x7f && b[1] == 0x45 && b[2] == 0x4c && b[3] == 0x46 && b[4] == 2 && b[5]
        == 1) {
        return None;
    }
    let shentsize = read_u16(b, 58);
    if shentsize != 64 {
        return None;
    }
    let shoff = read_u64(b, 40);
    let shnum = read_u16(b, 60) as u64;
    let shstrndx = read_u16(b, 62) as u64;
    let len = b.len() as u64;
    if shoff > len || 64 * shnum > len - shoff {
        return None;
    }
    if shstrndx >= shnum {
        return None;
    }
    let strtab_off = read_u64(b, (shoff + 64 * shstrndx) as usize + 24);
    if strtab_off > len {
        return None;
    }
    assert(sections_wf(b@));
    let blen = b.len();
    let mut i: u64 = 0;
    while i < shnum
        invariant
            sections_wf(b@),
            name.is_ascii(),
            0 <= i <= shnum,
            shnum == spec_e_shnum(b@),
            shoff == spec_e_shoff(b@),
            strtab_off == spec_shstrtab_off(b@),
            len == b@.len(),
            len == blen,
            first_section_from(b@, name@, 0) == first_section_from(b@, name@, i as int),
        decreases shnum - i,
    {
        assert(64 * i + 64 <= 64 * spec_e_shnum(b@));
        assert(shoff + 64 * i + 64 <= blen);
        let sh = (shoff + 64 * i) as usize;
        assert(sh == spec_sh_off(b@, i as int));
        assert(sh + 64 <= blen);
        let sh_name = read_u32(b, sh) as u64;
        assert(sh_name == spec_sh_name(b@, i as int));
        let matched = if sh_name <= u64::MAX - strtab_off && strtab_off + sh_name <= len {
            cstr_eq_at(b, (strtab_off + sh_name) as usize, name)
        } else {
            proof {
                assert(!cstr_matches(b@, spec_shstrtab_off(b@) + spec_sh_name(b@, i as int), name@));
            }
            false
        };
        if matched {
            return Some(
                SectionInfo {
                    addr: read_u64(b, sh + 16),
                    offset: read_u64(b, sh + 24),
                    size: read_u64(b, sh + 32),
                },
            );
        }
        i += 1;
    }
    None
}

} // verus!

verus! {

/// The index of the `.dynsym` section.
pub open spec fn spec_dynsym_idx(s: Seq<u8>) -> Option<int> {
    spec_find_section(s, ".dynsym"@)
}

/// The index of the `.dynstr` section.
pub open spec fn spec_dynstr_idx(s: Seq<u8>) -> Option<int> {
    spec_find_section(s, ".dynstr"@)
}

/// Holds when the dynamic symbol table can be read: the object has a
/// `.dynsym` and a `.dynstr` section and both lie inside the file.
pub open spec fn dyn_tables_wf(s: Seq<u8>) -> bool {
    &&& spec_dynsym_idx(s) is Some
    &&& spec_dynstr_idx(s) is Some
    &&& spec_sh_offset(s, spec_dynsym_idx(s)->Some_0) + spec_sh_size(
        s,
        spec_dynsym_idx(s)->Some_0,
    ) <= s.len()
    &&& spec_sh_offset(s, spec_dynstr_idx(s)->Some_0) <= s.len()
}

/// The file offset of the dynamic symbol table.
pub open spec fn spec_dynsym_off(s: Seq<u8>) -> int {
    spec_sh_offset(s, spec_dynsym_idx(s)->Some_0)
}

/// The number of entries of the dynamic symbol table (24 bytes each).
pub open spec fn spec_symbol_count(s: Seq<u8>) -> int {
    spec_sh_size(s, spec_dynsym_idx(s)->Some_0) / 24
}

/// The name-table offset of the name of symbol `j`.
pub open spec fn spec_st_name(s: Seq<u8>, j: int) -> int {
    le32(s, spec_dynsym_off(s) + 24 * j)
}

/// The value of symbol `j`: its offset from the object's load base.
pub open spec fn spec_st_value(s: Seq<u8>, j: int) -> int {
    le64(s, spec_dynsym_off(s) + 24 * j + 8)
}

/// Holds when symbol `j` is named `name`.
pub open spec fn symbol_name_matches(s: Seq<u8>, j: int, name: Seq<char>) -> bool {
    cstr_matches(
        s,
        spec_sh_offset(s, spec_dynstr_idx(s)->Some_0) + spec_st_name(s, j),
        name,
    )
}

/// The first symbol named `name` at or after index `j`.
pub open spec fn first_symbol_from(s: Seq<u8>, name: Seq<char>, j: int) -> Option<int>
    decreases spec_symbol_count(s) - j,
{
    if j < 0 || j >= spec_symbol_count(s) {
        None
    } else if symbol_name_matches(s, j, name) {
        Some(j)
    } else {
        first_symbol_from(s, name, j + 1)
    }
}

/// The value of the first dynamic symbol named `name`, and zero when no such
/// symbol exists. An entry point whose symbol is absent or has value zero is
/// treated as missing.
pub open spec fn spec_symbol_value(s: Seq<u8>, name: Seq<char>) -> int {
    match first_symbol_from(s, name, 0) {
        Some(j) => spec_st_value(s, j),
        None => 0,
    }
}

/// Locates the dynamic symbol table and its string table. Returns the
/// `.dynsym` and `.dynstr` sections exactly when both exist and lie inside
/// the file.
pub fn dyn_tables(b: &[u8]) -> (r: Option<(SectionInfo, SectionInfo)>)
    ensures
        r is Some <==> dyn_tables_wf(b@),
        r matches Some(t) ==> {
            &&& t.0.offset == spec_dynsym_off(b@)
            &&& t.0.size == spec_sh_size(b@, spec_dynsym_idx(b@)->Some_0)
            &&& t.1.offset == spec_sh_offset(b@, spec_dynstr_idx(b@)->Some_0)
        },
{
    proof {
        reveal_strlit(".dynsym");
        reveal_strlit(".dynstr");
    }
    let dynsym = match find_section(b, ".dynsym") {
        Some(info) => info,
        None => {
            return None;
        },
    };
    let dynstr = match find_section(b, ".dynstr") {
        Some(info) => info,
        None => {
            return None;
        },
    };
    let len = b.len() as u64;
    if dynsym.size > u64::MAX - dynsym.offset || dynsym.offset + dynsym.size > len {
        return None;
    }
    if dynstr.offset > len {
        return None;
    }
    Some((dynsym, dynstr))
}

/// Looks the symbol `name` up in the dynamic symbol table and returns its
/// value, or zero when no symbol of that name is defined.
pub fn symbol_value(b: &[u8], name: &str) -> (r: u64)
    requires
        dyn_tables_wf(b@),
        name.is_ascii(),
    ensures
        r == spec_symbol_value(b@, name@),
{
    let tables = dyn_tables(b).unwrap();
    let ds = tables.0;
    let st = tables.1;
    let blen = b.len();
    let count = ds.size / 24;
    let str_off = st.offset;
    let mut j: u64 = 0;
    while j < count
        invariant
            dyn_tables_wf(b@),
            name.is_ascii(),
            0 <= j <= count,
            count == spec_symbol_count(b@),
            ds.offset == spec_dynsym_off(b@),
            ds.size == spec_sh_size(b@, spec_dynsym_idx(b@)->Some_0),
            str_off == spec_sh_offset(b@, spec_dynstr_idx(b@)->Some_0),
            ds.offset + ds.size <= blen,
            str_off <= blen,
            blen == b@.len(),
            first_symbol_from(b@, name@, 0) == first_symbol_from(b@, name@, j as int),
        decreases count - j,
    {
        proof {
            vstd::arithmetic::div_mod::lemma_fundamental_div_mod(ds.size as int, 24);
        }
        assert(24 * j + 24 <= 24 * count);
        assert(ds.offset + 24 * j + 24 <= blen);
        let sym = (ds.offset + 24 * j) as usize;
        assert(sym == spec_dynsym_off(b@) + 24 * (j as int));
        let st_name = read_u32(b, sym) as u64;
        assert(st_name == spec_st_name(b@, j as int));
        let matched = if st_name <= u64::MAX - str_off && str_off + st_name <= blen as u64 {
            cstr_eq_at(b, (str_off + st_name) as usize, name)
        } else {
            proof {
                assert(!symbol_name_matches(b@, j as int, name@));
            }
            false
        };
        if matched {
            return read_u64(b, sym + 8);
        }
        j += 1;
    }
    0
}

} // verus!

verus! {

/// The offset of the page-anchor function within `.text`: the value of the
/// `get_code_base` symbol minus the address of the `.text` section. `None`
/// when the object cannot be read, the section or the symbol is missing, or
/// the symbol lies below the section.
pub open spec fn spec_anchor_offset(s: Seq<u8>) -> Option<int> {
    if dyn_tables_wf(s) {
        match spec_find_section(s, ".text"@) {
            Some(ti) => {
                let a = spec_sh_addr(s, ti);
                let v = spec_symbol_value(s, "get_code_base"@);
                if v != 0 && v >= a {
                    Some(v - a)
                } else {
                    None
                }
            },
            None => None,
        }
    } else {
        None
    }
}

/// The page-anchor invariant: the anchor function lies in the first page of
/// `.text`. Every shared-data accessor inside the object is wrong when this
/// fails, so the builder must refuse such an object.
pub open spec fn spec_anchor_ok(s: Seq<u8>) -> bool {
    match spec_anchor_offset(s) {
        Some(o) => o < 4096,
        None => false,
    }
}

/// Computes the offset of the page-anchor function `get_code_base` within
/// `.text`, reading both from the object's tables.
pub fn anchor_offset(b: &[u8]) -> (r: Option<u64>)
    ensures
        match r {
            Some(o) => spec_anchor_offset(b@) == Some(o as int),
            None => spec_anchor_offset(b@) is None,
        },
{
    if dyn_tables(b).is_none() {
        return None;
    }
    proof {
        reveal_strlit(".text");
        reveal_strlit("get_code_base");
    }
    let text = match find_section(b, ".text") {
        Some(info) => info,
        None => {
            return None;
        },
    };
    let v = symbol_value(b, "get_code_base");
    if v != 0 && v >= text.addr {
        Some(v - text.addr)
    } else {
        None
    }
}

/// Says whether the page-anchor invariant holds of the object: the
/// `get_code_base` symbol exists and lies within the first page of `.text`.
pub fn check_anchor(b: &[u8]) -> (r: bool)
    ensures
        r == spec_anchor_ok(b@),
{
    match anchor_offset(b) {
        Some(o) => o < 4096,
        None => false,
    }
}

/// The file offset of program header `i`.
pub open spec fn spec_ph_off(s: Seq<u8>, i: int) -> int {
    spec_e_phoff(s) + 56 * i
}

/// The type field of program header `i`.
pub open spec fn spec_p_type(s: Seq<u8>, i: int) -> int {
    le32(s, spec_ph_off(s, i))
}

/// The flags of program header `i`.
pub open spec fn spec_p_flags(s: Seq<u8>, i: int) -> int {
    le32(s, spec_ph_off(s, i) + 4)
}

/// The virtual address of segment `i`.
pub open spec fn spec_p_vaddr(s: Seq<u8>, i: int) -> int {
    le64(s, spec_ph_off(s, i) + 16)
}

/// The file size of segment `i`.
pub open spec fn spec_p_filesz(s: Seq<u8>, i: int) -> int {
    le64(s, spec_ph_off(s, i) + 32)
}

/// The memory size of segment `i`.
pub open spec fn spec_p_memsz(s: Seq<u8>, i: int) -> int {
    le64(s, spec_ph_off(s, i) + 40)
}

/// Holds when the program header table can be walked: the header is well
/// formed, program headers have the 64-bit size, and the table lies inside
/// the file.
pub open spec fn phs_wf(s: Seq<u8>) -> bool {
    &&& header_valid(s)
    &&& spec_e_phentsize(s) == 56
    &&& spec_e_phoff(s) + 56 * spec_e_phnum(s) <= s.len()
}

/// One loadable unit of the object, as the host's mapper sees it.
pub struct Segment {
    /// Type of the segment; loadable segments have type 1.
    pub p_type: u32,
    /// Permission flags of the segment.
    pub flags: u32,
    /// Virtual address of the segment, relative to the load base.
    pub vaddr: u64,
    /// Size of the segment in the file.
    pub filesz: u64,
    /// Size of the segment in memory. A segment of size zero is skipped when
    /// the host applies page protections.
    pub memsz: u64,
}

impl Segment {
    /// The segment is mapped executable.
    pub fn is_exec(&self) -> (r: bool)
        ensures
            r == (self.flags & 1 != 0),
    {
        self.flags & 1 != 0
    }

    /// The segment is mapped writable.
    pub fn is_write(&self) -> (r: bool)
        ensures
            r == (self.flags & 2 != 0),
    {
        self.flags & 2 != 0
    }

    /// The segment is mapped readable.
    pub fn is_read(&self) -> (r: bool)
        ensures
            r == (self.flags & 4 != 0),
    {
        self.flags & 4 != 0
    }
}

/// Holds when `seg` carries the fields of program header `i`.
pub open spec fn segment_matches(s: Seq<u8>, seg: Segment, i: int) -> bool {
    &&& seg.p_type == spec_p_type(s, i)
    &&& seg.flags == spec_p_flags(s, i)
    &&& seg.vaddr == spec_p_vaddr(s, i)
    &&& seg.filesz == spec_p_filesz(s, i)
    &&& seg.memsz == spec_p_memsz(s, i)
}

/// Reads the program header table: one segment per header, in table order.
/// `None` exactly when the table cannot be walked.
pub fn elf_segments(b: &[u8]) -> (r: Option<Vec<Segment>>)
    ensures
        r is Some <==> phs_wf(b@),
        r matches Some(v) ==> v@.len() == spec_e_phnum(b@) && forall|i: int|
            0 <= i < v@.len() ==> segment_matches(b@, #[trigger] v@[i], i),
{
    if b.len() < 64 {
        return None;
    }
    if !(b[0] == 0x7f && b[1] == 0x45 && b[2] == 0x4c && b[3] == 0x46 && b[4] == 2 && b[5]
        == 1) {
        return None;
    }
    let phentsize = read_u16(b, 54);
    if phentsize != 56 {
        return None;
    }
    let phoff = read_u64(b, 32);
    let phnum = read_u16(b, 56) as u64;
    let blen = b.len();
    let len = blen as u64;
    if phoff > len || 56 * phnum > len - phoff {
        return None;
    }
    assert(phs_wf(b@));
    let mut v: Vec<Segment> = Vec::new();
    let mut i: u64 = 0;
    while i < phnum
        invariant
            phs_wf(b@),
            0 <= i <= phnum,
            phnum == spec_e_phnum(b@),
            phoff == spec_e_phoff(b@),
            len == b@.len(),
            len == blen,
            v@.len() == i,
            forall|t: int| 0 <= t < i ==> segment_matches(b@, #[trigger] v@[t], t),
        decreases phnum - i,
    {
        assert(56 * i + 56 <= 56 * spec_e_phnum(b@));
        assert(phoff + 56 * i + 56 <= blen);
        let ph = (phoff + 56 * i) as usize;
        assert(ph == spec_ph_off(b@, i as int));
        let seg = Segment {
            p_type: read_u32(b, ph),
            flags: read_u32(b, ph + 4),
            vaddr: read_u64(b, ph + 16),
            filesz: read_u64(b, ph + 32),
            memsz: read_u64(b, ph + 40),
        };
        v.push(seg);
        i += 1;
    }
    Some(v)
}

} // verus!
