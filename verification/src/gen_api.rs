//! Text of the generated binding crate.
//!
//! The binding crate gives callers a typed way into the shared object: a
//! vtable record with one optional function-pointer slot per entry point, a
//! process-wide instance of it, an initialization routine that fills every
//! slot from the load base and the offsets read out of `.dynsym`, and one
//! wrapper per entry point that forwards through its slot. The offsets are
//! known when the binding crate is generated, so initialization is an
//! unrolled sequence of additions.

use vstd::prelude::*;
use crate::build_config::BuildConfig;
use crate::entry_points::{join_args, spec_param_names, EntryPoint};

verus! {

/// The hexadecimal digit of value `d`.
pub open spec fn hex_char(d: int) -> char {
    if d == 0 {
        '0'
    } else if d == 1 {
        '1'
    } else if d == 2 {
        '2'
    } else if d == 3 {
        '3'
    } else if d == 4 {
        '4'
    } else if d == 5 {
        '5'
    } else if d == 6 {
        '6'
    } else if d == 7 {
        '7'
    } else if d == 8 {
        '8'
    } else if d == 9 {
        '9'
    } else if d == 10 {
        'a'
    } else if d == 11 {
        'b'
    } else if d == 12 {
        'c'
    } else if d == 13 {
        'd'
    } else if d == 14 {
        'e'
    } else {
        'f'
    }
}

/// The hexadecimal digits of `v`, most significant first, without a prefix.
pub open spec fn hex_digits(v: int) -> Seq<char>
    decreases v,
{
    if v < 16 {
        seq![hex_char(v)]
    } else {
        hex_digits(v / 16) + seq![hex_char(v % 16)]
    }
}

fn hex_digit_str(d: u64) -> (r: &'static str)
    requires
        d < 16,
    ensures
        r@ == seq![hex_char(d as int)],
{
    let r: &'static str = if d == 0 {
        proof {
            reveal_strlit("0");
        }
        "0"
    } else if d == 1 {
        proof {
            reveal_strlit("1");
        }
        "1"
    } else if d == 2 {
        proof {
            reveal_strlit("2");
        }
        "2"
    } else if d == 3 {
        proof {
            reveal_strlit("3");
        }
        "3"
    } else if d == 4 {
        proof {
            reveal_strlit("4");
        }
        "4"
    } else if d == 5 {
        proof {
            reveal_strlit("5");
        }
        "5"
    } else if d == 6 {
        proof {
            reveal_strlit("6");
        }
        "6"
    } else if d == 7 {
        proof {
            reveal_strlit("7");
        }
        "7"
    } else if d == 8 {
        proof {
            reveal_strlit("8");
        }
        "8"
    } else if d == 9 {
        proof {
            reveal_strlit("9");
        }
        "9"
    } else if d == 10 {
        proof {
            reveal_strlit("a");
        }
        "a"
    } else if d == 11 {
        proof {
            reveal_strlit("b");
        }
        "b"
    } else if d == 12 {
        proof {
            reveal_strlit("c");
        }
        "c"
    } else if d == 13 {
        proof {
            reveal_strlit("d");
        }
        "d"
    } else if d == 14 {
        proof {
            reveal_strlit("e");
        }
        "e"
    } else {
        proof {
            reveal_strlit("f");
        }
        "f"
    };
    proof {
        assert(r@ =~= seq![hex_char(d as int)]);
    }
    r
}

/// Formats `v` in hexadecimal, most significant digit first.
pub fn hex_string(v: u64) -> (r: String)
    ensures
        r@ == hex_digits(v as int),
    decreases v,
{
    if v < 16 {
        String::from_str(hex_digit_str(v))
    } else {
        let mut s = hex_string(v / 16);
        s.append(hex_digit_str(v % 16));
        s
    }
}

/// The head of the generated binding source: it re-exports the user crate so
/// that callers get the argument types.
pub open spec fn pub_use_text(pkg: Seq<char>) -> Seq<char> {
    "extern crate "@ + pkg + ";\npub use self::"@ + pkg + "::*;\n\n"@
}

/// One field of the vtable record: an optional function pointer of the entry
/// point's own signature.
pub open spec fn vtable_field_line(e: (Seq<char>, Seq<char>)) -> Seq<char> {
    "    pub "@ + e.0 + ": Option<fn"@ + e.1 + ">,\n"@
}

/// The fields of the vtable record, one per entry point.
pub open spec fn vtable_fields(es: Seq<(Seq<char>, Seq<char>)>) -> Seq<char>
    decreases es.len(),
{
    if es.len() == 0 {
        Seq::empty()
    } else {
        vtable_fields(es.drop_last()) + vtable_field_line(es.last())
    }
}

/// One initializer of the process-wide vtable value: every slot empty.
pub open spec fn none_line(e: (Seq<char>, Seq<char>)) -> Seq<char> {
    "    "@ + e.0 + ": None,\n"@
}

/// The initializers of the process-wide vtable value.
pub open spec fn none_lines(es: Seq<(Seq<char>, Seq<char>)>) -> Seq<char>
    decreases es.len(),
{
    if es.len() == 0 {
        Seq::empty()
    } else {
        none_lines(es.drop_last()) + none_line(es.last())
    }
}

/// One step of the initialization routine: add the entry point's recorded
/// offset to the load base, reinterpret, and store the slot.
pub open spec fn init_block(e: (Seq<char>, Seq<char>), v: u64) -> Seq<char> {
    "    // "@ + e.0 + ":\n    let fn_ptr = base + 0x"@ + hex_digits(v as int)
        + ";\n    #[cfg(feature = \"log\")]\n    log::debug!(\""@ + e.0
        + ": 0x{:x}\", fn_ptr);\n    let f: fn"@ + e.1
        + " = unsafe { core::mem::transmute(fn_ptr) };\n    unsafe { VDSO_VTABLE."@ + e.0
        + "  = Some(f); }\n\n"@
}

/// The unrolled body of the initialization routine.
pub open spec fn init_blocks(es: Seq<(Seq<char>, Seq<char>)>, vs: Seq<u64>) -> Seq<char>
    recommends
        es.len() == vs.len(),
    decreases es.len(),
{
    if es.len() == 0 {
        Seq::empty()
    } else {
        init_blocks(es.drop_last(), vs.drop_last()) + init_block(es.last(), vs.last())
    }
}

/// One wrapper: same signature as the entry point, forwards through the slot,
/// and aborts with a message naming the entry point when the slot is empty.
pub open spec fn wrapper_block(e: (Seq<char>, Seq<char>)) -> Seq<char> {
    "\npub fn "@ + e.0 + e.1 + " {\n    if let Some(f) = unsafe { VDSO_VTABLE."@ + e.0
        + " } {\n        #[cfg(feature = \"log\")]\n        log::debug!(\"Calling "@ + e.0
        + " at 0x{:x}.\", f as *const () as usize);\n        f("@ + join_args(
        spec_param_names(e.1),
    ) + ")\n    } else {\n        panic!(\""@ + e.0 + " is not initialized\")\n    }\n}\n"@
}

/// The wrappers, one per entry point.
pub open spec fn wrapper_blocks(es: Seq<(Seq<char>, Seq<char>)>) -> Seq<char>
    decreases es.len(),
{
    if es.len() == 0 {
        Seq::empty()
    } else {
        wrapper_blocks(es.drop_last()) + wrapper_block(es.last())
    }
}

/// The whole generated binding source, for the given package name, entry
/// points and recorded symbol offsets.
pub open spec fn api_text(pkg: Seq<char>, es: Seq<(Seq<char>, Seq<char>)>, vs: Seq<u64>) -> Seq<
    char,
> {
    pub_use_text(pkg) + "struct VdsoVTable {\n"@ + vtable_fields(es) + "}\n"@
        + "\nstatic mut VDSO_VTABLE: VdsoVTable = VdsoVTable {\n"@ + none_lines(es) + "};\n"@
        + "\npub unsafe fn init_vdso_vtable(base: u64) {\n"@ + init_blocks(es, vs) + "}\n    "@
        + wrapper_blocks(es)
}

} // verus!

verus! {

fn vtable_fields_exec(entries: &Vec<EntryPoint>) -> (r: String)
    ensures
        r@ == vtable_fields(entries@.map_values(|e: EntryPoint| e@)),
{
    let ghost m = entries@.map_values(|e: EntryPoint| e@);
    let mut s = String::new();
    let mut i: usize = 0;
    while i < entries.len()
        invariant
            i <= entries@.len(),
            m == entries@.map_values(|e: EntryPoint| e@),
            s@ == vtable_fields(m.take(i as int)),
        decreases entries@.len() - i,
    {
        s.append("    pub ");
        s.append(entries[i].name.as_str());
        s.append(": Option<fn");
        s.append(entries[i].sig.as_str());
        s.append(">,\n");
        proof {
            assert(m.take(i + 1).drop_last() =~= m.take(i as int));
            assert(m.take(i + 1).last() == m[i as int]);
            assert(s@ =~= vtable_fields(m.take(i + 1)));
        }
        i += 1;
    }
    proof {
        assert(m.take(entries@.len() as int) =~= m);
    }
    s
}

fn none_lines_exec(entries: &Vec<EntryPoint>) -> (r: String)
    ensures
        r@ == none_lines(entries@.map_values(|e: EntryPoint| e@)),
{
    let ghost m = entries@.map_values(|e: EntryPoint| e@);
    let mut s = String::new();
    let mut i: usize = 0;
    while i < entries.len()
        invariant
            i <= entries@.len(),
            m == entries@.map_values(|e: EntryPoint| e@),
            s@ == none_lines(m.take(i as int)),
        decreases entries@.len() - i,
    {
        s.append("    ");
        s.append(entries[i].name.as_str());
        s.append(": None,\n");
        proof {
            assert(m.take(i + 1).drop_last() =~= m.take(i as int));
            assert(m.take(i + 1).last() == m[i as int]);
            assert(s@ =~= none_lines(m.take(i + 1)));
        }
        i += 1;
    }
    proof {
        assert(m.take(entries@.len() as int) =~= m);
    }
    s
}

fn init_blocks_exec(entries: &Vec<EntryPoint>, values: &Vec<u64>) -> (r: String)
    requires
        entries@.len() == values@.len(),
    ensures
        r@ == init_blocks(entries@.map_values(|e: EntryPoint| e@), values@),
{
    let ghost m = entries@.map_values(|e: EntryPoint| e@);
    let mut s = String::new();
    let mut i: usize = 0;
    while i < entries.len()
        invariant
            i <= entries@.len(),
            entries@.len() == values@.len(),
            m == entries@.map_values(|e: EntryPoint| e@),
            s@ == init_blocks(m.take(i as int), values@.take(i as int)),
        decreases entries@.len() - i,
    {
        let hex = hex_string(values[i]);
        s.append("    // ");
        s.append(entries[i].name.as_str());
        s.append(":\n    let fn_ptr = base + 0x");
        s.append(hex.as_str());
        s.append(";\n    #[cfg(feature = \"log\")]\n    log::debug!(\"");
        s.append(entries[i].name.as_str());
        s.append(": 0x{:x}\", fn_ptr);\n    let f: fn");
        s.append(entries[i].sig.as_str());
        s.append(" = unsafe { core::mem::transmute(fn_ptr) };\n    unsafe { VDSO_VTABLE.");
        s.append(entries[i].name.as_str());
        s.append("  = Some(f); }\n\n");
        proof {
            assert(m.take(i + 1).drop_last() =~= m.take(i as int));
            assert(values@.take(i + 1).drop_last() =~= values@.take(i as int));
            assert(m.take(i + 1).last() == m[i as int]);
            assert(values@.take(i + 1).last() == values@[i as int]);
            assert(s@ =~= init_blocks(m.take(i + 1), values@.take(i + 1)));
        }
        i += 1;
    }
    proof {
        assert(m.take(entries@.len() as int) =~= m);
        assert(values@.take(values@.len() as int) =~= values@);
    }
    s
}

fn wrapper_blocks_exec(entries: &Vec<EntryPoint>) -> (r: String)
    ensures
        r@ == wrapper_blocks(entries@.map_values(|e: EntryPoint| e@)),
{
    let ghost m = entries@.map_values(|e: EntryPoint| e@);
    let mut s = String::new();
    let mut i: usize = 0;
    while i < entries.len()
        invariant
            i <= entries@.len(),
            m == entries@.map_values(|e: EntryPoint| e@),
            s@ == wrapper_blocks(m.take(i as int)),
        decreases entries@.len() - i,
    {
        let names = crate::entry_points::param_names(entries[i].sig.as_str());
        let args = crate::entry_points::join_params(&names);
        s.append("\npub fn ");
        s.append(entries[i].name.as_str());
        s.append(entries[i].sig.as_str());
        s.append(" {\n    if let Some(f) = unsafe { VDSO_VTABLE.");
        s.append(entries[i].name.as_str());
        s.append(" } {\n        #[cfg(feature = \"log\")]\n        log::debug!(\"Calling ");
        s.append(entries[i].name.as_str());
        s.append(" at 0x{:x}.\", f as *const () as usize);\n        f(");
        s.append(args.as_str());
        s.append(")\n    } else {\n        panic!(\"");
        s.append(entries[i].name.as_str());
        s.append(" is not initialized\")\n    }\n}\n");
        proof {
            assert(m.take(i + 1).drop_last() =~= m.take(i as int));
            assert(m.take(i + 1).last() == m[i as int]);
            assert(s@ =~= wrapper_blocks(m.take(i + 1)));
        }
        i += 1;
    }
    proof {
        assert(m.take(entries@.len() as int) =~= m);
    }
    s
}

} // verus!

verus! {

/// Why binding generation refused the produced object.
#[derive(Debug)]
pub enum GenApiError {
    /// The object could not be read as a 64-bit ELF shared object with a
    /// dynamic symbol table.
    ElfParse,
    /// An entry point declared in the source has no defined symbol in
    /// `.dynsym`; the missing symbol is named.
    MissingSymbol(String),
}

/// The first entry point, at or after index `i`, whose symbol is missing
/// from the object (absent, or of value zero).
pub open spec fn first_missing_idx(
    s: Seq<u8>,
    es: Seq<(Seq<char>, Seq<char>)>,
    i: int,
) -> Option<int>
    decreases es.len() - i,
{
    if i < 0 || i >= es.len() {
        None
    } else if crate::elf::spec_symbol_value(s, es[i].0) == 0 {
        Some(i)
    } else {
        first_missing_idx(s, es, i + 1)
    }
}

/// The recorded offset of every entry point's symbol, in declaration order.
pub open spec fn spec_symbol_values(s: Seq<u8>, es: Seq<(Seq<char>, Seq<char>)>) -> Seq<u64> {
    Seq::new(es.len(), |i: int| crate::elf::spec_symbol_value(s, es[i].0) as u64)
}

/// Generates the binding source: extracts the entry points declared in
/// `api_src`, resolves each against the dynamic symbol table of `so_bytes`,
/// and emits the vtable record, its process-wide instance, the unrolled
/// initialization routine, and one wrapper per entry point. Fails when the
/// object cannot be read, and when any entry point lacks a defined symbol —
/// naming, in that case, the first such entry point.
pub fn api_rs_content(package_name: &str, api_src: &str, so_bytes: &[u8]) -> (r: Result<
    String,
    GenApiError,
>)
    ensures
        match r {
            Ok(t) => {
                &&& crate::elf::dyn_tables_wf(so_bytes@)
                &&& first_missing_idx(
                    so_bytes@,
                    crate::entry_points::spec_entry_points(api_src@),
                    0,
                ) is None
                &&& t@ == api_text(
                    package_name@,
                    crate::entry_points::spec_entry_points(api_src@),
                    spec_symbol_values(
                        so_bytes@,
                        crate::entry_points::spec_entry_points(api_src@),
                    ),
                )
            },
            Err(GenApiError::ElfParse) => !crate::elf::dyn_tables_wf(so_bytes@),
            Err(GenApiError::MissingSymbol(n)) => {
                &&& crate::elf::dyn_tables_wf(so_bytes@)
                &&& match first_missing_idx(
                    so_bytes@,
                    crate::entry_points::spec_entry_points(api_src@),
                    0,
                ) {
                    Some(idx) => n@ == crate::entry_points::spec_entry_points(api_src@)[idx].0,
                    None => false,
                }
            },
        },
{
    let entries = crate::entry_points::scan_entry_points(api_src);
    let ghost m = entries@.map_values(|e: EntryPoint| e@);
    proof {
        crate::entry_points::lemma_entry_names_ascii(api_src@, 0);
    }
    if crate::elf::dyn_tables(so_bytes).is_none() {
        return Err(GenApiError::ElfParse);
    }
    let mut values: Vec<u64> = Vec::new();
    let mut i: usize = 0;
    while i < entries.len()
        invariant
            i <= entries@.len(),
            m == entries@.map_values(|e: EntryPoint| e@),
            m == crate::entry_points::spec_entry_points(api_src@),
            crate::elf::dyn_tables_wf(so_bytes@),
            forall|t: int|
                0 <= t < m.len() ==> vstd::utf8::is_ascii_chars(#[trigger] m[t].0),
            values@.len() == i,
            forall|t: int|
                0 <= t < i ==> values@[t] == crate::elf::spec_symbol_value(
                    so_bytes@,
                    #[trigger] m[t].0,
                ) && values@[t] != 0,
            first_missing_idx(so_bytes@, m, 0) == first_missing_idx(so_bytes@, m, i as int),
        decreases entries@.len() - i,
    {
        let v = crate::elf::symbol_value(so_bytes, entries[i].name.as_str());
        if v == 0 {
            return Err(GenApiError::MissingSymbol(entries[i].name.clone()));
        }
        values.push(v);
        i += 1;
    }
    proof {
        assert(values@ =~= spec_symbol_values(so_bytes@, m));
    }
    let mut s = String::from_str("extern crate ");
    s.append(package_name);
    s.append(";\npub use self::");
    s.append(package_name);
    s.append("::*;\n\n");
    s.append("struct VdsoVTable {\n");
    let fields = vtable_fields_exec(&entries);
    s.append(fields.as_str());
    s.append("}\n");
    s.append("\nstatic mut VDSO_VTABLE: VdsoVTable = VdsoVTable {\n");
    let nones = none_lines_exec(&entries);
    s.append(nones.as_str());
    s.append("};\n");
    s.append("\npub unsafe fn init_vdso_vtable(base: u64) {\n");
    let inits = init_blocks_exec(&entries, &values);
    s.append(inits.as_str());
    s.append("}\n    ");
    let wrappers = wrapper_blocks_exec(&entries);
    s.append(wrappers.as_str());
    proof {
        assert(s@ =~= api_text(package_name@, m, values@));
    }
    Ok(s)
}

/// The manifest of the generated binding crate: it depends on the user crate
/// by path and offers optional logging.
pub open spec fn api_cargo_toml_text(
    api_lib_name: Seq<char>,
    package_name: Seq<char>,
    src_dir: Seq<char>,
) -> Seq<char> {
    "[package]
name = \""@ + api_lib_name + "\"
edition = \"2021\"

[dependencies]
"@ + package_name + " = { path = \""@ + src_dir + "\" }
log = { version = \"0.4\", optional = true }

[features]
log = [\"dep:log\"]
default = []
"@
}

/// The root source of the generated binding crate.
pub open spec fn api_lib_rs_text() -> Seq<char> {
    "#![no_std]
pub mod api;
pub use api::*;
"@
}

/// Produces the binding crate's `Cargo.toml`. The source directory must
/// already be absolute.
pub fn cargo_toml_content(config: &BuildConfig, absolute_src_dir: &str) -> (r: String)
    ensures
        r@ == api_cargo_toml_text(config.api_lib_name@, config.package_name@, absolute_src_dir@),
{
    let mut s = String::from_str(
        "[package]
name = \"",
    );
    s.append(config.api_lib_name.as_str());
    s.append(
        "\"
edition = \"2021\"

[dependencies]
",
    );
    s.append(config.package_name.as_str());
    s.append(" = { path = \"");
    s.append(absolute_src_dir);
    s.append(
        "\" }
log = { version = \"0.4\", optional = true }

[features]
log = [\"dep:log\"]
default = []
",
    );
    s
}

/// Produces the binding crate's `lib.rs`.
pub fn lib_rs_content(_config: &BuildConfig) -> (r: String)
    ensures
        r@ == api_lib_rs_text(),
{
    String::from_str(
        "#![no_std]
pub mod api;
pub use api::*;
",
    )
}

} // verus!

verus! {

proof fn lemma_no_missing_from(s: Seq<u8>, es: Seq<(Seq<char>, Seq<char>)>, i: int)
    requires
        0 <= i,
        first_missing_idx(s, es, i) is None,
    ensures
        forall|t: int|
            i <= t < es.len() ==> crate::elf::spec_symbol_value(s, #[trigger] es[t].0) != 0,
    decreases es.len() - i,
{
    if 0 <= i < es.len() {
        lemma_no_missing_from(s, es, i + 1);
    }
}

/// Symbol completeness: when binding generation accepts an object, every
/// entry point declared in the source has a symbol of its own name in the
/// object's dynamic symbol table, with a value other than zero.
pub proof fn lemma_symbol_completeness(so: Seq<u8>, src: Seq<char>)
    requires
        first_missing_idx(so, crate::entry_points::spec_entry_points(src), 0) is None,
    ensures
        forall|i: int|
            0 <= i < crate::entry_points::spec_entry_points(src).len()
                ==> crate::elf::spec_symbol_value(
                so,
                #[trigger] crate::entry_points::spec_entry_points(src)[i].0,
            ) != 0,
{
    lemma_no_missing_from(so, crate::entry_points::spec_entry_points(src), 0);
}

} // verus!
