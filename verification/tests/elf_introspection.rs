use vdso_kit::elf::{anchor_offset, check_anchor, check_pie, dyn_tables, elf_segments, symbol_value};
use vdso_kit::gen_api::{api_rs_content, GenApiError};

fn put_u16(b: &mut Vec<u8>, off: usize, v: u16) {
    b[off] = (v & 0xff) as u8;
    b[off + 1] = (v >> 8) as u8;
}

fn put_u32(b: &mut Vec<u8>, off: usize, v: u32) {
    for k in 0..4 {
        b[off + k] = ((v >> (8 * k)) & 0xff) as u8;
    }
}

fn put_u64(b: &mut Vec<u8>, off: usize, v: u64) {
    for k in 0..8 {
        b[off + k] = ((v >> (8 * k)) & 0xff) as u8;
    }
}

fn put_bytes(b: &mut Vec<u8>, off: usize, s: &[u8]) {
    b[off..off + s.len()].copy_from_slice(s);
}

/// A minimal 64-bit little-endian shared object with a `.text` section at
/// address 0x1000 and three defined dynamic symbols:
/// `get_code_base` at `anchor_value`, `get_shared` at 0x1010 and
/// `set_shared` at 0x1020.
fn tiny_so(anchor_value: u64) -> Vec<u8> {
    let mut b = vec![0u8; 700];
    // Header.
    put_bytes(&mut b, 0, &[0x7f, 0x45, 0x4c, 0x46, 2, 1, 1, 0]);
    put_u16(&mut b, 16, 3); // ET_DYN
    put_u16(&mut b, 18, 0x3e);
    put_u32(&mut b, 20, 1);
    put_u64(&mut b, 40, 352); // section header table offset
    put_u16(&mut b, 52, 64);
    put_u16(&mut b, 58, 64); // section header size
    put_u16(&mut b, 60, 4); // section count
    put_u16(&mut b, 62, 3); // section-name table index
    // Section-name string table at 64.
    put_bytes(&mut b, 64, b"\0.text\0.dynsym\0.dynstr\0.shstrtab\0");
    // Dynamic string table at 128.
    put_bytes(&mut b, 128, b"\0get_code_base\0get_shared\0set_shared\0");
    // Dynamic symbol table at 192: a null entry and three defined symbols.
    put_u32(&mut b, 192 + 24, 1);
    put_u64(&mut b, 192 + 24 + 8, anchor_value);
    put_u32(&mut b, 192 + 48, 15);
    put_u64(&mut b, 192 + 48 + 8, 0x1010);
    put_u32(&mut b, 192 + 72, 26);
    put_u64(&mut b, 192 + 72 + 8, 0x1020);
    // Section headers at 352.
    let sh = 352;
    // .text
    put_u32(&mut b, sh, 1);
    put_u64(&mut b, sh + 16, 0x1000);
    put_u64(&mut b, sh + 24, 0x400);
    put_u64(&mut b, sh + 32, 0x100);
    // .dynsym
    put_u32(&mut b, sh + 64, 7);
    put_u64(&mut b, sh + 64 + 24, 192);
    put_u64(&mut b, sh + 64 + 32, 96);
    // .dynstr
    put_u32(&mut b, sh + 128, 15);
    put_u64(&mut b, sh + 128 + 24, 128);
    put_u64(&mut b, sh + 128 + 32, 37);
    // .shstrtab
    put_u32(&mut b, sh + 192, 23);
    put_u64(&mut b, sh + 192 + 24, 64);
    put_u64(&mut b, sh + 192 + 32, 33);
    b
}

#[test]
fn pie_check_accepts_et_dyn() {
    let b = tiny_so(0x1000);
    assert!(check_pie(&b));
}

#[test]
fn pie_check_refuses_executables() {
    let mut b = tiny_so(0x1000);
    put_u16(&mut b, 16, 2); // ET_EXEC
    assert!(!check_pie(&b));
    assert!(!check_pie(&[0u8; 10]));
}

#[test]
fn symbols_resolve_to_their_values() {
    let b = tiny_so(0x1000);
    assert!(dyn_tables(&b).is_some());
    assert_eq!(symbol_value(&b, "get_shared"), 0x1010);
    assert_eq!(symbol_value(&b, "set_shared"), 0x1020);
    assert_eq!(symbol_value(&b, "get_code_base"), 0x1000);
    assert_eq!(symbol_value(&b, "get_private"), 0);
    assert_eq!(symbol_value(&b, "get_share"), 0);
}

#[test]
fn anchor_in_first_page_passes() {
    let b = tiny_so(0x1800);
    assert_eq!(anchor_offset(&b), Some(0x800));
    assert!(check_anchor(&b));
    let exact = tiny_so(0x1000);
    assert_eq!(anchor_offset(&exact), Some(0));
    assert!(check_anchor(&exact));
}

#[test]
fn anchor_outside_first_page_fails() {
    let b = tiny_so(0x2000);
    assert_eq!(anchor_offset(&b), Some(0x1000));
    assert!(!check_anchor(&b));
}

#[test]
fn anchor_below_text_fails() {
    let b = tiny_so(0x800);
    assert_eq!(anchor_offset(&b), None);
    assert!(!check_anchor(&b));
}

#[test]
fn generated_api_for_one_entry_point() {
    let b = tiny_so(0x1000);
    let src = "#[unsafe(no_mangle)]\npub extern \"C\" fn get_shared() -> usize {\n    0\n}\n";
    let out = api_rs_content("vdso", src, &b).unwrap();
    let expected = r#"extern crate vdso;
pub use self::vdso::*;

struct VdsoVTable {
    pub get_shared: Option<fn() -> usize>,
}

static mut VDSO_VTABLE: VdsoVTable = VdsoVTable {
    get_shared: None,
};

pub unsafe fn init_vdso_vtable(base: u64) {
    // get_shared:
    let fn_ptr = base + 0x1010;
    #[cfg(feature = "log")]
    log::debug!("get_shared: 0x{:x}", fn_ptr);
    let f: fn() -> usize = unsafe { core::mem::transmute(fn_ptr) };
    unsafe { VDSO_VTABLE.get_shared  = Some(f); }

}
    
pub fn get_shared() -> usize {
    if let Some(f) = unsafe { VDSO_VTABLE.get_shared } {
        #[cfg(feature = "log")]
        log::debug!("Calling get_shared at 0x{:x}.", f as *const () as usize);
        f()
    } else {
        panic!("get_shared is not initialized")
    }
}
"#;
    assert_eq!(out, expected);
}

#[test]
fn generated_api_forwards_parameters() {
    let b = tiny_so(0x1000);
    let src = "#[unsafe(no_mangle)]\npub extern \"C\" fn set_shared(i: usize) {\n";
    let out = api_rs_content("vdso", src, &b).unwrap();
    assert!(out.contains("pub fn set_shared(i: usize) {"));
    assert!(out.contains("f(i)"));
    assert!(out.contains("let fn_ptr = base + 0x1020;"));
}

#[test]
fn missing_symbol_is_named() {
    let b = tiny_so(0x1000);
    let src = "#[unsafe(no_mangle)]\npub extern \"C\" fn get_private() -> usize {\n    0\n}\n";
    match api_rs_content("vdso", src, &b) {
        Err(GenApiError::MissingSymbol(name)) => assert_eq!(name, "get_private"),
        other => panic!("expected a missing-symbol refusal, got {:?}", other),
    }
}

#[test]
fn unreadable_object_is_refused() {
    let src = "#[unsafe(no_mangle)]\npub extern \"C\" fn get_shared() -> usize {\n    0\n}\n";
    match api_rs_content("vdso", src, &[0u8; 20]) {
        Err(GenApiError::ElfParse) => {}
        other => panic!("expected an object refusal, got {:?}", other),
    }
}

#[test]
fn segments_are_read_from_program_headers() {
    let mut b = vec![0u8; 200];
    put_bytes(&mut b, 0, &[0x7f, 0x45, 0x4c, 0x46, 2, 1, 1, 0]);
    put_u16(&mut b, 16, 3);
    put_u64(&mut b, 32, 64); // program header table offset
    put_u16(&mut b, 54, 56); // program header size
    put_u16(&mut b, 56, 2); // program header count
    // Segment 0: loadable, read + execute.
    put_u32(&mut b, 64, 1);
    put_u32(&mut b, 64 + 4, 5);
    put_u64(&mut b, 64 + 16, 0x0);
    put_u64(&mut b, 64 + 32, 0x500);
    put_u64(&mut b, 64 + 40, 0x500);
    // Segment 1: loadable, read + write, empty in memory.
    put_u32(&mut b, 120, 1);
    put_u32(&mut b, 120 + 4, 6);
    put_u64(&mut b, 120 + 16, 0x2000);
    put_u64(&mut b, 120 + 40, 0);
    let segs = elf_segments(&b).unwrap();
    assert_eq!(segs.len(), 2);
    assert_eq!(segs[0].p_type, 1);
    assert!(segs[0].is_read());
    assert!(segs[0].is_exec());
    assert!(!segs[0].is_write());
    assert_eq!(segs[0].memsz, 0x500);
    assert_eq!(segs[1].vaddr, 0x2000);
    assert!(segs[1].is_write());
    assert!(!segs[1].is_exec());
    assert_eq!(segs[1].memsz, 0);
    assert!(elf_segments(&[0u8; 30]).is_none());
}
