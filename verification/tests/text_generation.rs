use vdso_kit::build_config::BuildConfig;
use vdso_kit::gen_api;
use vdso_kit::gen_wrapper;
use vdso_kit::linker_script::gen_linker_script;

#[test]
fn linker_script_x86_64() {
    let s = gen_linker_script("x86_64");
    let expected = "OUTPUT_ARCH(i386:x86-64)

SECTIONS {
    . = SIZEOF_HEADERS;

    /* dynamic-linking read-only sections come first */
    .hash           : { *(.hash) }
    .gnu.hash       : { *(.gnu.hash) }
    .dynsym         : { *(.dynsym) }
    .dynstr         : { *(.dynstr) }
    .gnu.version    : { *(.gnu.version) }
    .gnu.version_d  : { *(.gnu.version_d) }
    .gnu.version_r  : { *(.gnu.version_r) }

    /* the dynamic segment stands on its own */
    .dynamic    : { *(.dynamic) }

    . = ALIGN(16);
    /* code, beginning with the page-anchor section */
    .text       : {
        *(.text.start)
        *(.text .text.*)
    }

    . = ALIGN(4K);
    /* read-only data */
    .rodata     : {
        *(.rodata .rodata.* .gnu.linkonce.r.*)
        *(.note.*)
    }

    . = ALIGN(4K);
    .plt : { *(.plt .plt.*) }

    . = ALIGN(4K);
    /* writable data on pages of its own */
    .data       : {
        *(.data .data.* .gnu.linkonce.d.*)
        *(.got.plt) *(.got)
    }

    . = ALIGN(4K);
    .bss        : {
        *(.bss .bss.* .gnu.linkonce.b.*)
        *(COMMON)
    }

    .eh_frame_hdr   : { *(.eh_frame_hdr) }
    .eh_frame   : { KEEP (*(.eh_frame)) }
}
";
    assert_eq!(s, expected);
}

#[test]
fn linker_script_arch_tokens() {
    assert!(gen_linker_script("riscv64").starts_with("OUTPUT_ARCH(riscv)\n"));
    assert!(gen_linker_script("aarch64").starts_with("OUTPUT_ARCH(aarch64)\n"));
    assert!(gen_linker_script("x86_64").starts_with("OUTPUT_ARCH(i386:x86-64)\n"));
}

#[test]
fn wrapper_crate_texts() {
    let c = BuildConfig::new("../vdso", "vdso");
    let toml = gen_wrapper::cargo_toml_content(&c, "/abs/vdso");
    let expected_toml = "[package]
name = \"vdso_wrapper\"
edition = \"2021\"

[lib]
crate-type = [\"cdylib\"]

[profile.dev]
panic = \"abort\"

[profile.release]
panic = \"abort\"

[dependencies]
vdso = { path = \"/abs/vdso\" }
";
    assert_eq!(toml, expected_toml);
    let lib_rs = gen_wrapper::lib_rs_content(&c);
    let expected_lib = "#![no_std]

pub use vdso::*;

#[panic_handler]
fn panic(_info: &core::panic::PanicInfo) -> ! {
    loop {}
}
";
    assert_eq!(lib_rs, expected_lib);
}

#[test]
fn api_crate_texts() {
    let mut c = BuildConfig::new("../vdso", "vdso");
    c.api_lib_name = String::from("libvdso");
    let toml = gen_api::cargo_toml_content(&c, "/abs/vdso");
    let expected_toml = "[package]
name = \"libvdso\"
edition = \"2021\"

[dependencies]
vdso = { path = \"/abs/vdso\" }
log = { version = \"0.4\", optional = true }

[features]
log = [\"dep:log\"]
default = []
";
    assert_eq!(toml, expected_toml);
    let lib_rs = gen_api::lib_rs_content(&c);
    assert_eq!(lib_rs, "#![no_std]\npub mod api;\npub use api::*;\n");
}

#[test]
fn hex_formatting() {
    assert_eq!(gen_api::hex_string(0), "0");
    assert_eq!(gen_api::hex_string(9), "9");
    assert_eq!(gen_api::hex_string(10), "a");
    assert_eq!(gen_api::hex_string(255), "ff");
    assert_eq!(gen_api::hex_string(0x1010), "1010");
    assert_eq!(gen_api::hex_string(0xdead_beef), "deadbeef");
    assert_eq!(gen_api::hex_string(u64::MAX), "ffffffffffffffff");
}
