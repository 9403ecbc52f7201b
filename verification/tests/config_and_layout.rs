use vdso_kit::build_config::BuildConfig;
use vdso_kit::layout::{align_up, get_code_base, get_data_base};

#[test]
fn build_config_defaults() {
    let c = BuildConfig::new("../vdso", "vdso");
    assert_eq!(c.arch, "riscv64");
    assert_eq!(c.src_dir, "../vdso");
    assert_eq!(c.package_name, "vdso");
    assert_eq!(c.out_dir, ".");
    assert_eq!(c.so_name, "libvdso");
    assert_eq!(c.mode, "release");
    assert_eq!(c.verbose, 0);
    assert_eq!(c.api_lib_name, "libvdso");
    assert_eq!(c.toolchain, "nightly");
}

#[test]
fn config_validity() {
    let mut c = BuildConfig::new("src", "pkg");
    assert!(c.is_valid());
    c.arch = String::from("x86_64");
    assert!(c.is_valid());
    c.arch = String::from("mips");
    assert!(!c.is_valid());
    c.arch = String::from("aarch64");
    c.mode = String::from("debug");
    assert!(c.is_valid());
    c.mode = String::from("fast");
    assert!(!c.is_valid());
    c.mode = String::from("release");
    c.verbose = 2;
    assert!(c.is_valid());
    c.verbose = 3;
    assert!(!c.is_valid());
}

#[test]
fn align_up_values() {
    assert_eq!(align_up(0, 0x1000), 0);
    assert_eq!(align_up(1, 0x1000), 0x1000);
    assert_eq!(align_up(0x1000, 0x1000), 0x1000);
    assert_eq!(align_up(0x1001, 0x1000), 0x2000);
    assert_eq!(align_up(24, 8), 24);
    assert_eq!(align_up(25, 8), 32);
}

#[test]
fn code_base_masks_to_page() {
    assert_eq!(get_code_base(0x7f00_1234, 0x1000), 0x7f00_1000);
    assert_eq!(get_code_base(0x7f00_1000, 0x1000), 0x7f00_1000);
    assert_eq!(get_code_base(0xfff, 0x1000), 0);
}

#[test]
fn data_base_steps_back_over_window() {
    // A window of one page before the code: a program counter in the first
    // code page lands exactly on the window's base.
    let b: usize = 0x8000_0000;
    let vvar_size: usize = 0x1000;
    let pc = b + vvar_size + 0x10;
    assert_eq!(get_data_base(pc, 0x1000, 8), b);
    // A record larger than a page takes two pages of window.
    let pc2 = b + 0x2000 + 0xff0;
    assert_eq!(get_data_base(pc2, 0x1000, 0x1008), b);
}
