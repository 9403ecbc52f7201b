use vdso_kit::build_config::BuildConfig;
use vdso_kit::builder::{
    build_target, cargo_args, rustflags, sanitize_encoded_rustflags, sanitize_target_feature,
    str_contains, str_replace, EnvEdit,
};

#[test]
fn rustflags_name_script_and_pie() {
    let flags = rustflags("libvdso", "/out/vdso_linker.lds");
    assert_eq!(
        flags,
        "-C link-arg=-fpie -C link-arg=-soname=libvdso -C link-arg=-T/out/vdso_linker.lds"
    );
}

#[test]
fn build_targets_per_arch() {
    assert_eq!(build_target("riscv64"), "riscv64gc-unknown-linux-musl");
    assert_eq!(build_target("aarch64"), "aarch64-unknown-linux-musl");
    assert_eq!(build_target("x86_64"), "x86_64-unknown-linux-musl");
}

#[test]
fn cargo_args_release_verbose() {
    let mut c = BuildConfig::new("../vdso", "vdso");
    c.arch = String::from("x86_64");
    c.verbose = 2;
    let args = cargo_args(&c, "/out/target");
    let expected = vec![
        "build",
        "-Z",
        "unstable-options",
        "-Z",
        "build-std=core,compiler_builtins,alloc",
        "-Z",
        "build-std-features=compiler-builtins-mem",
        "--target",
        "x86_64-unknown-linux-musl",
        "--target-dir",
        "/out/target",
        "--release",
        "-vv",
    ];
    assert_eq!(args, expected);
}

#[test]
fn cargo_args_debug_quiet() {
    let mut c = BuildConfig::new("../vdso", "vdso");
    c.mode = String::from("debug");
    let args = cargo_args(&c, "/out/target");
    assert_eq!(args.len(), 11);
    assert!(!args.contains(&"--release".to_string()));
    assert_eq!(args[8], "riscv64gc-unknown-linux-musl");
}

#[test]
fn text_search_and_replace() {
    assert!(str_contains("a,crt-static,b", "crt-static"));
    assert!(!str_contains("a,b", "crt-static"));
    assert!(str_contains("abc", ""));
    assert_eq!(str_replace("xayaz", "a", "-"), "x-y-z");
    assert_eq!(str_replace("aaaa", "aa", "b"), "bb");
    assert_eq!(str_replace("abc", "z", "-"), "abc");
}

#[test]
fn target_feature_is_stripped() {
    match sanitize_target_feature("sse2,crt-static") {
        EnvEdit::SetTo(v) => assert_eq!(v, "sse2"),
        _ => panic!("the list form must be rewritten"),
    }
    match sanitize_target_feature("crt-static,sse2") {
        EnvEdit::SetTo(v) => assert_eq!(v, "sse2"),
        _ => panic!("the leading form must be rewritten"),
    }
    match sanitize_target_feature("crt-static") {
        EnvEdit::Remove => {}
        _ => panic!("a lone request must remove the variable"),
    }
    match sanitize_target_feature("sse2,avx") {
        EnvEdit::Unchanged => {}
        _ => panic!("an unrelated value must stay"),
    }
}

#[test]
fn encoded_rustflags_flip_static_linkage() {
    match sanitize_encoded_rustflags("-Ctarget-feature=+crt-static") {
        EnvEdit::SetTo(v) => assert_eq!(v, "-Ctarget-feature=-crt-static"),
        _ => panic!("the static request must be flipped"),
    }
    match sanitize_encoded_rustflags("-Copt-level=3") {
        EnvEdit::Unchanged => {}
        _ => panic!("an unrelated value must stay"),
    }
}
