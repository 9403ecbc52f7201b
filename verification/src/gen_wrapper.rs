//! Text of the wrapper crate.
//!
//! The builder materializes a minimal crate around the user's shared-object
//! crate: it re-exports the user crate's public surface, supplies a panic
//! handler that loops forever, and is built as a C-ABI dynamic library. This
//! module produces the two files of that crate; writing them to disk is the
//! surrounding program's concern.

use vstd::prelude::*;
use crate::build_config::BuildConfig;

verus! {

/// The manifest of the wrapper crate: a `cdylib` that aborts on panic and
/// depends on the user crate by path.
pub open spec fn wrapper_cargo_toml_text(package_name: Seq<char>, src_dir: Seq<char>) -> Seq<
    char,
> {
    "[package]
name = \"vdso_wrapper\"
edition = \"2021\"

[lib]
crate-type = [\"cdylib\"]

[profile.dev]
panic = \"abort\"

[profile.release]
panic = \"abort\"

[dependencies]
"@ + package_name + " = { path = \""@ + src_dir + "\" }
"@
}

/// The root source of the wrapper crate: `no_std`, re-exports the user crate,
/// and holds the panic handler that the freestanding build needs.
pub open spec fn wrapper_lib_rs_text(package_name: Seq<char>) -> Seq<char> {
    "#![no_std]

pub use "@ + package_name + "::*;

#[panic_handler]
fn panic(_info: &core::panic::PanicInfo) -> ! {
    loop {}
}
"@
}

/// Produces the wrapper crate's `Cargo.toml`. The source directory must
/// already be absolute: the sub-toolchain runs in another directory.
pub fn cargo_toml_content(config: &BuildConfig, absolute_src_dir: &str) -> (r: String)
    ensures
        r@ == wrapper_cargo_toml_text(config.package_name@, absolute_src_dir@),
{
    let mut s = String::from_str(
        "[package]
name = \"vdso_wrapper\"
edition = \"2021\"

[lib]
crate-type = [\"cdylib\"]

[profile.dev]
panic = \"abort\"

[profile.release]
panic = \"abort\"

[dependencies]
",
    );
    s.append(config.package_name.as_str());
    s.append(" = { path = \"");
    s.append(absolute_src_dir);
    s.append("\" }
");
    s
}

/// Produces the wrapper crate's `lib.rs`.
pub fn lib_rs_content(config: &BuildConfig) -> (r: String)
    ensures
        r@ == wrapper_lib_rs_text(config.package_name@),
{
    let mut s = String::from_str(
        "#![no_std]

pub use ",
    );
    s.append(config.package_name.as_str());
    s.append(
        "::*;

#[panic_handler]
fn panic(_info: &core::panic::PanicInfo) -> ! {
    loop {}
}
",
    );
    s
}

} // verus!
