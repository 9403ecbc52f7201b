//! The configuration that drives one shared-object build.

use vstd::prelude::*;
use crate::{valid_arch, valid_mode};

verus! {

/// Configuration for one shared-object build. Immutable once a build starts.
pub struct BuildConfig {
    /// Target architecture: `"x86_64"`, `"aarch64"` or `"riscv64"`.
    pub arch: String,
    /// Directory that holds the source of the shared-object crate.
    pub src_dir: String,
    /// Package name of the shared-object crate.
    pub package_name: String,
    /// Output directory: receives the linker script and the final `.so` file.
    pub out_dir: String,
    /// soname of the produced library; defaults to `"lib"` + the package name.
    pub so_name: String,
    /// Build mode: `"debug"` or `"release"`.
    pub mode: String,
    /// Verbosity of the sub-toolchain: 0 silent, 1 verbose, 2 more verbose.
    pub verbose: usize,
    /// Name of the generated binding crate; defaults to `"lib"` + the package name.
    pub api_lib_name: String,
    /// Toolchain used for the sub-build, such as `"nightly"`.
    pub toolchain: String,
}

/// Holds when a configuration names an architecture, a mode and a verbosity
/// level that the builder accepts.
pub open spec fn config_valid(c: &BuildConfig) -> bool {
    valid_arch(c.arch@) && valid_mode(c.mode@) && c.verbose <= 2
}

impl BuildConfig {
    /// Creates a configuration with the given source directory and package
    /// name, every other field at its default.
    pub fn new(src_dir: &str, package_name: &str) -> (c: BuildConfig)
        ensures
            c.arch@ == "riscv64"@,
            c.src_dir@ == src_dir@,
            c.package_name@ == package_name@,
            c.out_dir@ == "."@,
            c.so_name@ == "lib"@ + package_name@,
            c.mode@ == "release"@,
            c.verbose == 0,
            c.api_lib_name@ == "lib"@ + package_name@,
            c.toolchain@ == "nightly"@,
            config_valid(&c),
    {
        BuildConfig {
            arch: String::from_str("riscv64"),
            src_dir: String::from_str(src_dir),
            package_name: String::from_str(package_name),
            out_dir: String::from_str("."),
            so_name: String::from_str("lib").concat(package_name),
            mode: String::from_str("release"),
            verbose: 0,
            api_lib_name: String::from_str("lib").concat(package_name),
            toolchain: String::from_str("nightly"),
        }
    }

    /// Says whether the architecture, mode and verbosity fields hold values
    /// that the builder accepts.
    pub fn is_valid(&self) -> (r: bool)
        ensures
            r == config_valid(self),
    {
        let arch_ok = crate::str_eq(self.arch.as_str(), "riscv64")
            || crate::str_eq(self.arch.as_str(), "aarch64")
            || crate::str_eq(self.arch.as_str(), "x86_64");
        let mode_ok = crate::str_eq(self.mode.as_str(), "debug")
            || crate::str_eq(self.mode.as_str(), "release");
        arch_ok && mode_ok && self.verbose <= 2
    }
}

} // verus!
