//! Toolkit for producing and consuming vDSO-style shared objects:
//! position-independent dynamic libraries that a host maps into an address
//! space together with an adjacent page of shared variable data (the "vvar"
//! window), and then invokes through a generated table of typed entry points.
//!
//! The library covers the logic of the pipeline: build configuration,
//! linker-script generation, the text of the wrapper and binding crates,
//! entry-point extraction from the user source, ELF introspection of the
//! produced object, the page arithmetic that lets the object find its shared
//! data, and a model of the caller-side vtable and of the mapped state.
//! Driving the toolchain and mapping memory are left to the surrounding
//! program.

pub mod build_config;
pub mod builder;
pub mod elf;
pub mod entry_points;
pub mod gen_api;
pub mod gen_wrapper;
pub mod layout;
pub mod linker_script;
pub mod vtable;
pub mod vvar;

use vstd::prelude::*;

verus! {

/// Holds for the architecture names that a build accepts.
pub open spec fn valid_arch(a: Seq<char>) -> bool {
    a == "riscv64"@ || a == "aarch64"@ || a == "x86_64"@
}

/// Holds for the build modes that a build accepts.
pub open spec fn valid_mode(m: Seq<char>) -> bool {
    m == "debug"@ || m == "release"@
}

/// Compares two string slices by contents.
pub fn str_eq(a: &str, b: &str) -> (r: bool)
    ensures
        r == (a@ == b@),
{
    let a_len = a.unicode_len();
    let b_len = b.unicode_len();
    if a_len != b_len {
        return false;
    }
    let mut i: usize = 0;
    while i < a_len
        invariant
            i <= a_len,
            a_len == a@.len(),
            b_len == b@.len(),
            a_len == b_len,
            forall|j: int| 0 <= j < i ==> a@[j] == b@[j],
        decreases a_len - i,
    {
        if a.get_char(i) != b.get_char(i) {
            return false;
        }
        i += 1;
    }
    proof {
        assert(a@ =~= b@);
    }
    true
}

} // verus!

