//! What the shared-object build hands to the toolchain.
//!
//! The builder drives a sub-toolchain to compile the wrapper crate into a
//! PIE shared object. This module computes everything that run gets: the
//! link flags, the target triple, the argument list of the sub-build, and
//! the sanitation of inherited environment values that would force static
//! CRT linkage onto an object that must stay dynamic. Spawning the processes
//! and touching the environment stay with the surrounding program.

use vstd::prelude::*;
use crate::build_config::{config_valid, BuildConfig};
use crate::entry_points::matches_at;
use crate::valid_arch;

verus! {

/// Holds when `pat` occurs somewhere in `s`.
pub open spec fn contains_seq(s: Seq<char>, pat: Seq<char>) -> bool {
    exists|i: int| matches_at(s, i, pat)
}

/// `s` with every occurrence of `pat` replaced by `rep`, scanning left to
/// right without overlap.
pub open spec fn replace_seq(s: Seq<char>, pat: Seq<char>, rep: Seq<char>) -> Seq<char>
    decreases s.len(),
{
    if pat.len() == 0 || s.len() == 0 {
        s
    } else if matches_at(s, 0, pat) {
        rep + replace_seq(s.subrange(pat.len() as int, s.len() as int), pat, rep)
    } else {
        seq![s[0]] + replace_seq(s.drop_first(), pat, rep)
    }
}

/// Says whether `pat` occurs in `s`.
pub fn str_contains(s: &str, pat: &str) -> (r: bool)
    ensures
        r == contains_seq(s@, pat@),
{
    let n = s.unicode_len();
    let mut i: usize = 0;
    while i < n
        invariant
            i <= n,
            n == s@.len(),
            forall|t: int| 0 <= t < i ==> !matches_at(s@, t, pat@),
        decreases n - i,
    {
        if crate::entry_points::str_matches_at(s, i, pat) {
            return true;
        }
        i += 1;
    }
    if crate::entry_points::str_matches_at(s, n, pat) {
        return true;
    }
    proof {
        assert forall|t: int| !matches_at(s@, t, pat@) by {
            if t > n {
                assert(t + pat@.len() > s@.len());
            }
        }
    }
    false
}

/// Replaces every occurrence of `pat` in `s` by `rep`, scanning left to
/// right without overlap.
pub fn str_replace(s: &str, pat: &str, rep: &str) -> (r: String)
    requires
        pat@.len() > 0,
    ensures
        r@ == replace_seq(s@, pat@, rep@),
{
    let n = s.unicode_len();
    let m = pat.unicode_len();
    let mut res = String::new();
    proof {
        assert(s@.subrange(0, n as int) =~= s@);
    }
    let mut i: usize = 0;
    while i < n
        invariant
            i <= n,
            n == s@.len(),
            m == pat@.len(),
            m > 0,
            res@ + replace_seq(s@.subrange(i as int, n as int), pat@, rep@) == replace_seq(
                s@,
                pat@,
                rep@,
            ),
        decreases n - i,
    {
        let ghost tail = s@.subrange(i as int, n as int);
        if crate::entry_points::str_matches_at(s, i, pat) {
            proof {
                assert(tail.subrange(0, m as int) =~= s@.subrange(i as int, i + m as int));
                assert(matches_at(tail, 0, pat@));
                assert(tail.subrange(m as int, tail.len() as int) =~= s@.subrange(
                    i + m as int,
                    n as int,
                ));
            }
            res.append(rep);
            i += m;
        } else {
            proof {
                assert(!matches_at(tail, 0, pat@)) by {
                    if matches_at(tail, 0, pat@) {
                        assert(tail.subrange(0, m as int) =~= s@.subrange(
                            i as int,
                            i + m as int,
                        ));
                        assert(matches_at(s@, i as int, pat@));
                    }
                }
                assert(tail.drop_first() =~= s@.subrange(i + 1, n as int));
                assert(tail[0] == s@[i as int]);
            }
            let c = s.substring_char(i, i + 1);
            proof {
                assert(c@ =~= seq![s@[i as int]]);
            }
            res.append(c);
            i += 1;
        }
    }
    proof {
        assert(s@.subrange(n as int, n as int) =~= Seq::<char>::empty());
        assert(replace_seq(Seq::<char>::empty(), pat@, rep@) == Seq::<char>::empty());
        assert(res@ + Seq::<char>::empty() =~= res@);
    }
    res
}

/// The link flags of the sub-build: position independence, the chosen
/// soname, and the generated linker script by absolute path.
pub open spec fn rustflags_text(so_name: Seq<char>, script_path: Seq<char>) -> Seq<char> {
    "-C link-arg=-fpie -C link-arg=-soname="@ + so_name + " -C link-arg=-T"@ + script_path
}

/// Builds the link flags of the sub-build. The script path must be absolute:
/// the sub-toolchain runs in another directory.
pub fn rustflags(so_name: &str, script_path: &str) -> (r: String)
    ensures
        r@ == rustflags_text(so_name@, script_path@),
{
    let mut s = String::from_str("-C link-arg=-fpie -C link-arg=-soname=");
    s.append(so_name);
    s.append(" -C link-arg=-T");
    s.append(script_path);
    s
}

/// The freestanding musl triple of one architecture.
pub open spec fn build_target_text(arch: Seq<char>) -> Seq<char> {
    if arch == "riscv64"@ {
        "riscv64gc-unknown-linux-musl"@
    } else if arch == "aarch64"@ {
        "aarch64-unknown-linux-musl"@
    } else {
        "x86_64-unknown-linux-musl"@
    }
}

/// The target triple that the sub-build compiles for.
pub fn build_target(arch: &str) -> (r: &'static str)
    requires
        valid_arch(arch@),
    ensures
        r@ == build_target_text(arch@),
{
    if crate::str_eq(arch, "riscv64") {
        "riscv64gc-unknown-linux-musl"
    } else if crate::str_eq(arch, "aarch64") {
        "aarch64-unknown-linux-musl"
    } else {
        "x86_64-unknown-linux-musl"
    }
}

/// The whole argument list of the sub-build: a freestanding build of the
/// core libraries for the chosen triple into the given target directory,
/// then the mode and verbosity flags the configuration asks for.
pub open spec fn spec_cargo_args(
    arch: Seq<char>,
    mode: Seq<char>,
    verbose: usize,
    target_dir: Seq<char>,
) -> Seq<Seq<char>> {
    let base = seq![
        "build"@,
        "-Z"@,
        "unstable-options"@,
        "-Z"@,
        "build-std=core,compiler_builtins,alloc"@,
        "-Z"@,
        "build-std-features=compiler-builtins-mem"@,
        "--target"@,
        build_target_text(arch),
        "--target-dir"@,
        target_dir,
    ];
    let with_mode = if mode == "release"@ {
        base + seq!["--release"@]
    } else {
        base
    };
    if verbose == 1 {
        with_mode + seq!["-v"@]
    } else if verbose == 2 {
        with_mode + seq!["-vv"@]
    } else {
        with_mode
    }
}

/// Builds the argument list of the sub-build.
pub fn cargo_args(config: &BuildConfig, target_dir: &str) -> (r: Vec<String>)
    requires
        config_valid(config),
    ensures
        r@.map_values(|t: String| t@) == spec_cargo_args(
            config.arch@,
            config.mode@,
            config.verbose,
            target_dir@,
        ),
{
    let mut v: Vec<String> = Vec::new();
    v.push(String::from_str("build"));
    v.push(String::from_str("-Z"));
    v.push(String::from_str("unstable-options"));
    v.push(String::from_str("-Z"));
    v.push(String::from_str("build-std=core,compiler_builtins,alloc"));
    v.push(String::from_str("-Z"));
    v.push(String::from_str("build-std-features=compiler-builtins-mem"));
    v.push(String::from_str("--target"));
    v.push(String::from_str(build_target(config.arch.as_str())));
    v.push(String::from_str("--target-dir"));
    v.push(String::from_str(target_dir));
    if crate::str_eq(config.mode.as_str(), "release") {
        v.push(String::from_str("--release"));
    }
    if config.verbose == 1 {
        v.push(String::from_str("-v"));
    } else if config.verbose == 2 {
        v.push(String::from_str("-vv"));
    }
    proof {
        assert(v@.map_values(|t: String| t@) =~~= spec_cargo_args(
            config.arch@,
            config.mode@,
            config.verbose,
            target_dir@,
        ));
    }
    v
}

/// What the builder asks of one inherited environment value: leave it, set
/// it to a new value, or take it out of the sub-build's environment.
pub enum EnvEdit {
    /// The value stays as it is.
    Unchanged,
    /// The variable is set to the held value.
    SetTo(String),
    /// The variable is removed.
    Remove,
}

/// Decides what to do with an inherited `CARGO_CFG_TARGET_FEATURE` value:
/// a request for static CRT linkage is stripped, since the produced object
/// must stay position-independent and dynamically linked. A value that names
/// the feature in a form neither replacement reaches has the variable
/// removed.
pub fn sanitize_target_feature(value: &str) -> (r: EnvEdit)
    ensures
        match r {
            EnvEdit::Unchanged => !contains_seq(value@, "crt-static"@),
            EnvEdit::SetTo(s) => {
                &&& contains_seq(value@, "crt-static"@)
                &&& s@ != value@
                &&& {
                    ||| s@ == replace_seq(value@, ",crt-static"@, Seq::empty())
                    ||| (replace_seq(value@, ",crt-static"@, Seq::empty()) == value@ && s@
                        == replace_seq(value@, "crt-static,"@, Seq::empty()))
                }
            },
            EnvEdit::Remove => {
                &&& contains_seq(value@, "crt-static"@)
                &&& replace_seq(value@, ",crt-static"@, Seq::empty()) == value@
                &&& replace_seq(value@, "crt-static,"@, Seq::empty()) == value@
            },
        },
{
    proof {
        reveal_strlit("");
        reveal_strlit(",crt-static");
        reveal_strlit("crt-static,");
        assert(""@ =~= Seq::<char>::empty());
    }
    if !str_contains(value, "crt-static") {
        return EnvEdit::Unchanged;
    }
    let first = str_replace(value, ",crt-static", "");
    if !crate::str_eq(first.as_str(), value) {
        return EnvEdit::SetTo(first);
    }
    let second = str_replace(value, "crt-static,", "");
    if !crate::str_eq(second.as_str(), value) {
        return EnvEdit::SetTo(second);
    }
    EnvEdit::Remove
}

/// Decides what to do with an inherited `CARGO_ENCODED_RUSTFLAGS` value: a
/// `+crt-static` flag is turned into `-crt-static` for the sub-build.
pub fn sanitize_encoded_rustflags(value: &str) -> (r: EnvEdit)
    ensures
        match r {
            EnvEdit::Unchanged => !contains_seq(value@, "+crt-static"@),
            EnvEdit::SetTo(s) => contains_seq(value@, "+crt-static"@) && s@ == replace_seq(
                value@,
                "+crt-static"@,
                "-crt-static"@,
            ),
            EnvEdit::Remove => false,
        },
{
    proof {
        reveal_strlit("+crt-static");
    }
    if !str_contains(value, "+crt-static") {
        return EnvEdit::Unchanged;
    }
    EnvEdit::SetTo(str_replace(value, "+crt-static", "-crt-static"))
}

} // verus!
