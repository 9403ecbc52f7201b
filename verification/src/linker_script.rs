//! Generation of the linker script that pins the layout of the shared object.
//!
//! The script places the dynamic-linking sections at the head of the file,
//! lets `.text` begin with the contents of `.text.start`, and aligns every
//! later data section to a 4 KiB page. That layout is what makes the
//! program-counter trick of [`crate::layout`] sound, lets the host protect
//! each segment separately, and keeps `.dynsym` parseable near the head of
//! the file.

use vstd::prelude::*;
use crate::valid_arch;

verus! {

/// The architecture token that the script's `OUTPUT_ARCH` line carries.
pub open spec fn arch_lds_token(arch: Seq<char>) -> Seq<char> {
    if arch == "riscv64"@ {
        "riscv"@
    } else if arch == "aarch64"@ {
        "aarch64"@
    } else {
        "i386:x86-64"@
    }
}

/// The opening of the script, up to the architecture token.
pub open spec fn lds_head() -> Seq<char> {
    "OUTPUT_ARCH("@
}

/// The remainder of the script, after the architecture token.
pub open spec fn lds_tail() -> Seq<char> {
    ")

SECTIONS {
    . = SIZEOF_HEADERS;

    /* dynamic-linking read-only sections come first */
    .hash           : { *(.hash) }
    .gnu.hash       : { *(.gnu.hash) }
    .dynsym         : { *(.dynsym) }
    .dynstr         : { *(.dynstr) }
    .gnu.version    : { *(.gnu.version) }
    .gnu.version_d  : { *(.gnu.version_d) }
    .gnu.version_r  : { *(.gnu.version_r) }

    /* the dynamic segment stands on its own */
    .dynamic    : { *(.dynamic) }

    . = ALIGN(16);
    /* code, beginning with the page-anchor section */
    .text       : {
        *(.text.start)
        *(.text .text.*)
    }

    . = ALIGN(4K);
    /* read-only data */
    .rodata     : {
        *(.rodata .rodata.* .gnu.linkonce.r.*)
        *(.note.*)
    }

    . = ALIGN(4K);
    .plt : { *(.plt .plt.*) }

    . = ALIGN(4K);
    /* writable data on pages of its own */
    .data       : {
        *(.data .data.* .gnu.linkonce.d.*)
        *(.got.plt) *(.got)
    }

    . = ALIGN(4K);
    .bss        : {
        *(.bss .bss.* .gnu.linkonce.b.*)
        *(COMMON)
    }

    .eh_frame_hdr   : { *(.eh_frame_hdr) }
    .eh_frame   : { KEEP (*(.eh_frame)) }
}
"@
}

/// The whole script for one architecture.
pub open spec fn linker_script_text(arch: Seq<char>) -> Seq<char> {
    lds_head() + arch_lds_token(arch) + lds_tail()
}

/// Emits the linker script for the given architecture.
pub fn gen_linker_script(arch: &str) -> (r: String)
    requires
        valid_arch(arch@),
    ensures
        r@ == linker_script_text(arch@),
{
    let token: &str = if crate::str_eq(arch, "riscv64") {
        "riscv"
    } else if crate::str_eq(arch, "aarch64") {
        "aarch64"
    } else {
        "i386:x86-64"
    };
    let mut s = String::from_str("OUTPUT_ARCH(");
    s.append(token);
    s.append(")

SECTIONS {
    . = SIZEOF_HEADERS;

    /* dynamic-linking read-only sections come first */
    .hash           : { *(.hash) }
    .gnu.hash       : { *(.gnu.hash) }
    .dynsym         : { *(.dynsym) }
    .dynstr         : { *(.dynstr) }
    .gnu.version    : { *(.gnu.version) }
    .gnu.version_d  : { *(.gnu.version_d) }
    .gnu.version_r  : { *(.gnu.version_r) }

    /* the dynamic segment stands on its own */
    .dynamic    : { *(.dynamic) }

    . = ALIGN(16);
    /* code, beginning with the page-anchor section */
    .text       : {
        *(.text.start)
        *(.text .text.*)
    }

    . = ALIGN(4K);
    /* read-only data */
    .rodata     : {
        *(.rodata .rodata.* .gnu.linkonce.r.*)
        *(.note.*)
    }

    . = ALIGN(4K);
    .plt : { *(.plt .plt.*) }

    . = ALIGN(4K);
    /* writable data on pages of its own */
    .data       : {
        *(.data .data.* .gnu.linkonce.d.*)
        *(.got.plt) *(.got)
    }

    . = ALIGN(4K);
    .bss        : {
        *(.bss .bss.* .gnu.linkonce.b.*)
        *(COMMON)
    }

    .eh_frame_hdr   : { *(.eh_frame_hdr) }
    .eh_frame   : { KEEP (*(.eh_frame)) }
}
");
    s
}

} // verus!
