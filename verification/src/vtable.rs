//! The caller-side vtable.
//!
//! After the host maps the shared object at a base of its choosing, it
//! resolves each entry point once — the recorded `.dynsym` offset added to
//! the base — and installs the results in a process-wide table. Every
//! wrapper reads its slot and forwards; one invoked before initialization
//! aborts with a message naming its entry point. This module models the
//! table with the resolved addresses its slots hold.

use vstd::prelude::*;

verus! {

/// The caller-side table: one optional resolved address per entry point, in
/// declaration order, either all installed (after initialization) or
/// observably uninitialized.
pub struct VdsoVTable {
    /// The entry points' names, in declaration order.
    pub names: Vec<String>,
    /// The resolved address of each entry point, once installed.
    pub slots: Vec<Option<u64>>,
}

/// The table is well formed: one slot per name.
pub open spec fn vtable_wf(t: &VdsoVTable) -> bool {
    t.names@.len() == t.slots@.len()
}

/// Every slot of the table is empty: no wrapper may be invoked yet.
pub open spec fn uninitialized(t: &VdsoVTable) -> bool {
    forall|i: int| 0 <= i < t.slots@.len() ==> t.slots@[i] is None
}

/// Every slot holds the address of its entry point: the recorded offset
/// added to the load base.
pub open spec fn initialized_at(t: &VdsoVTable, base: u64, offsets: Seq<u64>) -> bool {
    &&& t.slots@.len() == offsets.len()
    &&& forall|i: int|
        0 <= i < t.slots@.len() ==> t.slots@[i] == Some((base + offsets[i]) as u64)
}

impl VdsoVTable {
    /// The table as the binding crate declares it: every slot empty.
    pub fn new(names: Vec<String>) -> (r: VdsoVTable)
        ensures
            vtable_wf(&r),
            uninitialized(&r),
            r.names@ == names@,
    {
        let mut slots: Vec<Option<u64>> = Vec::new();
        let mut i: usize = 0;
        let n = names.len();
        while i < n
            invariant
                i <= n,
                slots@.len() == i,
                forall|t: int| 0 <= t < i ==> slots@[t] is None,
            decreases n - i,
        {
            slots.push(None);
            i += 1;
        }
        VdsoVTable { names, slots }
    }

    /// Installs every resolved address: the recorded offset of each entry
    /// point added to the load base the host chose. To be called exactly
    /// once per process, before any wrapper runs.
    pub fn init_vdso_vtable(&mut self, base: u64, offsets: &Vec<u64>)
        requires
            vtable_wf(old(self)),
            uninitialized(old(self)),
            offsets@.len() == old(self).slots@.len(),
            forall|i: int| 0 <= i < offsets@.len() ==> base + #[trigger] offsets@[i] <= u64::MAX,
        ensures
            vtable_wf(final(self)),
            final(self).names@ == old(self).names@,
            initialized_at(final(self), base, offsets@),
    {
        let n = offsets.len();
        let mut i: usize = 0;
        while i < n
            invariant
                i <= n,
                n == offsets@.len(),
                self.slots@.len() == n,
                self.names@ == old(self).names@,
                forall|t: int| 0 <= t < n ==> base + #[trigger] offsets@[t] <= u64::MAX,
                forall|t: int|
                    0 <= t < i ==> self.slots@[t] == Some((base + #[trigger] offsets@[t]) as u64),
            decreases n - i,
        {
            let addr = base + offsets[i];
            self.slots.set(i, Some(addr));
            i += 1;
        }
    }

    /// What one wrapper does with its slot: forwards to the installed
    /// address, and refuses with a message naming the entry point when the
    /// table was never initialized.
    pub fn dispatch(&self, idx: usize) -> (r: Result<u64, String>)
        requires
            vtable_wf(self),
            idx < self.slots@.len(),
        ensures
            match r {
                Ok(addr) => self.slots@[idx as int] == Some(addr),
                Err(msg) => self.slots@[idx as int] is None && msg@ == self.names@[idx as int]@
                    + " is not initialized"@,
            },
    {
        match self.slots[idx] {
            Some(addr) => Ok(addr),
            None => {
                let mut msg = self.names[idx].clone();
                msg.append(" is not initialized");
                Err(msg)
            },
        }
    }
}

/// Binding fidelity: when the installed offsets are what the dynamic symbol
/// table of the object records for each entry point's own name, every slot
/// of the initialized table holds exactly the address that resolving that
/// name against the loaded object yields. A wrapper call and a direct call
/// through symbol resolution land on the same address.
pub proof fn lemma_binding_fidelity(
    t: &VdsoVTable,
    base: u64,
    offsets: Seq<u64>,
    so: Seq<u8>,
    idx: int,
)
    requires
        vtable_wf(t),
        initialized_at(t, base, offsets),
        offsets.len() == t.names@.len(),
        forall|i: int|
            0 <= i < offsets.len() ==> offsets[i] == crate::elf::spec_symbol_value(
                so,
                #[trigger] t.names@[i]@,
            ),
        0 <= idx < t.names@.len(),
    ensures
        t.slots@[idx] == Some((base + crate::elf::spec_symbol_value(so, t.names@[idx]@)) as u64),
{
}

/// Initialization before use: a wrapper invoked on an uninitialized table
/// cannot forward anywhere; it yields the refusal that names its own entry
/// point.
pub proof fn lemma_init_before_use(t: &VdsoVTable, idx: int, r: Result<u64, String>)
    requires
        vtable_wf(t),
        uninitialized(t),
        0 <= idx < t.slots@.len(),
        match r {
            Ok(addr) => t.slots@[idx] == Some(addr),
            Err(msg) => t.slots@[idx] is None && msg@ == t.names@[idx]@
                + " is not initialized"@,
        },
    ensures
        r matches Err(msg) && msg@ == t.names@[idx]@ + " is not initialized"@,
{
}

} // verus!
