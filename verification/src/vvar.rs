//! The shared-data record and the semantics of mapped state.
//!
//! One `VvarData` instance exists per mapping set; its storage lives in the
//! window right before the mapped code. Every other module-scope variable of
//! the shared object is private data: each independent mapping obtains its
//! own copy when the data segment is copied on write. [`MappingSet`] models
//! a set of mappings that share one vvar window, and pins down what each
//! entry point observes: shared writes are seen by every mapping of the set,
//! private writes only by the mapping that made them.

use vstd::prelude::*;

verus! {

/// The example shared record held in the vvar window. In the mapped object
/// the field is an atomic cell; here it is modeled by the value it holds.
pub struct SharedExample {
    /// The value of the shared cell.
    pub i: usize,
}

/// The shared-data record: every field that the mappings of one set share.
/// C-stable in the mapped object, and never relocated after creation.
pub struct VvarData {
    /// The example shared field.
    pub example: SharedExample,
}

impl VvarData {
    /// The record as the one-shot initializer entry point writes it.
    pub fn new() -> (r: VvarData)
        ensures
            r.example.i == 42,
    {
        VvarData { example: SharedExample { i: 42 } }
    }
}

impl Default for VvarData {
    /// The record as the host writes it when it maps the first member of a
    /// set: every field at its default.
    fn default() -> (r: VvarData)
        ensures
            r.example.i == 0,
    {
        VvarData { example: SharedExample { i: 0 } }
    }
}

/// The example argument record that entry points take and return.
pub struct ArgumentExample {
    /// The carried value.
    pub i: usize,
}

/// A set of mappings of one shared object that share a single vvar window.
/// The model holds the shared record once, and one copy of the private
/// scalar per mapping.
pub struct MappingSet {
    /// The shared record, seen by every mapping of the set.
    pub vvar: VvarData,
    /// The private scalar of each mapping, indexed by mapping.
    pub privates: Vec<usize>,
}

impl View for MappingSet {
    type V = (usize, Seq<usize>);

    open spec fn view(&self) -> (usize, Seq<usize>) {
        (self.vvar.example.i, self.privates@)
    }
}

/// The state after one mapping stores `v` into the shared cell.
pub open spec fn spec_set_shared(s: (usize, Seq<usize>), v: usize) -> (usize, Seq<usize>) {
    (v, s.1)
}

/// The state after mapping `m` stores `v` into its private scalar.
pub open spec fn spec_set_private(s: (usize, Seq<usize>), m: int, v: usize) -> (
    usize,
    Seq<usize>,
) {
    (s.0, s.1.update(m, v))
}

impl MappingSet {
    /// A fresh set: the host wrote the default record into the window, and
    /// nothing is mapped yet.
    pub fn new() -> (r: MappingSet)
        ensures
            r@ == (0usize, Seq::<usize>::empty()),
    {
        let privates: Vec<usize> = Vec::new();
        proof {
            assert(privates@ =~= Seq::<usize>::empty());
        }
        MappingSet { vvar: Default::default(), privates }
    }

    /// Maps the object once more into some address space: the new mapping
    /// gets its own copy of the private data, fresh from the object's image,
    /// and returns its index.
    pub fn add_mapping(&mut self) -> (m: usize)
        ensures
            m == old(self)@.1.len(),
            final(self)@.0 == old(self)@.0,
            final(self)@.1 == old(self)@.1.push(0),
    {
        let m = self.privates.len();
        self.privates.push(0);
        m
    }

    /// The one-shot initializer entry point: writes the freshly constructed
    /// record into the shared window. To be invoked at most once per set,
    /// before the other entry points read the window.
    pub fn init_vvar_data(&mut self)
        ensures
            final(self)@.0 == 42,
            final(self)@.1 == old(self)@.1,
    {
        self.vvar = VvarData::new();
    }

    /// The entry point that reads the shared cell, invoked through mapping
    /// `m`: every mapping observes the one shared value.
    pub fn get_shared(&self, m: usize) -> (r: ArgumentExample)
        requires
            m < self@.1.len(),
        ensures
            r.i == self@.0,
    {
        ArgumentExample { i: self.vvar.example.i }
    }

    /// The entry point that stores into the shared cell, invoked through
    /// mapping `m`: the store lands in the one shared record, and no private
    /// data moves.
    pub fn set_shared(&mut self, m: usize, i: usize)
        requires
            m < old(self)@.1.len(),
        ensures
            final(self)@ == spec_set_shared(old(self)@, i),
    {
        self.vvar.example.i = i;
    }

    /// The entry point that reads the private scalar, invoked through
    /// mapping `m`: it sees the copy of that mapping alone.
    pub fn get_private(&self, m: usize) -> (r: ArgumentExample)
        requires
            m < self@.1.len(),
        ensures
            r.i == self@.1[m as int],
    {
        ArgumentExample { i: self.privates[m] }
    }

    /// The entry point that stores into the private scalar, invoked through
    /// mapping `m`: the store lands in that mapping's copy, and the shared
    /// record does not move.
    pub fn set_private(&mut self, m: usize, i: usize)
        requires
            m < old(self)@.1.len(),
        ensures
            final(self)@ == spec_set_private(old(self)@, m as int, i),
    {
        self.privates.set(m, i);
    }
}

/// Private isolation: two independent mappings hold independent private
/// data. A private store through one mapping leaves what every other mapping
/// reads unchanged.
pub proof fn lemma_private_isolation(s: (usize, Seq<usize>), m1: int, m2: int, v: usize)
    requires
        0 <= m1 < s.1.len(),
        0 <= m2 < s.1.len(),
        m1 != m2,
    ensures
        spec_set_private(s, m1, v).1[m2] == s.1[m2],
        spec_set_private(s, m1, v).0 == s.0,
{
}

/// Shared visibility: mappings of one set observe each other's shared
/// writes. After any mapping stores `v` into the shared cell, every mapping
/// of the set reads `v`.
pub proof fn lemma_shared_visibility(s: (usize, Seq<usize>), m1: int, m2: int, v: usize)
    requires
        0 <= m1 < s.1.len(),
        0 <= m2 < s.1.len(),
    ensures
        spec_set_shared(s, v).0 == v,
        spec_set_shared(s, v).1 == s.1,
{
}

/// The example round-trip entry point: adds one to each element of its
/// arguments and hands them back in the same shape.
pub fn test_args(a: Option<usize>, b: Result<usize, ()>, c: (usize, usize)) -> (r: (
    Option<usize>,
    Result<usize, ()>,
    (usize, usize),
))
    requires
        a matches Some(x) ==> x < usize::MAX,
        b matches Ok(x) ==> x < usize::MAX,
        c.0 < usize::MAX,
        c.1 < usize::MAX,
    ensures
        r.0 == match a {
            Some(x) => Some((x + 1) as usize),
            None => None::<usize>,
        },
        r.1 == match b {
            Ok(x) => Ok::<usize, ()>((x + 1) as usize),
            Err(e) => Err::<usize, ()>(e),
        },
        r.2 == ((c.0 + 1) as usize, (c.1 + 1) as usize),
{
    let a2 = match a {
        Some(x) => Some(x + 1),
        None => None,
    };
    let b2 = match b {
        Ok(x) => Ok(x + 1),
        Err(e) => Err(e),
    };
    (a2, b2, (c.0 + 1, c.1 + 1))
}

} // verus!
