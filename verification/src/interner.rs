//! The signature interner: the type section as a duplicate-free table of
//! wire signatures, looked up by exact match.

use vstd::prelude::*;
use crate::types::{sig_eq, SigView, WasmSignature};

verus! {

/// The mathematical values of a table of signatures.
pub open spec fn sig_views(ts: Seq<WasmSignature>) -> Seq<SigView> {
    ts.map_values(|t: WasmSignature| t@)
}

/// No two entries share a value.
pub open spec fn distinct_sigs(vs: Seq<SigView>) -> bool {
    forall|i: int, j: int| 0 <= i < j < vs.len() ==> vs[i] != vs[j]
}

/// The emitted module's type section: each signature that appears anywhere
/// in the module has exactly one entry here.
#[derive(Debug)]
pub struct TypeTable {
    pub types: Vec<WasmSignature>,
}

impl TypeTable {
    pub open spec fn views(&self) -> Seq<SigView> {
        sig_views(self.types@)
    }

    /// The table never holds the same signature twice.
    pub open spec fn wf(&self) -> bool {
        distinct_sigs(self.views())
    }

    /// Create an empty table.
    pub fn new() -> (r: Self)
        ensures
            r.views() =~= Seq::<SigView>::empty(),
            r.wf(),
    {
        TypeTable { types: Vec::new() }
    }

    /// The number of entries.
    pub fn len(&self) -> (r: usize)
        ensures
            r == self.views().len(),
    {
        self.types.len()
    }

    /// Return the index of `sig`, appending it if it is new. The returned
    /// index is stable: entries are never moved or removed.
    pub fn intern(&mut self, sig: WasmSignature) -> (idx: u32)
        requires
            old(self).wf(),
            old(self).views().len() < u32::MAX,
        ensures
            final(self).wf(),
            idx < final(self).views().len(),
            final(self).views()[idx as int] == sig@,
            old(self).views().contains(sig@) ==> final(self).views() == old(self).views(),
            !old(self).views().contains(sig@) ==> final(self).views() == old(self).views().push(
                sig@,
            ) && idx == old(self).views().len(),
    {
        let n = self.types.len();
        let mut i: usize = 0;
        while i < n
            invariant
                self == old(self),
                self.wf(),
                self.views() == old(self).views(),
                n == self.views().len(),
                n < u32::MAX,
                i <= n,
                forall|j: int| 0 <= j < i ==> self.views()[j] != sig@,
            decreases n - i,
        {
            if sig_eq(&self.types[i], &sig) {
                assert(self.views()[i as int] == sig@);
                return i as u32;
            }
            i += 1;
        }
        assert(forall|j: int| 0 <= j < self.views().len() ==> self.views()[j] != sig@);
        assert(!self.views().contains(sig@));
        self.types.push(sig);
        assert(self.views() =~= old(self).views().push(sig@));
        (n as u32)
    }
}

/// Signature deduplication: in a well-formed type table, two entries with
/// the same signature value are the same entry, so any signature has at most
/// one index in the type section.
pub proof fn lemma_type_section_dedup(t: &TypeTable, i: int, j: int)
    requires
        t.wf(),
        0 <= i < t.views().len(),
        0 <= j < t.views().len(),
        t.views()[i] == t.views()[j],
    ensures
        i == j,
{
}

} // verus!
