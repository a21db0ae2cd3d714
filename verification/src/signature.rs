//! Function signatures: the parameter and result kinds a function
//! declares, compared structurally when imports are linked.

use vstd::prelude::*;
use crate::value::ValueKind;

verus! {

/// A value-level description of a function's parameter and result
/// kinds, in declared order. Equality is structural.
#[derive(Debug)]
pub struct Signature {
    pub params: Vec<ValueKind>,
    pub results: Vec<ValueKind>,
}

/// Structural equality of two signatures: same parameter kinds and
/// same result kinds, slot by slot.
pub open spec fn sig_matches(a: Signature, b: Signature) -> bool {
    a.params@ == b.params@ && a.results@ == b.results@
}

/// Slot-by-slot equality of two kind lists.
pub fn kinds_eq(a: &Vec<ValueKind>, b: &Vec<ValueKind>) -> (r: bool)
    ensures
        r == (a@ == b@),
{
    if a.len() != b.len() {
        return false;
    }
    let mut i: usize = 0;
    while i < a.len()
        invariant
            i <= a@.len(),
            a@.len() == b@.len(),
            forall|j: int| 0 <= j < i ==> a@[j] == b@[j],
        decreases a@.len() - i,
    {
        if !(a[i] == b[i]) {
            return false;
        }
        i += 1;
    }
    proof {
        assert(a@ =~= b@);
    }
    true
}

/// A fresh copy of a kind list.
pub fn copy_kinds(a: &Vec<ValueKind>) -> (r: Vec<ValueKind>)
    ensures
        r@ == a@,
{
    let mut r: Vec<ValueKind> = Vec::new();
    let mut i: usize = 0;
    while i < a.len()
        invariant
            i <= a@.len(),
            r@.len() == i,
            forall|j: int| 0 <= j < i ==> r@[j] == a@[j],
        decreases a@.len() - i,
    {
        r.push(a[i]);
        i += 1;
    }
    proof {
        assert(r@ =~= a@);
    }
    r
}

impl Signature {
    /// A signature from its parameter and result kinds.
    pub fn new(params: Vec<ValueKind>, results: Vec<ValueKind>) -> (s: Signature)
        ensures
            s.params == params,
            s.results == results,
    {
        Signature { params, results }
    }

    /// Structural equality check against another signature.
    pub fn matches(&self, other: &Signature) -> (r: bool)
        ensures
            r == sig_matches(*self, *other),
    {
        kinds_eq(&self.params, &other.params) && kinds_eq(&self.results, &other.results)
    }

    /// A fresh copy of this signature.
    pub fn duplicate(&self) -> (r: Signature)
        ensures
            sig_matches(r, *self),
    {
        Signature { params: copy_kinds(&self.params), results: copy_kinds(&self.results) }
    }
}

} // verus!
