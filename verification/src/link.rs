//! The linking validator: matches a module's declared imports, in
//! declaration order, against the host functions the embedder
//! supplies positionally.

use vstd::prelude::*;
use crate::signature::{Signature, sig_matches};
use crate::module::ImportDecl;
use crate::host::HostFunction;

verus! {

/// Why instantiation refused to link. Each variant names the first
/// offending import slot, so misconfiguration is diagnosable without
/// inspecting guest code.
#[derive(Debug)]
pub enum LinkError {
    /// Fewer host functions were supplied than the module requires;
    /// `index` is the first unfilled slot.
    MissingImport { index: usize, name: String },
    /// The host function supplied for slot `index` declares a
    /// different signature than the import requires.
    SignatureMismatch { index: usize, name: String, expected: Signature, actual: Signature },
}

/// The signatures of a list of host functions, in order.
pub open spec fn sigs_of<H>(hs: Seq<HostFunction<H>>) -> Seq<Signature> {
    hs.map_values(|h: HostFunction<H>| h.sig)
}

/// Linkage holds: a supplied signature stands at every required slot
/// and structurally equals the declared one. Supplied entries beyond
/// the required count do not matter.
pub open spec fn links_ok(imports: Seq<ImportDecl>, supplied: Seq<Signature>) -> bool {
    &&& imports.len() <= supplied.len()
    &&& forall|i: int|
        0 <= i < imports.len() ==> sig_matches((#[trigger] imports[i]).sig, supplied[i])
}

/// `e` is the correct report for the first slot at which `supplied`
/// fails to satisfy `imports`: every earlier slot links, and the
/// named slot is either unfilled or filled with the wrong signature.
pub open spec fn link_error_describes(
    e: LinkError,
    imports: Seq<ImportDecl>,
    supplied: Seq<Signature>,
) -> bool {
    match e {
        LinkError::MissingImport { index, name } => {
            &&& index == supplied.len()
            &&& index < imports.len()
            &&& name@ == imports[index as int].name@
            &&& forall|j: int|
                0 <= j < index ==> sig_matches((#[trigger] imports[j]).sig, supplied[j])
        },
        LinkError::SignatureMismatch { index, name, expected, actual } => {
            &&& index < imports.len()
            &&& index < supplied.len()
            &&& !sig_matches(imports[index as int].sig, supplied[index as int])
            &&& name@ == imports[index as int].name@
            &&& sig_matches(expected, imports[index as int].sig)
            &&& sig_matches(actual, supplied[index as int])
            &&& forall|j: int|
                0 <= j < index ==> sig_matches((#[trigger] imports[j]).sig, supplied[j])
        },
    }
}

/// Validate a supplied host-function list against a module's declared
/// imports, positionally and in declaration order.
///
/// Succeeds exactly when every required slot is filled with a
/// structurally equal signature; otherwise reports the first bad
/// slot. No function is invoked and nothing is changed.
pub fn validate_imports<H>(imports: &Vec<ImportDecl>, supplied: &Vec<HostFunction<H>>) -> (r:
    Result<(), LinkError>)
    ensures
        r is Ok <==> links_ok(imports@, sigs_of(supplied@)),
        r matches Err(e) ==> link_error_describes(e, imports@, sigs_of(supplied@)),
{
    let mut i: usize = 0;
    while i < imports.len()
        invariant
            i <= imports@.len(),
            forall|j: int|
                0 <= j < i ==> {
                    &&& j < sigs_of(supplied@).len()
                    &&& sig_matches((#[trigger] imports@[j]).sig, sigs_of(supplied@)[j])
                },
        decreases imports@.len() - i,
    {
        if i >= supplied.len() {
            proof {
                if i > 0 {
                    assert(sig_matches(imports@[i - 1].sig, sigs_of(supplied@)[i - 1]));
                }
            }
            return Err(LinkError::MissingImport { index: i, name: imports[i].name.clone() });
        }
        if !imports[i].sig.matches(&supplied[i].sig) {
            return Err(
                LinkError::SignatureMismatch {
                    index: i,
                    name: imports[i].name.clone(),
                    expected: imports[i].sig.duplicate(),
                    actual: supplied[i].sig.duplicate(),
                },
            );
        }
        i += 1;
    }
    proof {
        if imports@.len() > 0 {
            assert(sig_matches(
                imports@[imports@.len() - 1].sig,
                sigs_of(supplied@)[imports@.len() - 1],
            ));
        }
    }
    Ok(())
}

} // verus!
