//! Laws of the lowering core, stated and proved against the specification
//! functions that the executable functions' contracts are written over.
use crate::decl::free_functions_from;
use crate::decl::free_functions_spec;
use crate::lower::lower;
use crate::surface::InterfaceV;
use crate::surface::TypeV;
use crate::types::AbiErrorV;
use crate::types::AbiTypeV;
use vstd::prelude::*;

verus! {

/// Law: type lowering is deterministic. Any two lowerings of the same
/// surface type against the same interface yield the same result — the
/// same boundary type on success, the same diagnostic on failure.
pub proof fn lemma_lowering_deterministic(
    iv: InterfaceV,
    t: TypeV,
    r1: Result<AbiTypeV, AbiErrorV>,
    r2: Result<AbiTypeV, AbiErrorV>,
)
    requires
        r1 == lower(iv, t),
        r2 == lower(iv, t),
    ensures
        r1 == r2,
{
}

/// Law: an optional directly wrapping an optional is rejected for every
/// possible inner type and every interface, with no exception.
pub proof fn lemma_nested_optional_rejected(iv: InterfaceV, inner: TypeV)
    ensures
        lower(iv, TypeV::Optional(Box::new(TypeV::Optional(Box::new(inner))))) is Err,
{
    let o = TypeV::Optional(Box::new(inner));
    let lo = lower(iv, o);
    if lo is Ok {
        assert(lo->Ok_0 is Optional);
    }
}

/// Law: a free function declared static is always rejected — whenever any
/// declared free function is static, lowering the free-function list fails.
pub proof fn lemma_static_free_fn_rejected(iv: InterfaceV)
    requires
        exists|i: int| 0 <= i < iv.functions.len() && iv.functions[i].is_static,
    ensures
        free_functions_spec(iv) is Err,
{
    lemma_static_free_fn_rejected_from(iv, 0);
}

/// A static free function at or after position `j` makes lowering from
/// `j` on fail.
proof fn lemma_static_free_fn_rejected_from(iv: InterfaceV, j: int)
    requires
        0 <= j <= iv.functions.len(),
        exists|i: int| j <= i < iv.functions.len() && iv.functions[i].is_static,
    ensures
        free_functions_from(iv, j) is Err,
    decreases iv.functions.len() - j,
{
    let w = choose|i: int| j <= i < iv.functions.len() && iv.functions[i].is_static;
    if !iv.functions[j].is_static {
        assert(j < w < iv.functions.len() && iv.functions[w].is_static);
        lemma_static_free_fn_rejected_from(iv, j + 1);
    }
}

} // verus!
