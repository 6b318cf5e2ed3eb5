//! Import catalog assembly: the ordered list of boundary-crossing call
//! descriptors for a chosen layout profile — declared functions and
//! methods first, then the synthetic iterator-next, future-poll and
//! stream-poll operations.
use crate::decl::catalog_spec;
use crate::derive::futures_from;
use crate::derive::iters_from;
use crate::derive::streams_from;
use crate::func::AbiFunction;
use crate::func::AbiFunctionV;
use crate::func::AbiFutureV;
use crate::func::AbiIterV;
use crate::func::AbiStreamV;
use crate::layout::Abi;
use crate::surface::Interface;
use crate::surface::InterfaceV;
use crate::types::AbiError;
use crate::types::AbiErrorV;
use vstd::prelude::*;

verus! {

/// One boundary-crossing call descriptor: the chosen layout profile and
/// the boundary function to be rendered against it.
#[derive(PartialEq, Eq, Debug)]
pub struct Import {
    pub abi: Abi,
    pub function: AbiFunction,
}

/// Mathematical model of an [`Import`].
#[verifier::ext_equal]
pub struct ImportV {
    pub abi: Abi,
    pub function: AbiFunctionV,
}

impl Import {
    /// The mathematical model of this descriptor.
    pub open spec fn model(self) -> ImportV {
        ImportV { abi: self.abi, function: self.function.model() }
    }
}

/// Models of a sequence of import descriptors.
pub open spec fn imports_model(s: Seq<Import>) -> Seq<ImportV> {
    s.map_values(|x: Import| x.model())
}

/// Wraps each boundary function with the chosen profile.
pub open spec fn to_imports(abi: Abi, fs: Seq<AbiFunctionV>) -> Seq<ImportV> {
    fs.map_values(|f: AbiFunctionV| ImportV { abi, function: f })
}

/// The synthetic iterator-next functions of the derived descriptors.
pub open spec fn next_fns(its: Seq<AbiIterV>) -> Seq<AbiFunctionV> {
    its.map_values(|it: AbiIterV| it.next_fn())
}

/// The synthetic future-poll functions of the derived descriptors.
pub open spec fn future_poll_fns(fts: Seq<AbiFutureV>) -> Seq<AbiFunctionV> {
    fts.map_values(|ft: AbiFutureV| ft.poll_fn())
}

/// The synthetic stream-poll functions of the derived descriptors.
pub open spec fn stream_poll_fns(sts: Seq<AbiStreamV>) -> Seq<AbiFunctionV> {
    sts.map_values(|st: AbiStreamV| st.poll_fn())
}

/// The ordered import catalog for a profile: one descriptor per declared
/// function and method, then one per derived iterator, future and stream.
pub open spec fn imports_spec(iv: InterfaceV, abi: Abi) -> Result<Seq<ImportV>, AbiErrorV> {
    match catalog_spec(iv) {
        Err(e) => Err(e),
        Ok(fs) => Ok(
            to_imports(abi, fs) + to_imports(abi, next_fns(iters_from(fs, 0))) + to_imports(
                abi,
                future_poll_fns(futures_from(fs, 0)),
            ) + to_imports(abi, stream_poll_fns(streams_from(fs, 0))),
        ),
    }
}

impl Interface {
    /// Produces the ordered list of boundary-crossing call descriptors for
    /// a chosen layout profile: declared functions and methods first, then
    /// iterator-next, future-poll and stream-poll, each group in catalog
    /// order.
    pub fn imports(&self, abi: &Abi) -> (r: Result<Vec<Import>, AbiError>)
        ensures
            (match imports_spec(self.model(), *abi) {
                Ok(is) => r matches Ok(v) && imports_model(v@) == is,
                Err(e) => r matches Err(err) && err.model() == e,
            }),
    {
        let ghost iv = self.model();
        let ghost ab = *abi;
        let funcs = match self.catalog_funcs() {
            Err(e) => {
                return Err(e);
            },
            Ok(v) => v,
        };
        let iters = match self.iterators() {
            Err(e) => {
                return Err(e);
            },
            Ok(v) => v,
        };
        let futs = match self.futures() {
            Err(e) => {
                return Err(e);
            },
            Ok(v) => v,
        };
        let strs = match self.streams() {
            Err(e) => {
                return Err(e);
            },
            Ok(v) => v,
        };
        let ghost fsv = catalog_spec(iv)->Ok_0;
        let ghost itv = iters_from(fsv, 0);
        let ghost ftv = futures_from(fsv, 0);
        let ghost stv = streams_from(fsv, 0);
        let mut out: Vec<Import> = Vec::new();
        let mut i: usize = 0;
        while i < funcs.len()
            invariant
                i <= funcs@.len(),
                fsv.len() == funcs@.len(),
                forall|k: int| 0 <= k < funcs@.len() ==> fsv[k] == funcs@[k].model(),
                ab == *abi,
                out@.len() == i,
                forall|k: int|
                    0 <= k < i ==> out@[k].model() == (ImportV { abi: ab, function: fsv[k] }),
            decreases funcs@.len() - i,
        {
            out.push(Import { abi: *abi, function: funcs[i].clone() });
            i = i + 1;
        }
        let ghost n1 = funcs@.len() as int;
        let mut j: usize = 0;
        while j < iters.len()
            invariant
                j <= iters@.len(),
                itv.len() == iters@.len(),
                forall|k: int| 0 <= k < iters@.len() ==> itv[k] == iters@[k].model(),
                ab == *abi,
                out@.len() == n1 + j,
                n1 == fsv.len(),
                fsv.len() == funcs@.len(),
                forall|k: int|
                    0 <= k < n1 ==> out@[k].model() == (ImportV { abi: ab, function: fsv[k] }),
                forall|k: int|
                    0 <= k < j ==> out@[n1 + k].model() == (ImportV {
                        abi: ab,
                        function: itv[k].next_fn(),
                    }),
            decreases iters@.len() - j,
        {
            out.push(Import { abi: *abi, function: iters[j].next() });
            j = j + 1;
        }
        let ghost n2 = n1 + iters@.len() as int;
        let mut p: usize = 0;
        while p < futs.len()
            invariant
                p <= futs@.len(),
                ftv.len() == futs@.len(),
                forall|k: int| 0 <= k < futs@.len() ==> ftv[k] == futs@[k].model(),
                ab == *abi,
                out@.len() == n2 + p,
                n1 == fsv.len(),
                n2 == n1 + itv.len(),
                forall|k: int|
                    0 <= k < n1 ==> out@[k].model() == (ImportV { abi: ab, function: fsv[k] }),
                forall|k: int|
                    0 <= k < itv.len() ==> out@[n1 + k].model() == (ImportV {
                        abi: ab,
                        function: itv[k].next_fn(),
                    }),
                forall|k: int|
                    0 <= k < p ==> out@[n2 + k].model() == (ImportV {
                        abi: ab,
                        function: ftv[k].poll_fn(),
                    }),
            decreases futs@.len() - p,
        {
            out.push(Import { abi: *abi, function: futs[p].poll() });
            p = p + 1;
        }
        let ghost n3 = n2 + futs@.len() as int;
        let mut q: usize = 0;
        while q < strs.len()
            invariant
                q <= strs@.len(),
                stv.len() == strs@.len(),
                forall|k: int| 0 <= k < strs@.len() ==> stv[k] == strs@[k].model(),
                ab == *abi,
                out@.len() == n3 + q,
                n1 == fsv.len(),
                n2 == n1 + itv.len(),
                n3 == n2 + ftv.len(),
                forall|k: int|
                    0 <= k < n1 ==> out@[k].model() == (ImportV { abi: ab, function: fsv[k] }),
                forall|k: int|
                    0 <= k < itv.len() ==> out@[n1 + k].model() == (ImportV {
                        abi: ab,
                        function: itv[k].next_fn(),
                    }),
                forall|k: int|
                    0 <= k < ftv.len() ==> out@[n2 + k].model() == (ImportV {
                        abi: ab,
                        function: ftv[k].poll_fn(),
                    }),
                forall|k: int|
                    0 <= k < q ==> out@[n3 + k].model() == (ImportV {
                        abi: ab,
                        function: stv[k].poll_fn(),
                    }),
            decreases strs@.len() - q,
        {
            out.push(Import { abi: *abi, function: strs[q].poll() });
            q = q + 1;
        }
        proof {
            let target = imports_spec(iv, ab)->Ok_0;
            assert(target.len() == n3 + stv.len());
            assert forall|m: int| 0 <= m < out@.len() implies imports_model(out@)[m] == target[m]
            by {
                assert(imports_model(out@)[m] == out@[m].model());
                if m < n1 {
                    assert(target[m] == to_imports(ab, fsv)[m]);
                } else if m < n2 {
                    assert(target[m] == to_imports(ab, next_fns(itv))[m - n1]);
                } else if m < n3 {
                    assert(target[m] == to_imports(ab, future_poll_fns(ftv))[m - n2]);
                } else {
                    assert(target[m] == to_imports(ab, stream_poll_fns(stv))[m - n3]);
                }
            }
            assert(imports_model(out@) =~= imports_spec(iv, ab)->Ok_0);
        }
        Ok(out)
    }
}

} // verus!
