//! Derived async/iteration descriptors: three scans over the lowered
//! catalog's return shapes that synthesize the iterator-next, future-poll
//! and stream-poll boundary operations.
use crate::decl::catalog_spec;
use crate::func::AbiFunction;
use crate::func::AbiFunctionV;
use crate::func::AbiFuture;
use crate::func::AbiFutureV;
use crate::func::AbiIter;
use crate::func::AbiIterV;
use crate::func::AbiStream;
use crate::func::AbiStreamV;
use crate::surface::Interface;
use crate::types::AbiError;
use crate::types::AbiType;
use crate::types::AbiTypeV;
use vstd::prelude::*;
use vstd::string::StringExecFns;

verus! {

/// The iterator scan over one return shape: peels optional and fallible
/// layers silently, chains through future and stream layers while
/// suffixing the symbol, and records the first iterator layer found.
pub open spec fn scan_iter(t: AbiTypeV, sym: Seq<char>) -> Option<AbiIterV>
    decreases t,
{
    match t {
        AbiTypeV::Optional(b) => scan_iter(*b, sym),
        AbiTypeV::Fallible(b) => scan_iter(*b, sym),
        AbiTypeV::Future(b) => scan_iter(*b, sym + "_future_poll"@),
        AbiTypeV::Stream(b) => scan_iter(*b, sym + "_stream_poll"@),
        AbiTypeV::Iter(b) => Some(AbiIterV { ty: *b, symbol: sym }),
        _ => None,
    }
}

/// The future scan over one return shape: peels optional and fallible
/// layers only; a future is detected only as the outermost async layer.
pub open spec fn scan_future(t: AbiTypeV) -> Option<AbiTypeV>
    decreases t,
{
    match t {
        AbiTypeV::Optional(b) => scan_future(*b),
        AbiTypeV::Fallible(b) => scan_future(*b),
        AbiTypeV::Future(b) => Some(*b),
        _ => None,
    }
}

/// The stream scan over one return shape: peels optional and fallible
/// layers only; a stream is detected only as the outermost async layer.
pub open spec fn scan_stream(t: AbiTypeV) -> Option<AbiTypeV>
    decreases t,
{
    match t {
        AbiTypeV::Optional(b) => scan_stream(*b),
        AbiTypeV::Fallible(b) => scan_stream(*b),
        AbiTypeV::Stream(b) => Some(*b),
        _ => None,
    }
}

/// The iterator descriptor contributed by one catalog function, if any.
pub open spec fn fn_iter(f: AbiFunctionV) -> Option<AbiIterV> {
    match f.ret {
        Some(t) => scan_iter(t, f.symbol()),
        None => None,
    }
}

/// The future descriptor contributed by one catalog function, if any.
pub open spec fn fn_future(f: AbiFunctionV) -> Option<AbiFutureV> {
    match f.ret {
        Some(t) => match scan_future(t) {
            Some(el) => Some(AbiFutureV { ty: el, symbol: f.symbol() }),
            None => None,
        },
        None => None,
    }
}

/// The stream descriptor contributed by one catalog function, if any.
pub open spec fn fn_stream(f: AbiFunctionV) -> Option<AbiStreamV> {
    match f.ret {
        Some(t) => match scan_stream(t) {
            Some(el) => Some(AbiStreamV { ty: el, symbol: f.symbol() }),
            None => None,
        },
        None => None,
    }
}

/// The iterator descriptors of a catalog suffix, in catalog order.
pub open spec fn iters_from(fs: Seq<AbiFunctionV>, i: int) -> Seq<AbiIterV>
    decreases fs.len() - i,
{
    if i < 0 || i >= fs.len() {
        Seq::empty()
    } else {
        match fn_iter(fs[i]) {
            Some(d) => seq![d] + iters_from(fs, i + 1),
            None => iters_from(fs, i + 1),
        }
    }
}

/// The future descriptors of a catalog suffix, in catalog order.
pub open spec fn futures_from(fs: Seq<AbiFunctionV>, i: int) -> Seq<AbiFutureV>
    decreases fs.len() - i,
{
    if i < 0 || i >= fs.len() {
        Seq::empty()
    } else {
        match fn_future(fs[i]) {
            Some(d) => seq![d] + futures_from(fs, i + 1),
            None => futures_from(fs, i + 1),
        }
    }
}

/// The stream descriptors of a catalog suffix, in catalog order.
pub open spec fn streams_from(fs: Seq<AbiFunctionV>, i: int) -> Seq<AbiStreamV>
    decreases fs.len() - i,
{
    if i < 0 || i >= fs.len() {
        Seq::empty()
    } else {
        match fn_stream(fs[i]) {
            Some(d) => seq![d] + streams_from(fs, i + 1),
            None => streams_from(fs, i + 1),
        }
    }
}

/// Models of a sequence of iterator descriptors.
pub open spec fn iters_model(s: Seq<AbiIter>) -> Seq<AbiIterV> {
    s.map_values(|x: AbiIter| x.model())
}

/// Models of a sequence of future descriptors.
pub open spec fn futures_model(s: Seq<AbiFuture>) -> Seq<AbiFutureV> {
    s.map_values(|x: AbiFuture| x.model())
}

/// Models of a sequence of stream descriptors.
pub open spec fn streams_model(s: Seq<AbiStream>) -> Seq<AbiStreamV> {
    s.map_values(|x: AbiStream| x.model())
}

/// Runs the iterator scan on one catalog function's return shape.
fn scan_iter_fn(f: &AbiFunction) -> (r: Option<AbiIter>)
    ensures
        (match fn_iter(f.model()) {
            Some(d) => r matches Some(x) && x.model() == d,
            None => r is None,
        }),
{
    match &f.ret {
        None => None,
        Some(t0) => {
            let mut sym = f.symbol();
            let mut p: &AbiType = t0;
            loop
                invariant
                    scan_iter(p.model(), sym@) == fn_iter(f.model()),
                decreases *p,
            {
                match p {
                    AbiType::Optional(b) | AbiType::Fallible(b) => {
                        p = &**b;
                    },
                    AbiType::Future(b) => {
                        sym.append("_future_poll");
                        p = &**b;
                    },
                    AbiType::Stream(b) => {
                        sym.append("_stream_poll");
                        p = &**b;
                    },
                    AbiType::Iter(b) => {
                        return Some(AbiIter { ty: (**b).clone(), symbol: sym });
                    },
                    _ => {
                        return None;
                    },
                }
            }
        },
    }
}

/// Runs the future scan on one catalog function's return shape.
fn scan_future_fn(f: &AbiFunction) -> (r: Option<AbiFuture>)
    ensures
        (match fn_future(f.model()) {
            Some(d) => r matches Some(x) && x.model() == d,
            None => r is None,
        }),
{
    match &f.ret {
        None => None,
        Some(t0) => {
            let mut p: &AbiType = t0;
            loop
                invariant
                    (match scan_future(p.model()) {
                        Some(el) => fn_future(f.model()) == Some(
                            AbiFutureV { ty: el, symbol: f.model().symbol() },
                        ),
                        None => fn_future(f.model()) is None,
                    }),
                decreases *p,
            {
                match p {
                    AbiType::Optional(b) | AbiType::Fallible(b) => {
                        p = &**b;
                    },
                    AbiType::Future(b) => {
                        let symbol = f.symbol();
                        return Some(AbiFuture { ty: (**b).clone(), symbol });
                    },
                    _ => {
                        return None;
                    },
                }
            }
        },
    }
}

/// Runs the stream scan on one catalog function's return shape.
fn scan_stream_fn(f: &AbiFunction) -> (r: Option<AbiStream>)
    ensures
        (match fn_stream(f.model()) {
            Some(d) => r matches Some(x) && x.model() == d,
            None => r is None,
        }),
{
    match &f.ret {
        None => None,
        Some(t0) => {
            let mut p: &AbiType = t0;
            loop
                invariant
                    (match scan_stream(p.model()) {
                        Some(el) => fn_stream(f.model()) == Some(
                            AbiStreamV { ty: el, symbol: f.model().symbol() },
                        ),
                        None => fn_stream(f.model()) is None,
                    }),
                decreases *p,
            {
                match p {
                    AbiType::Optional(b) | AbiType::Fallible(b) => {
                        p = &**b;
                    },
                    AbiType::Stream(b) => {
                        let symbol = f.symbol();
                        return Some(AbiStream { ty: (**b).clone(), symbol });
                    },
                    _ => {
                        return None;
                    },
                }
            }
        },
    }
}

impl Interface {
    /// The derived iterator descriptors of the whole catalog: free
    /// functions first, then each object's methods, in order; the symbol
    /// of each records the future/stream unwrap chain that led to it.
    pub fn iterators(&self) -> (r: Result<Vec<AbiIter>, AbiError>)
        ensures
            (match catalog_spec(self.model()) {
                Ok(fs) => r matches Ok(v) && iters_model(v@) == iters_from(fs, 0),
                Err(e) => r matches Err(err) && err.model() == e,
            }),
    {
        let funcs = match self.catalog_funcs() {
            Err(e) => {
                return Err(e);
            },
            Ok(v) => v,
        };
        let ghost fsv = catalog_spec(self.model())->Ok_0;
        let mut out: Vec<AbiIter> = Vec::new();
        let mut i: usize = 0;
        proof {
            if iters_from(fsv, 0).len() >= 0 {
                assert(iters_model(out@) + iters_from(fsv, 0) =~= iters_from(fsv, 0));
            }
        }
        while i < funcs.len()
            invariant
                i <= funcs@.len(),
                fsv.len() == funcs@.len(),
                forall|k: int| 0 <= k < funcs@.len() ==> fsv[k] == funcs@[k].model(),
                iters_model(out@) + iters_from(fsv, i as int) == iters_from(fsv, 0),
            decreases funcs@.len() - i,
        {
            let ghost out0 = out@;
            match scan_iter_fn(&funcs[i]) {
                None => {
                },
                Some(d) => {
                    let ghost dm = d.model();
                    out.push(d);
                    proof {
                        assert(iters_model(out@) =~= iters_model(out0) + seq![dm]);
                        assert((iters_model(out0) + seq![dm]) + iters_from(fsv, i + 1)
                            =~= iters_model(out0) + (seq![dm] + iters_from(fsv, i + 1)));
                    }
                },
            }
            i = i + 1;
        }
        proof {
            assert(iters_model(out@) + Seq::<AbiIterV>::empty() =~= iters_model(out@));
        }
        Ok(out)
    }

    /// The derived future descriptors of the whole catalog, in order;
    /// each uses the originating function's own symbol.
    pub fn futures(&self) -> (r: Result<Vec<AbiFuture>, AbiError>)
        ensures
            (match catalog_spec(self.model()) {
                Ok(fs) => r matches Ok(v) && futures_model(v@) == futures_from(fs, 0),
                Err(e) => r matches Err(err) && err.model() == e,
            }),
    {
        let funcs = match self.catalog_funcs() {
            Err(e) => {
                return Err(e);
            },
            Ok(v) => v,
        };
        let ghost fsv = catalog_spec(self.model())->Ok_0;
        let mut out: Vec<AbiFuture> = Vec::new();
        let mut i: usize = 0;
        proof {
            assert(futures_model(out@) + futures_from(fsv, 0) =~= futures_from(fsv, 0));
        }
        while i < funcs.len()
            invariant
                i <= funcs@.len(),
                fsv.len() == funcs@.len(),
                forall|k: int| 0 <= k < funcs@.len() ==> fsv[k] == funcs@[k].model(),
                futures_model(out@) + futures_from(fsv, i as int) == futures_from(fsv, 0),
            decreases funcs@.len() - i,
        {
            let ghost out0 = out@;
            match scan_future_fn(&funcs[i]) {
                None => {
                },
                Some(d) => {
                    let ghost dm = d.model();
                    out.push(d);
                    proof {
                        assert(futures_model(out@) =~= futures_model(out0) + seq![dm]);
                        assert((futures_model(out0) + seq![dm]) + futures_from(fsv, i + 1)
                            =~= futures_model(out0) + (seq![dm] + futures_from(fsv, i + 1)));
                    }
                },
            }
            i = i + 1;
        }
        proof {
            assert(futures_model(out@) + Seq::<AbiFutureV>::empty() =~= futures_model(out@));
        }
        Ok(out)
    }

    /// The derived stream descriptors of the whole catalog, in order;
    /// each uses the originating function's own symbol.
    pub fn streams(&self) -> (r: Result<Vec<AbiStream>, AbiError>)
        ensures
            (match catalog_spec(self.model()) {
                Ok(fs) => r matches Ok(v) && streams_model(v@) == streams_from(fs, 0),
                Err(e) => r matches Err(err) && err.model() == e,
            }),
    {
        let funcs = match self.catalog_funcs() {
            Err(e) => {
                return Err(e);
            },
            Ok(v) => v,
        };
        let ghost fsv = catalog_spec(self.model())->Ok_0;
        let mut out: Vec<AbiStream> = Vec::new();
        let mut i: usize = 0;
        proof {
            assert(streams_model(out@) + streams_from(fsv, 0) =~= streams_from(fsv, 0));
        }
        while i < funcs.len()
            invariant
                i <= funcs@.len(),
                fsv.len() == funcs@.len(),
                forall|k: int| 0 <= k < funcs@.len() ==> fsv[k] == funcs@[k].model(),
                streams_model(out@) + streams_from(fsv, i as int) == streams_from(fsv, 0),
            decreases funcs@.len() - i,
        {
            let ghost out0 = out@;
            match scan_stream_fn(&funcs[i]) {
                None => {
                },
                Some(d) => {
                    let ghost dm = d.model();
                    out.push(d);
                    proof {
                        assert(streams_model(out@) =~= streams_model(out0) + seq![dm]);
                        assert((streams_model(out0) + seq![dm]) + streams_from(fsv, i + 1)
                            =~= streams_model(out0) + (seq![dm] + streams_from(fsv, i + 1)));
                    }
                },
            }
            i = i + 1;
        }
        proof {
            assert(streams_model(out@) + Seq::<AbiStreamV>::empty() =~= streams_model(out@));
        }
        Ok(out)
    }
}

} // verus!
