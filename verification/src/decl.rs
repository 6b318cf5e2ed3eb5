//! Declaration lowering: builds the catalog of boundary functions for the
//! declared objects and free functions, in declaration order.
use crate::func::AbiFunction;
use crate::func::AbiFunctionV;
use crate::func::AbiObject;
use crate::func::AbiObjectV;
use crate::func::FunctionType;
use crate::func::FunctionTypeV;
use crate::func::args_model;
use crate::func::clone_strings;
use crate::func::funcs_model;
use crate::func::objects_model;
use crate::lower::lower;
use crate::surface::FnDecl;
use crate::surface::FnDeclV;
use crate::surface::Interface;
use crate::surface::InterfaceV;
use crate::surface::ObjDeclV;
use crate::surface::Type;
use crate::surface::TypeV;
use crate::types::AbiError;
use crate::types::AbiErrorV;
use crate::types::AbiType;
use crate::types::AbiTypeV;
use vstd::prelude::*;
use vstd::string::StringExecFns;

verus! {

/// The lowering of a parameter list from a given position on, in order,
/// stopping at the first failure.
pub open spec fn lower_args_from(iv: InterfaceV, args: Seq<(Seq<char>, TypeV)>, i: int) -> Result<
    Seq<(Seq<char>, AbiTypeV)>,
    AbiErrorV,
>
    decreases args.len() - i,
{
    if i < 0 || i >= args.len() {
        Ok(Seq::empty())
    } else {
        match lower(iv, args[i].1) {
            Err(e) => Err(e),
            Ok(x) => match lower_args_from(iv, args, i + 1) {
                Err(e) => Err(e),
                Ok(xs) => Ok(seq![(args[i].0, x)] + xs),
            },
        }
    }
}

/// The lowering of an optional return type.
pub open spec fn lower_ret(iv: InterfaceV, ret: Option<TypeV>) -> Result<
    Option<AbiTypeV>,
    AbiErrorV,
> {
    match ret {
        None => Ok(None),
        Some(t) => match lower(iv, t) {
            Err(e) => Err(e),
            Ok(x) => Ok(Some(x)),
        },
    }
}

/// The lowering of one declared method of the named owner object:
/// a constructor if declared static, an instance method otherwise.
pub open spec fn lower_method(iv: InterfaceV, owner: Seq<char>, m: FnDeclV) -> Result<
    AbiFunctionV,
    AbiErrorV,
> {
    match lower_args_from(iv, m.args, 0) {
        Err(e) => Err(e),
        Ok(args) => match lower_ret(iv, m.ret) {
            Err(e) => Err(e),
            Ok(ret) => Ok(
                AbiFunctionV {
                    doc: m.doc,
                    ty: if m.is_static {
                        FunctionTypeV::Constructor(owner)
                    } else {
                        FunctionTypeV::Method(owner)
                    },
                    name: m.ident,
                    args,
                    ret,
                },
            ),
        },
    }
}

/// The lowering of one declared free function. A free function declared
/// static is an internal-consistency violation and is always rejected.
pub open spec fn lower_free_fn(iv: InterfaceV, f: FnDeclV) -> Result<AbiFunctionV, AbiErrorV> {
    if f.is_static {
        Err(AbiErrorV::StaticFreeFunction(f.ident))
    } else {
        match lower_args_from(iv, f.args, 0) {
            Err(e) => Err(e),
            Ok(args) => match lower_ret(iv, f.ret) {
                Err(e) => Err(e),
                Ok(ret) => Ok(
                    AbiFunctionV {
                        doc: f.doc,
                        ty: FunctionTypeV::Function,
                        name: f.ident,
                        args,
                        ret,
                    },
                ),
            },
        }
    }
}

/// The lowering of the declared free functions from a given position on.
pub open spec fn free_functions_from(iv: InterfaceV, i: int) -> Result<
    Seq<AbiFunctionV>,
    AbiErrorV,
>
    decreases iv.functions.len() - i,
{
    if i < 0 || i >= iv.functions.len() {
        Ok(Seq::empty())
    } else {
        match lower_free_fn(iv, iv.functions[i]) {
            Err(e) => Err(e),
            Ok(f) => match free_functions_from(iv, i + 1) {
                Err(e) => Err(e),
                Ok(fs) => Ok(seq![f] + fs),
            },
        }
    }
}

/// The lowering of all declared free functions, in declaration order.
pub open spec fn free_functions_spec(iv: InterfaceV) -> Result<Seq<AbiFunctionV>, AbiErrorV> {
    free_functions_from(iv, 0)
}

/// The lowering of an object's methods from a given position on.
pub open spec fn methods_from(iv: InterfaceV, owner: Seq<char>, ms: Seq<FnDeclV>, i: int) -> Result<
    Seq<AbiFunctionV>,
    AbiErrorV,
>
    decreases ms.len() - i,
{
    if i < 0 || i >= ms.len() {
        Ok(Seq::empty())
    } else {
        match lower_method(iv, owner, ms[i]) {
            Err(e) => Err(e),
            Ok(f) => match methods_from(iv, owner, ms, i + 1) {
                Err(e) => Err(e),
                Ok(fs) => Ok(seq![f] + fs),
            },
        }
    }
}

/// The lowering of one declared object: its methods in declaration order
/// and its destructor symbol `drop_box_<ObjectName>`.
pub open spec fn lower_object(iv: InterfaceV, o: ObjDeclV) -> Result<
    AbiObjectV,
    AbiErrorV,
> {
    match methods_from(iv, o.ident, o.methods, 0) {
        Err(e) => Err(e),
        Ok(ms) => Ok(
            AbiObjectV {
                doc: o.doc,
                name: o.ident,
                methods: ms,
                destructor: "drop_box_"@ + o.ident,
            },
        ),
    }
}

/// The lowering of the declared objects from a given position on.
pub open spec fn objects_from(iv: InterfaceV, i: int) -> Result<Seq<AbiObjectV>, AbiErrorV>
    decreases iv.objects.len() - i,
{
    if i < 0 || i >= iv.objects.len() {
        Ok(Seq::empty())
    } else {
        match lower_object(iv, iv.objects[i]) {
            Err(e) => Err(e),
            Ok(o) => match objects_from(iv, i + 1) {
                Err(e) => Err(e),
                Ok(os) => Ok(seq![o] + os),
            },
        }
    }
}

/// The lowering of all declared objects, in declaration order.
pub open spec fn objects_spec(iv: InterfaceV) -> Result<Seq<AbiObjectV>, AbiErrorV> {
    objects_from(iv, 0)
}

/// The methods of the lowered objects from a given position on, flattened
/// in object order.
pub open spec fn concat_methods_from(os: Seq<AbiObjectV>, j: int) -> Seq<AbiFunctionV>
    decreases os.len() - j,
{
    if j < 0 || j >= os.len() {
        Seq::empty()
    } else {
        os[j].methods + concat_methods_from(os, j + 1)
    }
}

/// The full lowered catalog: free functions first, then each object's
/// methods, everything in declaration order.
pub open spec fn catalog_spec(iv: InterfaceV) -> Result<Seq<AbiFunctionV>, AbiErrorV> {
    match free_functions_spec(iv) {
        Err(e) => Err(e),
        Ok(fs) => match objects_spec(iv) {
            Err(e) => Err(e),
            Ok(os) => Ok(fs + concat_methods_from(os, 0)),
        },
    }
}

/// Lowers a declared parameter list in order, stopping at the first
/// failure.
fn lower_arg_list(iface: &Interface, args: &Vec<(String, Type)>) -> (r: Result<
    Vec<(String, AbiType)>,
    AbiError,
>)
    ensures
        (match lower_args_from(
            iface.model(),
            args@.map_values(|p: (String, Type)| (p.0@, p.1.model())),
            0,
        ) {
            Ok(xs) => r matches Ok(v) && args_model(v@) == xs,
            Err(e) => r matches Err(err) && err.model() == e,
        }),
{
    let ghost iv = iface.model();
    let ghost am = args@.map_values(|p: (String, Type)| (p.0@, p.1.model()));
    let mut out: Vec<(String, AbiType)> = Vec::new();
    let mut i: usize = 0;
    proof {
        if lower_args_from(iv, am, 0) is Ok {
            let r0 = lower_args_from(iv, am, 0)->Ok_0;
            assert(args_model(out@) + r0 =~= r0);
        }
    }
    while i < args.len()
        invariant
            i <= args@.len(),
            iv == iface.model(),
            am == args@.map_values(|p: (String, Type)| (p.0@, p.1.model())),
            am.len() == args@.len(),
            out@.len() == i,
            lower_args_from(iv, am, 0) == (match lower_args_from(iv, am, i as int) {
                Err(e) => Err::<Seq<(Seq<char>, AbiTypeV)>, AbiErrorV>(e),
                Ok(rest) => Ok::<Seq<(Seq<char>, AbiTypeV)>, AbiErrorV>(args_model(out@) + rest),
            }),
        decreases args@.len() - i,
    {
        let ghost out0 = out@;
        let (n, t) = &args[i];
        let x = match iface.to_type(t) {
            Err(e) => {
                return Err(e);
            },
            Ok(x) => x,
        };
        let ghost xm = x.model();
        let ghost nm = n@;
        out.push((n.clone(), x));
        proof {
            assert(args_model(out@) =~= args_model(out0) + seq![(nm, xm)]);
            if lower_args_from(iv, am, i + 1) is Ok {
                let xs = lower_args_from(iv, am, i + 1)->Ok_0;
                assert((args_model(out0) + seq![(nm, xm)]) + xs =~= args_model(out0) + (seq![
                    (nm, xm),
                ] + xs));
            }
        }
        i = i + 1;
    }
    proof {
        assert(args_model(out@) + Seq::<(Seq<char>, AbiTypeV)>::empty() =~= args_model(out@));
    }
    Ok(out)
}

/// Lowers an optional declared return type.
fn lower_ret_ty(iface: &Interface, ret: &Option<Type>) -> (r: Result<Option<AbiType>, AbiError>)
    ensures
        (match lower_ret(
            iface.model(),
            match *ret {
                Some(t) => Some(t.model()),
                None => None,
            },
        ) {
            Ok(x) => r matches Ok(a) && (match a {
                Some(at) => x matches Some(xv) && at.model() == xv,
                None => x is None,
            }),
            Err(e) => r matches Err(err) && err.model() == e,
        }),
{
    match ret {
        None => Ok(None),
        Some(t) => match iface.to_type(t) {
            Err(e) => Err(e),
            Ok(x) => Ok(Some(x)),
        },
    }
}

impl Interface {
    /// Lowers the declared free functions, in declaration order; a free
    /// function declared static is rejected as an internal-consistency
    /// violation.
    pub fn functions(&self) -> (r: Result<Vec<AbiFunction>, AbiError>)
        ensures
            (match free_functions_spec(self.model()) {
                Ok(fs) => r matches Ok(v) && funcs_model(v@) == fs,
                Err(e) => r matches Err(err) && err.model() == e,
            }),
    {
        let ghost iv = self.model();
        let mut out: Vec<AbiFunction> = Vec::new();
        let mut i: usize = 0;
        proof {
            if free_functions_from(iv, 0) is Ok {
                let r0 = free_functions_from(iv, 0)->Ok_0;
                assert(funcs_model(out@) + r0 =~= r0);
            }
        }
        while i < self.functions.len()
            invariant
                i <= self.functions@.len(),
                iv == self.model(),
                iv.functions.len() == self.functions@.len(),
                forall|k: int|
                    0 <= k < self.functions@.len() ==> iv.functions[k] == self.functions@[
                        k
                    ].model(),
                out@.len() == i,
                free_functions_from(iv, 0) == (match free_functions_from(iv, i as int) {
                    Err(e) => Err::<Seq<AbiFunctionV>, AbiErrorV>(e),
                    Ok(rest) => Ok::<Seq<AbiFunctionV>, AbiErrorV>(funcs_model(out@) + rest),
                }),
            decreases self.functions@.len() - i,
        {
            let ghost out0 = out@;
            let f = &self.functions[i];
            if f.is_static {
                return Err(AbiError::StaticFreeFunction(f.ident.clone()));
            }
            let args = match lower_arg_list(self, &f.args) {
                Err(e) => {
                    return Err(e);
                },
                Ok(a) => a,
            };
            let ret = match lower_ret_ty(self, &f.ret) {
                Err(e) => {
                    return Err(e);
                },
                Ok(x) => x,
            };
            let func = AbiFunction {
                doc: clone_strings(&f.doc),
                name: f.ident.clone(),
                ty: FunctionType::Function,
                args,
                ret,
            };
            proof {
                assert(func.model() =~= lower_free_fn(iv, iv.functions[i as int])->Ok_0);
            }
            let ghost fm = func.model();
            out.push(func);
            proof {
                assert(funcs_model(out@) =~= funcs_model(out0) + seq![fm]);
                if free_functions_from(iv, i + 1) is Ok {
                    let xs = free_functions_from(iv, i + 1)->Ok_0;
                    assert((funcs_model(out0) + seq![fm]) + xs =~= funcs_model(out0) + (seq![fm]
                        + xs));
                }
            }
            i = i + 1;
        }
        proof {
            assert(funcs_model(out@) + Seq::<AbiFunctionV>::empty() =~= funcs_model(out@));
        }
        Ok(out)
    }
}

/// Lowers one object's method list in declaration order.
fn lower_method_list(iface: &Interface, owner: &String, ms: &Vec<FnDecl>) -> (r: Result<
    Vec<AbiFunction>,
    AbiError,
>)
    ensures
        (match methods_from(
            iface.model(),
            owner@,
            ms@.map_values(|m: FnDecl| m.model()),
            0,
        ) {
            Ok(fs) => r matches Ok(v) && funcs_model(v@) == fs,
            Err(e) => r matches Err(err) && err.model() == e,
        }),
{
    let ghost iv = iface.model();
    let ghost msv = ms@.map_values(|m: FnDecl| m.model());
    let mut out: Vec<AbiFunction> = Vec::new();
    let mut i: usize = 0;
    proof {
        if methods_from(iv, owner@, msv, 0) is Ok {
            let r0 = methods_from(iv, owner@, msv, 0)->Ok_0;
            assert(funcs_model(out@) + r0 =~= r0);
        }
    }
    while i < ms.len()
        invariant
            i <= ms@.len(),
            iv == iface.model(),
            msv == ms@.map_values(|m: FnDecl| m.model()),
            msv.len() == ms@.len(),
            out@.len() == i,
            methods_from(iv, owner@, msv, 0) == (match methods_from(iv, owner@, msv, i as int) {
                Err(e) => Err::<Seq<AbiFunctionV>, AbiErrorV>(e),
                Ok(rest) => Ok::<Seq<AbiFunctionV>, AbiErrorV>(funcs_model(out@) + rest),
            }),
        decreases ms@.len() - i,
    {
        let ghost out0 = out@;
        let m = &ms[i];
        let args = match lower_arg_list(iface, &m.args) {
            Err(e) => {
                return Err(e);
            },
            Ok(a) => a,
        };
        let ret = match lower_ret_ty(iface, &m.ret) {
            Err(e) => {
                return Err(e);
            },
            Ok(x) => x,
        };
        let func = AbiFunction {
            doc: clone_strings(&m.doc),
            name: m.ident.clone(),
            ty: if m.is_static {
                FunctionType::Constructor(owner.clone())
            } else {
                FunctionType::Method(owner.clone())
            },
            args,
            ret,
        };
        proof {
            assert(func.model() =~= lower_method(iv, owner@, msv[i as int])->Ok_0);
        }
        let ghost fm = func.model();
        out.push(func);
        proof {
            assert(funcs_model(out@) =~= funcs_model(out0) + seq![fm]);
            if methods_from(iv, owner@, msv, i + 1) is Ok {
                let xs = methods_from(iv, owner@, msv, i + 1)->Ok_0;
                assert((funcs_model(out0) + seq![fm]) + xs =~= funcs_model(out0) + (seq![fm] + xs));
            }
        }
        i = i + 1;
    }
    proof {
        assert(funcs_model(out@) + Seq::<AbiFunctionV>::empty() =~= funcs_model(out@));
    }
    Ok(out)
}

impl Interface {
    /// Lowers the declared objects, in declaration order: each with its
    /// lowered methods and its destructor symbol `drop_box_<ObjectName>`.
    pub fn objects(&self) -> (r: Result<Vec<AbiObject>, AbiError>)
        ensures
            (match objects_spec(self.model()) {
                Ok(os) => r matches Ok(v) && objects_model(v@) == os,
                Err(e) => r matches Err(err) && err.model() == e,
            }),
    {
        let ghost iv = self.model();
        let mut out: Vec<AbiObject> = Vec::new();
        let mut j: usize = 0;
        proof {
            if objects_from(iv, 0) is Ok {
                let r0 = objects_from(iv, 0)->Ok_0;
                assert(objects_model(out@) + r0 =~= r0);
            }
        }
        while j < self.objects.len()
            invariant
                j <= self.objects@.len(),
                iv == self.model(),
                iv.objects.len() == self.objects@.len(),
                forall|k: int|
                    0 <= k < self.objects@.len() ==> iv.objects[k] == self.objects@[k].model(),
                out@.len() == j,
                objects_from(iv, 0) == (match objects_from(iv, j as int) {
                    Err(e) => Err::<Seq<AbiObjectV>, AbiErrorV>(e),
                    Ok(rest) => Ok::<Seq<AbiObjectV>, AbiErrorV>(objects_model(out@) + rest),
                }),
            decreases self.objects@.len() - j,
        {
            let ghost out0 = out@;
            let o = &self.objects[j];
            let methods = match lower_method_list(self, &o.ident, &o.methods) {
                Err(e) => {
                    return Err(e);
                },
                Ok(ms) => ms,
            };
            let mut destructor = "drop_box_".to_owned();
            destructor.append(o.ident.as_str());
            let obj = AbiObject {
                doc: clone_strings(&o.doc),
                name: o.ident.clone(),
                methods,
                destructor,
            };
            proof {
                assert(obj.model() =~= lower_object(iv, iv.objects[j as int])->Ok_0);
            }
            let ghost om = obj.model();
            out.push(obj);
            proof {
                assert(objects_model(out@) =~= objects_model(out0) + seq![om]);
                if objects_from(iv, j + 1) is Ok {
                    let xs = objects_from(iv, j + 1)->Ok_0;
                    assert((objects_model(out0) + seq![om]) + xs =~= objects_model(out0) + (seq![
                        om,
                    ] + xs));
                }
            }
            j = j + 1;
        }
        proof {
            assert(objects_model(out@) + Seq::<AbiObjectV>::empty() =~= objects_model(out@));
        }
        Ok(out)
    }

    /// The full catalog of declared boundary functions: free functions,
    /// then each object's methods, in declaration order.
    pub(crate) fn catalog_funcs(&self) -> (r: Result<Vec<AbiFunction>, AbiError>)
        ensures
            (match catalog_spec(self.model()) {
                Ok(fs) => r matches Ok(v) && funcs_model(v@) == fs,
                Err(e) => r matches Err(err) && err.model() == e,
            }),
    {
        let ghost iv = self.model();
        let mut funcs = match self.functions() {
            Err(e) => {
                return Err(e);
            },
            Ok(v) => v,
        };
        let objs = match self.objects() {
            Err(e) => {
                return Err(e);
            },
            Ok(v) => v,
        };
        let ghost fsv = free_functions_spec(iv)->Ok_0;
        let ghost osv = objects_spec(iv)->Ok_0;
        let ghost goal = catalog_spec(iv)->Ok_0;
        let mut j: usize = 0;
        proof {
            assert(funcs_model(funcs@) + concat_methods_from(osv, 0) =~= goal);
        }
        while j < objs.len()
            invariant
                j <= objs@.len(),
                objects_model(objs@) == osv,
                osv.len() == objs@.len(),
                goal == catalog_spec(iv)->Ok_0,
                catalog_spec(iv) is Ok,
                funcs_model(funcs@) + concat_methods_from(osv, j as int) == goal,
            decreases objs@.len() - j,
        {
            let ghost mseq = osv[j as int].methods;
            proof {
                assert(osv[j as int] == objs@[j as int].model());
                assert(mseq == funcs_model(objs@[j as int].methods@));
                assert(mseq.len() == objs@[j as int].methods@.len());
            }
            let mlen = objs[j].methods.len();
            let mut k: usize = 0;
            proof {
                assert(mseq.subrange(0, mseq.len() as int) =~= mseq);
                assert(funcs_model(funcs@) + mseq.subrange(k as int, mseq.len() as int)
                    + concat_methods_from(osv, j + 1) =~= goal);
            }
            while k < mlen
                invariant
                    k <= mlen,
                    j < objs@.len(),
                    mlen == objs@[j as int].methods@.len(),
                    objects_model(objs@) == osv,
                    osv.len() == objs@.len(),
                    mseq == osv[j as int].methods,
                    mseq.len() == mlen,
                    forall|t: int|
                        0 <= t < mlen ==> mseq[t] == objs@[j as int].methods@[t].model(),
                    goal == catalog_spec(iv)->Ok_0,
                    catalog_spec(iv) is Ok,
                    funcs_model(funcs@) + mseq.subrange(k as int, mseq.len() as int)
                        + concat_methods_from(osv, j + 1) == goal,
                decreases mlen - k,
            {
                let ghost funcs0 = funcs@;
                let m = objs[j].methods[k].clone();
                let ghost mm = m.model();
                funcs.push(m);
                proof {
                    assert(funcs_model(funcs@) =~= funcs_model(funcs0) + seq![mm]);
                    assert(mseq.subrange(k as int, mseq.len() as int) =~= seq![mm]
                        + mseq.subrange(k + 1, mseq.len() as int));
                    assert((funcs_model(funcs0) + seq![mm]) + mseq.subrange(k + 1, mseq.len() as int)
                        =~= funcs_model(funcs0) + (seq![mm] + mseq.subrange(
                        k + 1,
                        mseq.len() as int,
                    )));
                    assert((funcs_model(funcs@) + mseq.subrange(k + 1, mseq.len() as int))
                        + concat_methods_from(osv, j + 1) =~= funcs_model(funcs@) + mseq.subrange(
                        k + 1,
                        mseq.len() as int,
                    ) + concat_methods_from(osv, j + 1));
                }
                k = k + 1;
            }
            proof {
                assert(mseq.subrange(mseq.len() as int, mseq.len() as int)
                    =~= Seq::<AbiFunctionV>::empty());
                assert(funcs_model(funcs@) + Seq::<AbiFunctionV>::empty() =~= funcs_model(funcs@));
                assert(concat_methods_from(osv, j as int) == mseq + concat_methods_from(
                    osv,
                    j + 1,
                ));
            }
            j = j + 1;
        }
        proof {
            assert(concat_methods_from(osv, objs@.len() as int) =~= Seq::<AbiFunctionV>::empty());
            assert(funcs_model(funcs@) + Seq::<AbiFunctionV>::empty() =~= funcs_model(funcs@));
        }
        Ok(funcs)
    }
}

} // verus!
