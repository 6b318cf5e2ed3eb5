//! Boundary functions and objects: the catalog entries produced by
//! declaration lowering, their deterministic symbol names, the synthetic
//! iterator/future/stream operations, and return-value packing.
use crate::types::AbiType;
use crate::types::AbiTypeV;
use crate::types::NumType;
use vstd::prelude::*;
use vstd::string::StringExecFns;

verus! {

/// Classification of a boundary function.
#[derive(PartialEq, Eq, Debug)]
pub enum FunctionType {
    /// A static method of the named object.
    Constructor(String),
    /// An instance method of the named object.
    Method(String),
    /// A free function.
    Function,
    /// Synthetic iterator-next: owner symbol and element type.
    NextIter(String, AbiType),
    /// Synthetic future-poll: owner symbol and element type.
    PollFuture(String, AbiType),
    /// Synthetic stream-poll: owner symbol and element type.
    PollStream(String, AbiType),
}

/// Mathematical model of a [`FunctionType`].
pub enum FunctionTypeV {
    Constructor(Seq<char>),
    Method(Seq<char>),
    Function,
    NextIter(Seq<char>, AbiTypeV),
    PollFuture(Seq<char>, AbiTypeV),
    PollStream(Seq<char>, AbiTypeV),
}

impl FunctionType {
    /// The mathematical model of this classification.
    pub open spec fn model(self) -> FunctionTypeV {
        match self {
            FunctionType::Constructor(o) => FunctionTypeV::Constructor(o@),
            FunctionType::Method(o) => FunctionTypeV::Method(o@),
            FunctionType::Function => FunctionTypeV::Function,
            FunctionType::NextIter(s, t) => FunctionTypeV::NextIter(s@, t.model()),
            FunctionType::PollFuture(s, t) => FunctionTypeV::PollFuture(s@, t.model()),
            FunctionType::PollStream(s, t) => FunctionTypeV::PollStream(s@, t.model()),
        }
    }
}

impl Clone for FunctionType {
    /// Cloning preserves the model.
    fn clone(&self) -> (res: Self)
        ensures
            res.model() == self.model(),
    {
        match self {
            FunctionType::Constructor(o) => FunctionType::Constructor(o.clone()),
            FunctionType::Method(o) => FunctionType::Method(o.clone()),
            FunctionType::Function => FunctionType::Function,
            FunctionType::NextIter(s, t) => FunctionType::NextIter(s.clone(), t.clone()),
            FunctionType::PollFuture(s, t) => FunctionType::PollFuture(s.clone(), t.clone()),
            FunctionType::PollStream(s, t) => FunctionType::PollStream(s.clone(), t.clone()),
        }
    }
}

/// A boundary-crossing function: classification, name, ordered typed
/// parameters and optional typed return.
#[derive(PartialEq, Eq, Debug)]
pub struct AbiFunction {
    pub doc: Vec<String>,
    pub ty: FunctionType,
    pub name: String,
    pub args: Vec<(String, AbiType)>,
    pub ret: Option<AbiType>,
}

/// Mathematical model of an [`AbiFunction`].
#[verifier::ext_equal]
pub struct AbiFunctionV {
    pub doc: Seq<Seq<char>>,
    pub ty: FunctionTypeV,
    pub name: Seq<char>,
    pub args: Seq<(Seq<char>, AbiTypeV)>,
    pub ret: Option<AbiTypeV>,
}

/// Models of a sequence of doc lines.
pub open spec fn strings_model(s: Seq<String>) -> Seq<Seq<char>> {
    s.map_values(|d: String| d@)
}

/// Models of a sequence of named, typed parameters.
pub open spec fn args_model(s: Seq<(String, AbiType)>) -> Seq<(Seq<char>, AbiTypeV)> {
    s.map_values(|p: (String, AbiType)| (p.0@, p.1.model()))
}

/// Models of a sequence of boundary functions.
pub open spec fn funcs_model(s: Seq<AbiFunction>) -> Seq<AbiFunctionV> {
    s.map_values(|f: AbiFunction| f.model())
}

impl AbiFunction {
    /// The mathematical model of this boundary function.
    pub open spec fn model(self) -> AbiFunctionV {
        AbiFunctionV {
            doc: strings_model(self.doc@),
            ty: self.ty.model(),
            name: self.name@,
            args: args_model(self.args@),
            ret: match self.ret {
                Some(t) => Some(t.model()),
                None => None,
            },
        }
    }
}

impl AbiFunctionV {
    /// The deterministic symbol of a boundary function:
    /// `__<Object>_<name>` for constructors and methods, `__<name>` for free
    /// functions, and `<ownerSymbol>_iter_<name>` / `_future_<name>` /
    /// `_stream_<name>` for the synthetic operations.
    pub open spec fn symbol(self) -> Seq<char> {
        match self.ty {
            FunctionTypeV::Constructor(o) => "__"@ + o + "_"@ + self.name,
            FunctionTypeV::Method(o) => "__"@ + o + "_"@ + self.name,
            FunctionTypeV::Function => "__"@ + self.name,
            FunctionTypeV::NextIter(s, _) => s + "_iter_"@ + self.name,
            FunctionTypeV::PollFuture(s, _) => s + "_future_"@ + self.name,
            FunctionTypeV::PollStream(s, _) => s + "_stream_"@ + self.name,
        }
    }

    /// Classification of the packed return value: no value, a single scalar,
    /// or a named aggregate `<symbol>Return` of the variables in order.
    pub open spec fn pack_return(self, vars: Seq<VarV>) -> ReturnV {
        if vars.len() == 0 {
            ReturnV::Void
        } else if vars.len() == 1 {
            ReturnV::Num(vars[0])
        } else {
            ReturnV::Struct(vars, self.symbol() + "Return"@)
        }
    }
}

/// Clones every doc line, preserving the view of the sequence.
pub(crate) fn clone_strings(v: &Vec<String>) -> (res: Vec<String>)
    ensures
        res@ == v@,
{
    let mut out: Vec<String> = Vec::new();
    let mut i: usize = 0;
    while i < v.len()
        invariant
            i <= v@.len(),
            out@ =~= v@.subrange(0, i as int),
        decreases v@.len() - i,
    {
        out.push(v[i].clone());
        i = i + 1;
    }
    proof {
        assert(out@ =~= v@);
    }
    out
}

/// Clones a parameter list, preserving the models of names and types.
pub(crate) fn clone_args(v: &Vec<(String, AbiType)>) -> (res: Vec<(String, AbiType)>)
    ensures
        res@.len() == v@.len(),
        forall|k: int|
            0 <= k < v@.len() ==> res@[k].0 == v@[k].0 && res@[k].1.model() == v@[k].1.model(),
{
    let mut out: Vec<(String, AbiType)> = Vec::new();
    let mut i: usize = 0;
    while i < v.len()
        invariant
            i <= v@.len(),
            out@.len() == i,
            forall|k: int|
                0 <= k < i ==> out@[k].0 == v@[k].0 && out@[k].1.model() == v@[k].1.model(),
        decreases v@.len() - i,
    {
        let (n, t) = &v[i];
        out.push((n.clone(), t.clone()));
        i = i + 1;
    }
    out
}

impl Clone for AbiFunction {
    /// Cloning preserves the model.
    fn clone(&self) -> (res: Self)
        ensures
            res.model() == self.model(),
    {
        let res = AbiFunction {
            doc: clone_strings(&self.doc),
            ty: self.ty.clone(),
            name: self.name.clone(),
            args: clone_args(&self.args),
            ret: match &self.ret {
                Some(t) => Some(t.clone()),
                None => None,
            },
        };
        proof {
            assert(res.model().args =~= self.model().args);
            assert(res.model() =~= self.model());
        }
        res
    }
}

impl AbiFunction {
    /// The deterministic symbol naming this function across the boundary.
    pub fn symbol(&self) -> (r: String)
        ensures
            r@ == self.model().symbol(),
    {
        match &self.ty {
            FunctionType::Constructor(object) | FunctionType::Method(object) => {
                let mut s = "__".to_owned();
                s.append(object.as_str());
                s.append("_");
                s.append(self.name.as_str());
                s
            },
            FunctionType::Function => {
                let mut s = "__".to_owned();
                s.append(self.name.as_str());
                s
            },
            FunctionType::NextIter(symbol, _) => {
                let mut s = symbol.clone();
                s.append("_iter_");
                s.append(self.name.as_str());
                s
            },
            FunctionType::PollFuture(symbol, _) => {
                let mut s = symbol.clone();
                s.append("_future_");
                s.append(self.name.as_str());
                s
            },
            FunctionType::PollStream(symbol, _) => {
                let mut s = symbol.clone();
                s.append("_stream_");
                s.append(self.name.as_str());
                s
            },
        }
    }

    /// Packs an ordered list of binding variables into a return convention:
    /// zero variables is the no-value convention, one is a single scalar,
    /// and more form a named aggregate `<symbol>Return` holding them in order.
    pub fn ret(&self, rets: Vec<Var>) -> (r: Return)
        ensures
            r.model() == self.model().pack_return(vars_model(rets@)),
    {
        if rets.len() == 0 {
            Return::Void
        } else if rets.len() == 1 {
            Return::Num(rets[0].clone())
        } else {
            let mut name = self.symbol();
            name.append("Return");
            let r = Return::Struct(rets, name);
            proof {
                assert(r.model()->Struct_0 =~= vars_model(rets@));
            }
            r
        }
    }
}

/// A binding variable: an id freshly issued while packing one function's
/// return values, together with its boundary type.
#[derive(PartialEq, Eq, Debug)]
pub struct Var {
    pub binding: u32,
    pub ty: AbiType,
}

/// Mathematical model of a [`Var`].
pub struct VarV {
    pub binding: u32,
    pub ty: AbiTypeV,
}

impl Var {
    /// The mathematical model of this binding variable.
    pub open spec fn model(self) -> VarV {
        VarV { binding: self.binding, ty: self.ty.model() }
    }
}

impl Clone for Var {
    /// Cloning preserves the model.
    fn clone(&self) -> (res: Self)
        ensures
            res.model() == self.model(),
    {
        Var { binding: self.binding, ty: self.ty.clone() }
    }
}

/// Models of a sequence of binding variables.
pub open spec fn vars_model(s: Seq<Var>) -> Seq<VarV> {
    s.map_values(|v: Var| v.model())
}

/// The return convention of one boundary function.
#[derive(PartialEq, Eq, Debug)]
pub enum Return {
    /// No value crosses the boundary.
    Void,
    /// A single scalar value.
    Num(Var),
    /// A named aggregate of the variables, in order.
    Struct(Vec<Var>, String),
}

/// Mathematical model of a [`Return`].
#[verifier::ext_equal]
pub enum ReturnV {
    Void,
    Num(VarV),
    Struct(Seq<VarV>, Seq<char>),
}

impl Return {
    /// The mathematical model of this return convention.
    pub open spec fn model(self) -> ReturnV {
        match self {
            Return::Void => ReturnV::Void,
            Return::Num(v) => ReturnV::Num(v.model()),
            Return::Struct(vs, n) => ReturnV::Struct(vars_model(vs@), n@),
        }
    }
}

/// Issues binding variables with monotonically increasing ids, local to
/// the packing of one function's return values.
pub struct VarGen {
    pub counter: u32,
}

impl Default for VarGen {
    /// A fresh generator starts counting at zero.
    fn default() -> (r: Self)
        ensures
            r.counter == 0,
    {
        VarGen { counter: 0 }
    }
}

impl VarGen {
    /// A fresh generator whose first variable gets id zero.
    pub fn new() -> (r: Self)
        ensures
            r.counter == 0,
    {
        Self::default()
    }

    /// Issues the next variable, holding a scalar numeric type.
    pub fn gen_num(&mut self, num: NumType) -> (r: Var)
        requires
            old(self).counter < u32::MAX,
        ensures
            r.binding == old(self).counter,
            r.ty == AbiType::Num(num),
            final(self).counter == old(self).counter + 1,
    {
        self.gen(AbiType::Num(num))
    }

    /// Issues the next variable, holding the given boundary type.
    pub fn gen(&mut self, ty: AbiType) -> (r: Var)
        requires
            old(self).counter < u32::MAX,
        ensures
            r.binding == old(self).counter,
            r.ty == ty,
            final(self).counter == old(self).counter + 1,
    {
        let binding = self.counter;
        self.counter = self.counter + 1;
        Var { binding, ty }
    }
}

/// A boundary object: its lowered methods in declaration order and its
/// destructor symbol.
#[derive(PartialEq, Eq, Debug)]
pub struct AbiObject {
    pub doc: Vec<String>,
    pub name: String,
    pub methods: Vec<AbiFunction>,
    pub destructor: String,
}

/// Mathematical model of an [`AbiObject`].
#[verifier::ext_equal]
pub struct AbiObjectV {
    pub doc: Seq<Seq<char>>,
    pub name: Seq<char>,
    pub methods: Seq<AbiFunctionV>,
    pub destructor: Seq<char>,
}

impl AbiObject {
    /// The mathematical model of this boundary object.
    pub open spec fn model(self) -> AbiObjectV {
        AbiObjectV {
            doc: strings_model(self.doc@),
            name: self.name@,
            methods: funcs_model(self.methods@),
            destructor: self.destructor@,
        }
    }
}

/// Models of a sequence of boundary objects.
pub open spec fn objects_model(s: Seq<AbiObject>) -> Seq<AbiObjectV> {
    s.map_values(|o: AbiObject| o.model())
}

/// A derived iterator descriptor: the element type and the symbol of the
/// originating function (with chain suffixes).
#[derive(PartialEq, Eq, Debug)]
pub struct AbiIter {
    pub ty: AbiType,
    pub symbol: String,
}

/// Mathematical model of an [`AbiIter`].
#[verifier::ext_equal]
pub struct AbiIterV {
    pub ty: AbiTypeV,
    pub symbol: Seq<char>,
}

impl AbiIterV {
    /// The synthetic iterator-next boundary function: no parameters, an
    /// optional element as return.
    pub open spec fn next_fn(self) -> AbiFunctionV {
        AbiFunctionV {
            doc: Seq::empty(),
            ty: FunctionTypeV::NextIter(self.symbol, self.ty),
            name: "next"@,
            args: Seq::empty(),
            ret: Some(AbiTypeV::Optional(Box::new(self.ty))),
        }
    }
}

impl AbiIter {
    /// The mathematical model of this descriptor.
    pub open spec fn model(self) -> AbiIterV {
        AbiIterV { ty: self.ty.model(), symbol: self.symbol@ }
    }

    /// Manufactures the synthetic iterator-next boundary function.
    pub fn next(&self) -> (r: AbiFunction)
        ensures
            r.model() == self.model().next_fn(),
    {
        let r = AbiFunction {
            ty: FunctionType::NextIter(self.symbol.clone(), self.ty.clone()),
            doc: Vec::new(),
            name: "next".to_owned(),
            args: Vec::new(),
            ret: Some(AbiType::Optional(Box::new(self.ty.clone()))),
        };
        proof {
            assert(r.model() =~= self.model().next_fn());
        }
        r
    }
}

/// A derived future descriptor: the resolved type and the symbol of the
/// originating function.
#[derive(PartialEq, Eq, Debug)]
pub struct AbiFuture {
    pub ty: AbiType,
    pub symbol: String,
}

/// Mathematical model of an [`AbiFuture`].
#[verifier::ext_equal]
pub struct AbiFutureV {
    pub ty: AbiTypeV,
    pub symbol: Seq<char>,
}

impl AbiFutureV {
    /// The synthetic future-poll boundary function: a completion-callback
    /// handle and a 64-bit port identifier, returning an optional element.
    pub open spec fn poll_fn(self) -> AbiFunctionV {
        AbiFunctionV {
            doc: Seq::empty(),
            ty: FunctionTypeV::PollFuture(self.symbol, self.ty),
            name: "poll"@,
            args: seq![
                ("post_cobject"@, AbiTypeV::Isize),
                ("port"@, AbiTypeV::Num(NumType::I64)),
            ],
            ret: Some(AbiTypeV::Optional(Box::new(self.ty))),
        }
    }
}

impl AbiFuture {
    /// The mathematical model of this descriptor.
    pub open spec fn model(self) -> AbiFutureV {
        AbiFutureV { ty: self.ty.model(), symbol: self.symbol@ }
    }

    /// Manufactures the synthetic future-poll boundary function.
    pub fn poll(&self) -> (r: AbiFunction)
        ensures
            r.model() == self.model().poll_fn(),
    {
        let mut args: Vec<(String, AbiType)> = Vec::new();
        args.push(("post_cobject".to_owned(), AbiType::Isize));
        args.push(("port".to_owned(), AbiType::Num(NumType::I64)));
        let r = AbiFunction {
            ty: FunctionType::PollFuture(self.symbol.clone(), self.ty.clone()),
            doc: Vec::new(),
            name: "poll".to_owned(),
            args,
            ret: Some(AbiType::Optional(Box::new(self.ty.clone()))),
        };
        proof {
            assert(r.model().args =~= self.model().poll_fn().args);
            assert(r.model() =~= self.model().poll_fn());
        }
        r
    }
}

/// A derived stream descriptor: the element type and the symbol of the
/// originating function.
#[derive(PartialEq, Eq, Debug)]
pub struct AbiStream {
    pub ty: AbiType,
    pub symbol: String,
}

/// Mathematical model of an [`AbiStream`].
#[verifier::ext_equal]
pub struct AbiStreamV {
    pub ty: AbiTypeV,
    pub symbol: Seq<char>,
}

impl AbiStreamV {
    /// The synthetic stream-poll boundary function: a completion-callback
    /// handle, a 64-bit port identifier and a 64-bit completion flag,
    /// returning an optional element.
    pub open spec fn poll_fn(self) -> AbiFunctionV {
        AbiFunctionV {
            doc: Seq::empty(),
            ty: FunctionTypeV::PollStream(self.symbol, self.ty),
            name: "poll"@,
            args: seq![
                ("post_cobject"@, AbiTypeV::Isize),
                ("port"@, AbiTypeV::Num(NumType::I64)),
                ("done"@, AbiTypeV::Num(NumType::I64)),
            ],
            ret: Some(AbiTypeV::Optional(Box::new(self.ty))),
        }
    }
}

impl AbiStream {
    /// The mathematical model of this descriptor.
    pub open spec fn model(self) -> AbiStreamV {
        AbiStreamV { ty: self.ty.model(), symbol: self.symbol@ }
    }

    /// Manufactures the synthetic stream-poll boundary function.
    pub fn poll(&self) -> (r: AbiFunction)
        ensures
            r.model() == self.model().poll_fn(),
    {
        let mut args: Vec<(String, AbiType)> = Vec::new();
        args.push(("post_cobject".to_owned(), AbiType::Isize));
        args.push(("port".to_owned(), AbiType::Num(NumType::I64)));
        args.push(("done".to_owned(), AbiType::Num(NumType::I64)));
        let r = AbiFunction {
            ty: FunctionType::PollStream(self.symbol.clone(), self.ty.clone()),
            doc: Vec::new(),
            name: "poll".to_owned(),
            args,
            ret: Some(AbiType::Optional(Box::new(self.ty.clone()))),
        };
        proof {
            assert(r.model().args =~= self.model().poll_fn().args);
            assert(r.model() =~= self.model().poll_fn());
        }
        r
    }
}

} // verus!
