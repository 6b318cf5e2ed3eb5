//! The closed universe of boundary-safe type shapes that lowering targets,
//! together with the scalar numeric kinds and the fatal-error taxonomy.
use vstd::prelude::*;

verus! {

/// Closed set of scalar numeric kinds that may cross the boundary.
#[derive(Clone, Copy, PartialEq, Eq, Structural, Debug)]
pub enum NumType {
    U8,
    U16,
    U32,
    U64,
    I8,
    I16,
    I32,
    I64,
    F32,
    F64,
    IPtr,
    UPtr,
}

/// Boundary-safe type shapes: the closed, recursive target universe of
/// type lowering. `Optional` is never nested directly inside `Optional`;
/// lowering rejects any surface type that would require it.
#[derive(PartialEq, Eq, Debug)]
pub enum AbiType {
    /// A scalar numeric value.
    Num(NumType),
    /// Pointer-sized unsigned integer.
    Usize,
    /// Pointer-sized signed integer.
    Isize,
    Bool,
    /// Borrowed string.
    RefStr,
    /// Owned string.
    OwnedString,
    /// Borrowed slice of scalar numeric values.
    RefSlice(NumType),
    /// Owned growable vector of scalar numeric values.
    NumVec(NumType),
    /// Borrowed opaque object handle.
    RefObject(String),
    /// Owned opaque object handle.
    Object(String),
    /// Optional wrapper; the inner type is never itself `Optional`.
    Optional(Box<AbiType>),
    /// Fallible wrapper.
    Fallible(Box<AbiType>),
    /// Borrowed iterator handle over values of the inner type.
    RefIter(Box<AbiType>),
    /// Owned iterator handle over values of the inner type.
    Iter(Box<AbiType>),
    /// Borrowed future handle resolving to the inner type.
    RefFuture(Box<AbiType>),
    /// Owned future handle resolving to the inner type.
    Future(Box<AbiType>),
    /// Borrowed stream handle yielding values of the inner type.
    RefStream(Box<AbiType>),
    /// Owned stream handle yielding values of the inner type.
    Stream(Box<AbiType>),
    /// Fixed-arity tuple of boundary types.
    Tuple(Vec<AbiType>),
    /// Raw numeric buffer of a scalar element kind.
    Buffer(NumType),
    /// Named list of composite elements, referenced by name.
    List(String),
    /// Borrowed enum handle.
    RefEnum(String),
}

/// Mathematical model of an [`AbiType`]: names are character sequences,
/// tuples are sequences of models.
pub enum AbiTypeV {
    Num(NumType),
    Usize,
    Isize,
    Bool,
    RefStr,
    OwnedString,
    RefSlice(NumType),
    NumVec(NumType),
    RefObject(Seq<char>),
    Object(Seq<char>),
    Optional(Box<AbiTypeV>),
    Fallible(Box<AbiTypeV>),
    RefIter(Box<AbiTypeV>),
    Iter(Box<AbiTypeV>),
    RefFuture(Box<AbiTypeV>),
    Future(Box<AbiTypeV>),
    RefStream(Box<AbiTypeV>),
    Stream(Box<AbiTypeV>),
    Tuple(Seq<AbiTypeV>),
    Buffer(NumType),
    List(Seq<char>),
    RefEnum(Seq<char>),
}

impl AbiType {
    /// The mathematical model of this boundary type.
    pub open spec fn model(self) -> AbiTypeV
        decreases self,
    {
        match self {
            AbiType::Num(n) => AbiTypeV::Num(n),
            AbiType::Usize => AbiTypeV::Usize,
            AbiType::Isize => AbiTypeV::Isize,
            AbiType::Bool => AbiTypeV::Bool,
            AbiType::RefStr => AbiTypeV::RefStr,
            AbiType::OwnedString => AbiTypeV::OwnedString,
            AbiType::RefSlice(n) => AbiTypeV::RefSlice(n),
            AbiType::NumVec(n) => AbiTypeV::NumVec(n),
            AbiType::RefObject(s) => AbiTypeV::RefObject(s@),
            AbiType::Object(s) => AbiTypeV::Object(s@),
            AbiType::Optional(b) => AbiTypeV::Optional(Box::new(b.model())),
            AbiType::Fallible(b) => AbiTypeV::Fallible(Box::new(b.model())),
            AbiType::RefIter(b) => AbiTypeV::RefIter(Box::new(b.model())),
            AbiType::Iter(b) => AbiTypeV::Iter(Box::new(b.model())),
            AbiType::RefFuture(b) => AbiTypeV::RefFuture(Box::new(b.model())),
            AbiType::Future(b) => AbiTypeV::Future(Box::new(b.model())),
            AbiType::RefStream(b) => AbiTypeV::RefStream(Box::new(b.model())),
            AbiType::Stream(b) => AbiTypeV::Stream(Box::new(b.model())),
            AbiType::Tuple(ts) => AbiTypeV::Tuple(abi_models_of(ts@)),
            AbiType::Buffer(n) => AbiTypeV::Buffer(n),
            AbiType::List(s) => AbiTypeV::List(s@),
            AbiType::RefEnum(s) => AbiTypeV::RefEnum(s@),
        }
    }

    /// The scalar numeric kind held by a `Num` shape. Other shapes have no
    /// scalar kind; asking for one is outside this accessor's domain.
    pub fn num(&self) -> (r: NumType)
        requires
            self.model() is Num,
        ensures
            self.model() == AbiTypeV::Num(r),
    {
        match self {
            AbiType::Num(n) => *n,
            _ => {
                proof {
                    assert(false);
                }
                NumType::U8
            },
        }
    }
}

/// Models of a sequence of boundary types, elementwise and in order.
pub open spec fn abi_models_of(ts: Seq<AbiType>) -> Seq<AbiTypeV>
    decreases ts,
{
    if ts.len() == 0 {
        Seq::empty()
    } else {
        seq![ts[0].model()] + abi_models_of(ts.subrange(1, ts.len() as int))
    }
}

/// `abi_models_of` is the elementwise image of `model`.
pub proof fn lemma_abi_models_of(ts: Seq<AbiType>)
    ensures
        abi_models_of(ts).len() == ts.len(),
        forall|i: int| 0 <= i < ts.len() ==> abi_models_of(ts)[i] == ts[i].model(),
    decreases ts.len(),
{
    if ts.len() != 0 {
        lemma_abi_models_of(ts.subrange(1, ts.len() as int));
    }
}

/// Clones every element of a sequence of boundary types, preserving models.
fn clone_abi_types(ts: &Vec<AbiType>) -> (res: Vec<AbiType>)
    ensures
        res@.len() == ts@.len(),
        forall|k: int| 0 <= k < ts@.len() ==> res@[k].model() == ts@[k].model(),
    decreases ts@, 0int,
{
    let mut v: Vec<AbiType> = Vec::new();
    let mut i: usize = 0;
    while i < ts.len()
        invariant
            i <= ts@.len(),
            v@.len() == i,
            forall|k: int| 0 <= k < i ==> v@[k].model() == ts@[k].model(),
        decreases ts@.len() - i,
    {
        v.push(ts[i].clone());
        i = i + 1;
    }
    v
}

impl Clone for AbiType {
    /// Cloning preserves the model.
    fn clone(&self) -> (res: Self)
        ensures
            res.model() == self.model(),
        decreases self, 1int,
    {
        match self {
            AbiType::Num(n) => AbiType::Num(*n),
            AbiType::Usize => AbiType::Usize,
            AbiType::Isize => AbiType::Isize,
            AbiType::Bool => AbiType::Bool,
            AbiType::RefStr => AbiType::RefStr,
            AbiType::OwnedString => AbiType::OwnedString,
            AbiType::RefSlice(n) => AbiType::RefSlice(*n),
            AbiType::NumVec(n) => AbiType::NumVec(*n),
            AbiType::RefObject(s) => AbiType::RefObject(s.clone()),
            AbiType::Object(s) => AbiType::Object(s.clone()),
            AbiType::Optional(b) => AbiType::Optional(Box::new((**b).clone())),
            AbiType::Fallible(b) => AbiType::Fallible(Box::new((**b).clone())),
            AbiType::RefIter(b) => AbiType::RefIter(Box::new((**b).clone())),
            AbiType::Iter(b) => AbiType::Iter(Box::new((**b).clone())),
            AbiType::RefFuture(b) => AbiType::RefFuture(Box::new((**b).clone())),
            AbiType::Future(b) => AbiType::Future(Box::new((**b).clone())),
            AbiType::RefStream(b) => AbiType::RefStream(Box::new((**b).clone())),
            AbiType::Stream(b) => AbiType::Stream(Box::new((**b).clone())),
            AbiType::Tuple(ts) => {
                let v = clone_abi_types(ts);
                proof {
                    lemma_abi_models_of(v@);
                    lemma_abi_models_of(ts@);
                    assert(abi_models_of(v@) =~= abi_models_of(ts@));
                }
                AbiType::Tuple(v)
            },
            AbiType::Buffer(n) => AbiType::Buffer(*n),
            AbiType::List(s) => AbiType::List(s.clone()),
            AbiType::RefEnum(s) => AbiType::RefEnum(s.clone()),
        }
    }
}

/// The shape of a surface construct that has no defined lowering.
#[derive(Clone, Copy, PartialEq, Eq, Structural, Debug)]
pub enum ShapeKind {
    /// An optional whose inner type already lowers to an optional.
    NestedOptional,
    /// A slice passed by value; slices must be passed by reference.
    SliceByValue,
    /// A raw buffer whose element does not lower to a scalar.
    NonScalarBuffer,
    /// A referenced slice whose element does not lower to a scalar.
    NonScalarSlice,
    /// A growable list whose element lowers to an unsupported shape.
    UnsupportedListElement,
    /// A by-reference wrapper around an unsupported target.
    UnsupportedRefTarget,
}

/// Build-time-fatal failures; generation aborts on the first one.
#[derive(PartialEq, Eq, Debug)]
pub enum AbiError {
    /// A referenced name resolves to neither an object nor an enum.
    UnresolvedIdent(String),
    /// A surface type combination has no defined lowering.
    UnsupportedShape(ShapeKind),
    /// A free function is marked static: an internal-consistency violation.
    StaticFreeFunction(String),
    /// A layout was requested for a kind that has none defined yet.
    IncompleteLayout(NumType),
}

/// Mathematical model of an [`AbiError`].
pub enum AbiErrorV {
    UnresolvedIdent(Seq<char>),
    UnsupportedShape(ShapeKind),
    StaticFreeFunction(Seq<char>),
    IncompleteLayout(NumType),
}

impl AbiError {
    /// The mathematical model of this error.
    pub open spec fn model(self) -> AbiErrorV {
        match self {
            AbiError::UnresolvedIdent(s) => AbiErrorV::UnresolvedIdent(s@),
            AbiError::UnsupportedShape(k) => AbiErrorV::UnsupportedShape(k),
            AbiError::StaticFreeFunction(s) => AbiErrorV::StaticFreeFunction(s@),
            AbiError::IncompleteLayout(n) => AbiErrorV::IncompleteLayout(n),
        }
    }
}

} // verus!
