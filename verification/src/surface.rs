//! The surface declaration tree consumed by lowering: the surface type
//! grammar, object/function/enum declarations, and identifier-kind
//! resolution (object vs. enum membership).
use vstd::prelude::*;

verus! {

/// The surface type grammar of the interface declarations.
#[derive(PartialEq, Eq, Debug)]
pub enum Type {
    U8,
    U16,
    U32,
    U64,
    Usize,
    I8,
    I16,
    I32,
    I64,
    Isize,
    F32,
    F64,
    Bool,
    /// Raw byte-buffer of an element type.
    Buffer(Box<Type>),
    /// A by-reference wrapper.
    Ref(Box<Type>),
    /// Owned string.
    Str,
    /// A slice; only meaningful behind a reference.
    Slice(Box<Type>),
    /// Growable list of an element type.
    List(Box<Type>),
    /// A named identifier, resolved at lowering time to object or enum.
    Ident(String),
    /// Optional of an inner type.
    Optional(Box<Type>),
    /// Fallible of an inner type.
    Fallible(Box<Type>),
    /// Iterator over an inner type.
    Iter(Box<Type>),
    /// Future resolving to an inner type.
    Future(Box<Type>),
    /// Stream yielding an inner type.
    Stream(Box<Type>),
    /// Fixed-arity tuple.
    Tuple(Vec<Type>),
}

/// Mathematical model of a surface [`Type`].
pub enum TypeV {
    U8,
    U16,
    U32,
    U64,
    Usize,
    I8,
    I16,
    I32,
    I64,
    Isize,
    F32,
    F64,
    Bool,
    Buffer(Box<TypeV>),
    Ref(Box<TypeV>),
    Str,
    Slice(Box<TypeV>),
    List(Box<TypeV>),
    Ident(Seq<char>),
    Optional(Box<TypeV>),
    Fallible(Box<TypeV>),
    Iter(Box<TypeV>),
    Future(Box<TypeV>),
    Stream(Box<TypeV>),
    Tuple(Seq<TypeV>),
}

impl Type {
    /// The mathematical model of this surface type.
    pub open spec fn model(self) -> TypeV
        decreases self,
    {
        match self {
            Type::U8 => TypeV::U8,
            Type::U16 => TypeV::U16,
            Type::U32 => TypeV::U32,
            Type::U64 => TypeV::U64,
            Type::Usize => TypeV::Usize,
            Type::I8 => TypeV::I8,
            Type::I16 => TypeV::I16,
            Type::I32 => TypeV::I32,
            Type::I64 => TypeV::I64,
            Type::Isize => TypeV::Isize,
            Type::F32 => TypeV::F32,
            Type::F64 => TypeV::F64,
            Type::Bool => TypeV::Bool,
            Type::Buffer(b) => TypeV::Buffer(Box::new(b.model())),
            Type::Ref(b) => TypeV::Ref(Box::new(b.model())),
            Type::Str => TypeV::Str,
            Type::Slice(b) => TypeV::Slice(Box::new(b.model())),
            Type::List(b) => TypeV::List(Box::new(b.model())),
            Type::Ident(s) => TypeV::Ident(s@),
            Type::Optional(b) => TypeV::Optional(Box::new(b.model())),
            Type::Fallible(b) => TypeV::Fallible(Box::new(b.model())),
            Type::Iter(b) => TypeV::Iter(Box::new(b.model())),
            Type::Future(b) => TypeV::Future(Box::new(b.model())),
            Type::Stream(b) => TypeV::Stream(Box::new(b.model())),
            Type::Tuple(ts) => TypeV::Tuple(type_models_of(ts@)),
        }
    }
}

/// Models of a sequence of surface types, elementwise and in order.
pub open spec fn type_models_of(ts: Seq<Type>) -> Seq<TypeV>
    decreases ts,
{
    if ts.len() == 0 {
        Seq::empty()
    } else {
        seq![ts[0].model()] + type_models_of(ts.subrange(1, ts.len() as int))
    }
}

/// `type_models_of` is the elementwise image of `model`.
pub proof fn lemma_type_models_of(ts: Seq<Type>)
    ensures
        type_models_of(ts).len() == ts.len(),
        forall|i: int| 0 <= i < ts.len() ==> type_models_of(ts)[i] == ts[i].model(),
    decreases ts.len(),
{
    if ts.len() != 0 {
        lemma_type_models_of(ts.subrange(1, ts.len() as int));
    }
}

/// A declared method or free function: doc lines, identifier, whether it is
/// declared static, and its typed arguments and optional return type.
#[derive(PartialEq, Eq, Debug)]
pub struct FnDecl {
    pub doc: Vec<String>,
    pub ident: String,
    pub is_static: bool,
    pub args: Vec<(String, Type)>,
    pub ret: Option<Type>,
}

/// Mathematical model of a [`FnDecl`].
#[verifier::ext_equal]
pub struct FnDeclV {
    pub doc: Seq<Seq<char>>,
    pub ident: Seq<char>,
    pub is_static: bool,
    pub args: Seq<(Seq<char>, TypeV)>,
    pub ret: Option<TypeV>,
}

impl FnDecl {
    /// The mathematical model of this declaration.
    pub open spec fn model(self) -> FnDeclV {
        FnDeclV {
            doc: self.doc@.map_values(|d: String| d@),
            ident: self.ident@,
            is_static: self.is_static,
            args: self.args@.map_values(|p: (String, Type)| (p.0@, p.1.model())),
            ret: match self.ret {
                Some(t) => Some(t.model()),
                None => None,
            },
        }
    }
}

/// Models of a sequence of function declarations.
pub open spec fn fn_decls_model(s: Seq<FnDecl>) -> Seq<FnDeclV> {
    s.map_values(|f: FnDecl| f.model())
}

/// A declared object: doc lines, identifier and methods in declaration
/// order.
#[derive(PartialEq, Eq, Debug)]
pub struct ObjDecl {
    pub doc: Vec<String>,
    pub ident: String,
    pub methods: Vec<FnDecl>,
}

/// Mathematical model of an [`ObjDecl`].
#[verifier::ext_equal]
pub struct ObjDeclV {
    pub doc: Seq<Seq<char>>,
    pub ident: Seq<char>,
    pub methods: Seq<FnDeclV>,
}

impl ObjDecl {
    /// The mathematical model of this declaration.
    pub open spec fn model(self) -> ObjDeclV {
        ObjDeclV {
            doc: self.doc@.map_values(|d: String| d@),
            ident: self.ident@,
            methods: fn_decls_model(self.methods@),
        }
    }
}

/// A parsed interface declaration: objects, free functions and enum
/// identifiers. Identifiers are unique across objects and enums combined.
#[derive(PartialEq, Eq, Debug)]
pub struct Interface {
    pub objects: Vec<ObjDecl>,
    pub functions: Vec<FnDecl>,
    pub enums: Vec<String>,
}

/// Mathematical model of an [`Interface`].
#[verifier::ext_equal]
pub struct InterfaceV {
    pub objects: Seq<ObjDeclV>,
    pub functions: Seq<FnDeclV>,
    pub enums: Seq<Seq<char>>,
}

impl InterfaceV {
    /// Whether a name is a declared object identifier.
    pub open spec fn is_object_name(self, name: Seq<char>) -> bool {
        exists|i: int| 0 <= i < self.objects.len() && self.objects[i].ident == name
    }

    /// Whether a name is a declared enum identifier.
    pub open spec fn is_enum_name(self, name: Seq<char>) -> bool {
        exists|i: int| 0 <= i < self.enums.len() && self.enums[i] == name
    }
}

impl Interface {
    /// The mathematical model of this interface.
    pub open spec fn model(self) -> InterfaceV {
        InterfaceV {
            objects: self.objects@.map_values(|o: ObjDecl| o.model()),
            functions: fn_decls_model(self.functions@),
            enums: self.enums@.map_values(|e: String| e@),
        }
    }

    /// Identifier-kind resolution: is this name a declared object?
    pub fn is_object(&self, name: &String) -> (r: bool)
        ensures
            r == self.model().is_object_name(name@),
    {
        let mut i: usize = 0;
        while i < self.objects.len()
            invariant
                i <= self.objects@.len(),
                forall|k: int| 0 <= k < i ==> self.model().objects[k].ident != name@,
            decreases self.objects@.len() - i,
        {
            if self.objects[i].ident.eq(name) {
                assert(self.model().objects[i as int].ident == name@);
                return true;
            }
            i = i + 1;
        }
        false
    }

    /// Identifier-kind resolution: is this name a declared enum?
    pub fn is_enum(&self, name: &String) -> (r: bool)
        ensures
            r == self.model().is_enum_name(name@),
    {
        let mut i: usize = 0;
        while i < self.enums.len()
            invariant
                i <= self.enums@.len(),
                forall|k: int| 0 <= k < i ==> self.model().enums[k] != name@,
            decreases self.enums@.len() - i,
        {
            if self.enums[i].eq(name) {
                assert(self.model().enums[i as int] == name@);
                return true;
            }
            i = i + 1;
        }
        false
    }
}

} // verus!
