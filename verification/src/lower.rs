//! Type lowering: the pure, total mapping from surface types to
//! boundary-safe types, failing fatally on every unsupported combination.
use crate::surface::Interface;
use crate::surface::InterfaceV;
use crate::surface::Type;
use crate::surface::TypeV;
use crate::surface::lemma_type_models_of;
use crate::surface::type_models_of;
use crate::types::AbiError;
use crate::types::AbiErrorV;
use crate::types::AbiType;
use crate::types::AbiTypeV;
use crate::types::NumType;
use crate::types::ShapeKind;
use crate::types::abi_models_of;
use crate::types::lemma_abi_models_of;
use vstd::prelude::*;

verus! {

/// The lowering of one surface type against an interface: either the
/// boundary type it maps to, or the fatal diagnostic it raises.
pub open spec fn lower(iv: InterfaceV, t: TypeV) -> Result<AbiTypeV, AbiErrorV>
    decreases t, 0int,
{
    match t {
        TypeV::U8 => Ok(AbiTypeV::Num(NumType::U8)),
        TypeV::U16 => Ok(AbiTypeV::Num(NumType::U16)),
        TypeV::U32 => Ok(AbiTypeV::Num(NumType::U32)),
        TypeV::U64 => Ok(AbiTypeV::Num(NumType::U64)),
        TypeV::Usize => Ok(AbiTypeV::Usize),
        TypeV::I8 => Ok(AbiTypeV::Num(NumType::I8)),
        TypeV::I16 => Ok(AbiTypeV::Num(NumType::I16)),
        TypeV::I32 => Ok(AbiTypeV::Num(NumType::I32)),
        TypeV::I64 => Ok(AbiTypeV::Num(NumType::I64)),
        TypeV::Isize => Ok(AbiTypeV::Isize),
        TypeV::F32 => Ok(AbiTypeV::Num(NumType::F32)),
        TypeV::F64 => Ok(AbiTypeV::Num(NumType::F64)),
        TypeV::Bool => Ok(AbiTypeV::Bool),
        TypeV::Buffer(b) => match lower(iv, *b) {
            Ok(AbiTypeV::Num(n)) => Ok(AbiTypeV::Buffer(n)),
            Ok(_) => Err(AbiErrorV::UnsupportedShape(ShapeKind::NonScalarBuffer)),
            Err(e) => Err(e),
        },
        TypeV::Ref(b) => match *b {
            TypeV::Str => Ok(AbiTypeV::RefStr),
            TypeV::Slice(b2) => match lower(iv, *b2) {
                Ok(AbiTypeV::Num(n)) => Ok(AbiTypeV::RefSlice(n)),
                Ok(_) => Err(AbiErrorV::UnsupportedShape(ShapeKind::NonScalarSlice)),
                Err(e) => Err(e),
            },
            TypeV::Ident(name) => if iv.is_object_name(name) {
                Ok(AbiTypeV::RefObject(name))
            } else if iv.is_enum_name(name) {
                Ok(AbiTypeV::RefEnum(name))
            } else {
                Err(AbiErrorV::UnresolvedIdent(name))
            },
            _ => Err(AbiErrorV::UnsupportedShape(ShapeKind::UnsupportedRefTarget)),
        },
        TypeV::Str => Ok(AbiTypeV::OwnedString),
        TypeV::Slice(_) => Err(AbiErrorV::UnsupportedShape(ShapeKind::SliceByValue)),
        TypeV::List(b) => match lower(iv, *b) {
            Ok(AbiTypeV::Num(n)) => Ok(AbiTypeV::NumVec(n)),
            Ok(AbiTypeV::Object(name)) => Ok(AbiTypeV::List(name)),
            Ok(AbiTypeV::RefEnum(name)) => Ok(AbiTypeV::List(name)),
            Ok(AbiTypeV::OwnedString) => Ok(AbiTypeV::List("FfiString"@)),
            Ok(_) => Err(AbiErrorV::UnsupportedShape(ShapeKind::UnsupportedListElement)),
            Err(e) => Err(e),
        },
        TypeV::Ident(name) => if iv.is_object_name(name) {
            Ok(AbiTypeV::Object(name))
        } else if iv.is_enum_name(name) {
            Ok(AbiTypeV::RefEnum(name))
        } else {
            Err(AbiErrorV::UnresolvedIdent(name))
        },
        TypeV::Optional(b) => match lower(iv, *b) {
            Ok(AbiTypeV::Optional(_)) => Err(
                AbiErrorV::UnsupportedShape(ShapeKind::NestedOptional),
            ),
            Ok(x) => Ok(AbiTypeV::Optional(Box::new(x))),
            Err(e) => Err(e),
        },
        TypeV::Fallible(b) => match lower(iv, *b) {
            Ok(x) => Ok(AbiTypeV::Fallible(Box::new(x))),
            Err(e) => Err(e),
        },
        TypeV::Iter(b) => match lower(iv, *b) {
            Ok(x) => Ok(AbiTypeV::Iter(Box::new(x))),
            Err(e) => Err(e),
        },
        TypeV::Future(b) => match lower(iv, *b) {
            Ok(x) => Ok(AbiTypeV::Future(Box::new(x))),
            Err(e) => Err(e),
        },
        TypeV::Stream(b) => match lower(iv, *b) {
            Ok(x) => Ok(AbiTypeV::Stream(Box::new(x))),
            Err(e) => Err(e),
        },
        TypeV::Tuple(ts) => match lower_all_from(iv, ts, 0) {
            Ok(xs) => Ok(AbiTypeV::Tuple(xs)),
            Err(e) => Err(e),
        },
    }
}

/// The lowering of a suffix of a sequence of surface types, in order,
/// stopping at the first failure.
pub open spec fn lower_all_from(iv: InterfaceV, ts: Seq<TypeV>, i: int) -> Result<
    Seq<AbiTypeV>,
    AbiErrorV,
>
    decreases ts, ts.len() - i,
{
    if i < 0 || i >= ts.len() {
        Ok(Seq::empty())
    } else {
        match lower(iv, ts[i]) {
            Err(e) => Err(e),
            Ok(x) => match lower_all_from(iv, ts, i + 1) {
                Err(e) => Err(e),
                Ok(xs) => Ok(seq![x] + xs),
            },
        }
    }
}

impl Interface {
    /// Lowers one surface type to its boundary type, or fails fatally on
    /// an unsupported or ill-formed construct; deterministic, and exactly
    /// the mapping described by [`lower`].
    #[verifier::rlimit(100)]
    pub fn to_type(&self, ty: &Type) -> (r: Result<AbiType, AbiError>)
        ensures
            (match lower(self.model(), ty.model()) {
                Ok(x) => r matches Ok(a) && a.model() == x,
                Err(e) => r matches Err(err) && err.model() == e,
            }),
        decreases ty, 1int,
    {
        match ty {
            Type::U8 => Ok(AbiType::Num(NumType::U8)),
            Type::U16 => Ok(AbiType::Num(NumType::U16)),
            Type::U32 => Ok(AbiType::Num(NumType::U32)),
            Type::U64 => Ok(AbiType::Num(NumType::U64)),
            Type::Usize => Ok(AbiType::Usize),
            Type::I8 => Ok(AbiType::Num(NumType::I8)),
            Type::I16 => Ok(AbiType::Num(NumType::I16)),
            Type::I32 => Ok(AbiType::Num(NumType::I32)),
            Type::I64 => Ok(AbiType::Num(NumType::I64)),
            Type::Isize => Ok(AbiType::Isize),
            Type::F32 => Ok(AbiType::Num(NumType::F32)),
            Type::F64 => Ok(AbiType::Num(NumType::F64)),
            Type::Bool => Ok(AbiType::Bool),
            Type::Buffer(inner) => match self.to_type(inner) {
                Ok(AbiType::Num(n)) => Ok(AbiType::Buffer(n)),
                Ok(_) => Err(AbiError::UnsupportedShape(ShapeKind::NonScalarBuffer)),
                Err(e) => Err(e),
            },
            Type::Ref(inner) => match &**inner {
                Type::Str => {
                    proof {
                        assert((**inner).model() == TypeV::Str);
                    }
                    Ok(AbiType::RefStr)
                },
                Type::Slice(inner2) => {
                    proof {
                        assert((**inner).model() matches TypeV::Slice(b) && *b == (**inner2).model());
                    }
                    match self.to_type(inner2) {
                        Ok(AbiType::Num(n)) => Ok(AbiType::RefSlice(n)),
                        Ok(_) => Err(AbiError::UnsupportedShape(ShapeKind::NonScalarSlice)),
                        Err(e) => Err(e),
                    }
                },
                Type::Ident(ident) => {
                    proof {
                        assert((**inner).model() == TypeV::Ident(ident@));
                    }
                    if self.is_object(ident) {
                        Ok(AbiType::RefObject(ident.clone()))
                    } else if self.is_enum(ident) {
                        Ok(AbiType::RefEnum(ident.clone()))
                    } else {
                        Err(AbiError::UnresolvedIdent(ident.clone()))
                    }
                },
                _ => {
                    proof {
                        assert(!((**inner).model() is Str) && !((**inner).model() is Slice)
                            && !((**inner).model() is Ident));
                    }
                    Err(AbiError::UnsupportedShape(ShapeKind::UnsupportedRefTarget))
                },
            },
            Type::Str => Ok(AbiType::OwnedString),
            Type::Slice(_) => Err(AbiError::UnsupportedShape(ShapeKind::SliceByValue)),
            Type::List(inner) => match self.to_type(inner) {
                Ok(AbiType::Num(n)) => Ok(AbiType::NumVec(n)),
                Ok(AbiType::Object(name)) => Ok(AbiType::List(name)),
                Ok(AbiType::RefEnum(name)) => Ok(AbiType::List(name)),
                Ok(AbiType::OwnedString) => Ok(AbiType::List("FfiString".to_owned())),
                Ok(_) => Err(AbiError::UnsupportedShape(ShapeKind::UnsupportedListElement)),
                Err(e) => Err(e),
            },
            Type::Ident(ident) => {
                if self.is_object(ident) {
                    Ok(AbiType::Object(ident.clone()))
                } else if self.is_enum(ident) {
                    Ok(AbiType::RefEnum(ident.clone()))
                } else {
                    Err(AbiError::UnresolvedIdent(ident.clone()))
                }
            },
            Type::Optional(inner) => match self.to_type(inner) {
                Err(e) => Err(e),
                Ok(AbiType::Optional(_)) => Err(
                    AbiError::UnsupportedShape(ShapeKind::NestedOptional),
                ),
                Ok(x) => Ok(AbiType::Optional(Box::new(x))),
            },
            Type::Fallible(inner) => match self.to_type(inner) {
                Err(e) => Err(e),
                Ok(x) => Ok(AbiType::Fallible(Box::new(x))),
            },
            Type::Iter(inner) => match self.to_type(inner) {
                Err(e) => Err(e),
                Ok(x) => Ok(AbiType::Iter(Box::new(x))),
            },
            Type::Future(inner) => match self.to_type(inner) {
                Err(e) => Err(e),
                Ok(x) => Ok(AbiType::Future(Box::new(x))),
            },
            Type::Stream(inner) => match self.to_type(inner) {
                Err(e) => Err(e),
                Ok(x) => Ok(AbiType::Stream(Box::new(x))),
            },
            Type::Tuple(ts) => match lower_tuple_elems(self, ts) {
                Err(e) => Err(e),
                Ok(xs) => Ok(AbiType::Tuple(xs)),
            },
        }
    }
}

/// Lowers every element of a tuple in order, stopping at the first failure.
fn lower_tuple_elems(iface: &Interface, ts: &Vec<Type>) -> (r: Result<Vec<AbiType>, AbiError>)
    ensures
        (match lower_all_from(iface.model(), type_models_of(ts@), 0) {
            Ok(xs) => r matches Ok(v) && abi_models_of(v@) == xs,
            Err(e) => r matches Err(err) && err.model() == e,
        }),
    decreases ts@, 0int,
{
    let ghost iv = iface.model();
    let ghost tms = type_models_of(ts@);
    proof {
        lemma_type_models_of(ts@);
    }
    let mut out: Vec<AbiType> = Vec::new();
    let mut i: usize = 0;
    proof {
        if lower_all_from(iv, tms, 0) is Ok {
            let r0 = lower_all_from(iv, tms, 0)->Ok_0;
            assert(abi_models_of(out@) + r0 =~= r0);
        }
    }
    while i < ts.len()
        invariant
            i <= ts@.len(),
            iv == iface.model(),
            tms == type_models_of(ts@),
            tms.len() == ts@.len(),
            forall|k: int| 0 <= k < ts@.len() ==> tms[k] == ts@[k].model(),
            out@.len() == i,
            lower_all_from(iv, tms, 0) == (match lower_all_from(iv, tms, i as int) {
                Err(e) => Err::<Seq<AbiTypeV>, AbiErrorV>(e),
                Ok(rest) => Ok::<Seq<AbiTypeV>, AbiErrorV>(abi_models_of(out@) + rest),
            }),
        decreases ts@.len() - i,
    {
        let ghost out0 = out@;
        let x = match iface.to_type(&ts[i]) {
            Err(e) => {
                return Err(e);
            },
            Ok(x) => x,
        };
        let ghost xm = x.model();
        out.push(x);
        proof {
            lemma_abi_models_of(out0);
            lemma_abi_models_of(out@);
            assert(abi_models_of(out@) =~= abi_models_of(out0) + seq![xm]);
            if lower_all_from(iv, tms, i + 1) is Ok {
                let xs = lower_all_from(iv, tms, i + 1)->Ok_0;
                assert((abi_models_of(out0) + seq![xm]) + xs =~= abi_models_of(out0) + (seq![xm]
                    + xs));
            }
        }
        i = i + 1;
    }
    proof {
        assert(abi_models_of(out@) + Seq::<AbiTypeV>::empty() =~= abi_models_of(out@));
    }
    Ok(out)
}

} // verus!
