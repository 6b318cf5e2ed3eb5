use abi_lowering::surface::{Interface, ObjDecl, Type};
use abi_lowering::types::{AbiError, AbiType, NumType, ShapeKind};

fn empty_iface() -> Interface {
    Interface { objects: vec![], functions: vec![], enums: vec![] }
}

fn iface_with_names() -> Interface {
    Interface {
        objects: vec![ObjDecl { doc: vec![], ident: "File".to_string(), methods: vec![] }],
        functions: vec![],
        enums: vec!["Color".to_string()],
    }
}

#[test]
fn lowers_fixed_width_scalars() {
    let i = empty_iface();
    assert_eq!(i.to_type(&Type::U8), Ok(AbiType::Num(NumType::U8)));
    assert_eq!(i.to_type(&Type::U16), Ok(AbiType::Num(NumType::U16)));
    assert_eq!(i.to_type(&Type::U32), Ok(AbiType::Num(NumType::U32)));
    assert_eq!(i.to_type(&Type::U64), Ok(AbiType::Num(NumType::U64)));
    assert_eq!(i.to_type(&Type::I8), Ok(AbiType::Num(NumType::I8)));
    assert_eq!(i.to_type(&Type::I16), Ok(AbiType::Num(NumType::I16)));
    assert_eq!(i.to_type(&Type::I32), Ok(AbiType::Num(NumType::I32)));
    assert_eq!(i.to_type(&Type::I64), Ok(AbiType::Num(NumType::I64)));
    assert_eq!(i.to_type(&Type::F32), Ok(AbiType::Num(NumType::F32)));
    assert_eq!(i.to_type(&Type::F64), Ok(AbiType::Num(NumType::F64)));
    assert_eq!(i.to_type(&Type::Bool), Ok(AbiType::Bool));
    assert_eq!(i.to_type(&Type::Usize), Ok(AbiType::Usize));
    assert_eq!(i.to_type(&Type::Isize), Ok(AbiType::Isize));
}

#[test]
fn lowers_strings_and_slices() {
    let i = empty_iface();
    assert_eq!(i.to_type(&Type::Str), Ok(AbiType::OwnedString));
    assert_eq!(i.to_type(&Type::Ref(Box::new(Type::Str))), Ok(AbiType::RefStr));
    assert_eq!(
        i.to_type(&Type::Ref(Box::new(Type::Slice(Box::new(Type::U8))))),
        Ok(AbiType::RefSlice(NumType::U8))
    );
    assert_eq!(
        i.to_type(&Type::Buffer(Box::new(Type::F32))),
        Ok(AbiType::Buffer(NumType::F32))
    );
}

#[test]
fn bare_slice_is_rejected() {
    let i = empty_iface();
    assert_eq!(
        i.to_type(&Type::Slice(Box::new(Type::U8))),
        Err(AbiError::UnsupportedShape(ShapeKind::SliceByValue))
    );
}

#[test]
fn non_scalar_buffer_is_rejected() {
    let i = empty_iface();
    assert_eq!(
        i.to_type(&Type::Buffer(Box::new(Type::Str))),
        Err(AbiError::UnsupportedShape(ShapeKind::NonScalarBuffer))
    );
}

#[test]
fn non_scalar_ref_slice_is_rejected() {
    let i = empty_iface();
    assert_eq!(
        i.to_type(&Type::Ref(Box::new(Type::Slice(Box::new(Type::Str))))),
        Err(AbiError::UnsupportedShape(ShapeKind::NonScalarSlice))
    );
}

#[test]
fn ref_of_unsupported_target_is_rejected() {
    let i = empty_iface();
    assert_eq!(
        i.to_type(&Type::Ref(Box::new(Type::U8))),
        Err(AbiError::UnsupportedShape(ShapeKind::UnsupportedRefTarget))
    );
}

#[test]
fn identifiers_resolve_to_objects_and_enums() {
    let i = iface_with_names();
    assert_eq!(
        i.to_type(&Type::Ident("File".to_string())),
        Ok(AbiType::Object("File".to_string()))
    );
    assert_eq!(
        i.to_type(&Type::Ident("Color".to_string())),
        Ok(AbiType::RefEnum("Color".to_string()))
    );
    assert_eq!(
        i.to_type(&Type::Ref(Box::new(Type::Ident("File".to_string())))),
        Ok(AbiType::RefObject("File".to_string()))
    );
    assert_eq!(
        i.to_type(&Type::Ref(Box::new(Type::Ident("Color".to_string())))),
        Ok(AbiType::RefEnum("Color".to_string()))
    );
}

#[test]
fn unresolved_identifier_is_rejected() {
    let i = iface_with_names();
    assert_eq!(
        i.to_type(&Type::Ident("Nope".to_string())),
        Err(AbiError::UnresolvedIdent("Nope".to_string()))
    );
    assert_eq!(
        i.to_type(&Type::Ref(Box::new(Type::Ident("Nope".to_string())))),
        Err(AbiError::UnresolvedIdent("Nope".to_string()))
    );
}

#[test]
fn lowers_growable_lists() {
    let i = iface_with_names();
    assert_eq!(
        i.to_type(&Type::List(Box::new(Type::U16))),
        Ok(AbiType::NumVec(NumType::U16))
    );
    assert_eq!(
        i.to_type(&Type::List(Box::new(Type::Ident("File".to_string())))),
        Ok(AbiType::List("File".to_string()))
    );
    assert_eq!(
        i.to_type(&Type::List(Box::new(Type::Ident("Color".to_string())))),
        Ok(AbiType::List("Color".to_string()))
    );
    assert_eq!(
        i.to_type(&Type::List(Box::new(Type::Str))),
        Ok(AbiType::List("FfiString".to_string()))
    );
    assert_eq!(
        i.to_type(&Type::List(Box::new(Type::Bool))),
        Err(AbiError::UnsupportedShape(ShapeKind::UnsupportedListElement))
    );
}

#[test]
fn lowers_wrappers_and_tuples() {
    let i = empty_iface();
    assert_eq!(
        i.to_type(&Type::Optional(Box::new(Type::U8))),
        Ok(AbiType::Optional(Box::new(AbiType::Num(NumType::U8))))
    );
    assert_eq!(
        i.to_type(&Type::Fallible(Box::new(Type::Bool))),
        Ok(AbiType::Fallible(Box::new(AbiType::Bool)))
    );
    assert_eq!(
        i.to_type(&Type::Iter(Box::new(Type::I32))),
        Ok(AbiType::Iter(Box::new(AbiType::Num(NumType::I32))))
    );
    assert_eq!(
        i.to_type(&Type::Future(Box::new(Type::I64))),
        Ok(AbiType::Future(Box::new(AbiType::Num(NumType::I64))))
    );
    assert_eq!(
        i.to_type(&Type::Stream(Box::new(Type::Str))),
        Ok(AbiType::Stream(Box::new(AbiType::OwnedString)))
    );
    assert_eq!(
        i.to_type(&Type::Tuple(vec![Type::U8, Type::Bool])),
        Ok(AbiType::Tuple(vec![AbiType::Num(NumType::U8), AbiType::Bool]))
    );
}

#[test]
fn lowering_is_deterministic() {
    let i = iface_with_names();
    let t = Type::Tuple(vec![
        Type::Optional(Box::new(Type::Ident("File".to_string()))),
        Type::List(Box::new(Type::Str)),
        Type::Future(Box::new(Type::U64)),
    ]);
    let first = i.to_type(&t);
    let second = i.to_type(&t);
    assert_eq!(first, second);
}

#[test]
fn nested_optional_is_rejected_for_every_inner_type() {
    let i = iface_with_names();
    let inners = vec![
        Type::U8,
        Type::Bool,
        Type::Str,
        Type::Ident("File".to_string()),
        Type::Ident("Color".to_string()),
        Type::Tuple(vec![Type::U8]),
        Type::Fallible(Box::new(Type::U8)),
    ];
    for inner in inners {
        let t = Type::Optional(Box::new(Type::Optional(Box::new(inner))));
        assert_eq!(
            i.to_type(&t),
            Err(AbiError::UnsupportedShape(ShapeKind::NestedOptional))
        );
    }
}

#[test]
fn optional_of_fallible_optional_is_accepted() {
    let i = empty_iface();
    let t = Type::Optional(Box::new(Type::Fallible(Box::new(Type::Optional(Box::new(
        Type::U8,
    ))))));
    assert_eq!(
        i.to_type(&t),
        Ok(AbiType::Optional(Box::new(AbiType::Fallible(Box::new(AbiType::Optional(
            Box::new(AbiType::Num(NumType::U8))
        ))))))
    );
}

#[test]
fn num_accessor_returns_the_scalar_kind() {
    let t = AbiType::Num(NumType::F64);
    assert_eq!(t.num(), NumType::F64);
}
