use abi_lowering::func::{AbiFunction, FunctionType, Return, Var, VarGen};
use abi_lowering::layout::Abi;
use abi_lowering::types::{AbiError, AbiType, NumType};

#[test]
fn native64_layout_uses_natural_widths() {
    assert_eq!(Abi::Native64.layout(NumType::U64), Ok((8, 8)));
    assert_eq!(Abi::Native64.layout(NumType::I64), Ok((8, 8)));
    assert_eq!(Abi::Native64.layout(NumType::F32), Ok((4, 4)));
    assert_eq!(Abi::Native64.layout(NumType::U8), Ok((1, 1)));
    assert_eq!(Abi::Native64.layout(NumType::I16), Ok((2, 2)));
    assert_eq!(Abi::Native32.layout(NumType::F64), Ok((8, 8)));
}

#[test]
fn wasm_layout_promotes_small_scalars() {
    assert_eq!(Abi::Wasm32.layout(NumType::U8), Ok((4, 4)));
    assert_eq!(Abi::Wasm32.layout(NumType::I16), Ok((4, 4)));
    assert_eq!(Abi::Wasm32.layout(NumType::U32), Ok((4, 4)));
    assert_eq!(Abi::Wasm64.layout(NumType::I8), Ok((4, 4)));
    assert_eq!(Abi::Wasm64.layout(NumType::U64), Ok((8, 8)));
    assert_eq!(Abi::Wasm64.layout(NumType::F64), Ok((8, 8)));
}

#[test]
fn pointer_sized_layout_is_an_incomplete_profile() {
    assert_eq!(
        Abi::Native64.layout(NumType::IPtr),
        Err(AbiError::IncompleteLayout(NumType::IPtr))
    );
    assert_eq!(
        Abi::Wasm32.layout(NumType::UPtr),
        Err(AbiError::IncompleteLayout(NumType::UPtr))
    );
}

#[test]
fn native_profile_matches_the_machine_pointer_width() {
    let expected = if core::mem::size_of::<usize>() == 8 {
        Abi::Native64
    } else {
        Abi::Native32
    };
    assert_eq!(Abi::native(), expected);
}

#[test]
fn var_generator_issues_increasing_ids_from_zero() {
    let mut gen = VarGen::new();
    let a = gen.gen(AbiType::Bool);
    let b = gen.gen_num(NumType::U8);
    let c = gen.gen(AbiType::OwnedString);
    assert_eq!(a.binding, 0);
    assert_eq!(a.ty, AbiType::Bool);
    assert_eq!(b.binding, 1);
    assert_eq!(b.ty, AbiType::Num(NumType::U8));
    assert_eq!(c.binding, 2);
}

fn free_fn(name: &str) -> AbiFunction {
    AbiFunction {
        doc: vec![],
        ty: FunctionType::Function,
        name: name.to_string(),
        args: vec![],
        ret: None,
    }
}

#[test]
fn zero_binding_variables_pack_as_void() {
    let f = free_fn("f");
    assert_eq!(f.ret(vec![]), Return::Void);
}

#[test]
fn one_binding_variable_packs_as_a_single_scalar() {
    let f = free_fn("f");
    let mut gen = VarGen::new();
    let v = gen.gen_num(NumType::U32);
    match f.ret(vec![v.clone()]) {
        Return::Num(out) => assert_eq!(out, v),
        other => panic!("expected a single scalar, got {:?}", other),
    }
}

#[test]
fn three_binding_variables_pack_as_a_named_aggregate() {
    let f = free_fn("poke");
    let mut gen = VarGen::new();
    let vars = vec![
        gen.gen_num(NumType::U8),
        gen.gen_num(NumType::U16),
        gen.gen_num(NumType::U32),
    ];
    match f.ret(vars.clone()) {
        Return::Struct(out, name) => {
            assert_eq!(out, vars);
            assert_eq!(name, "__pokeReturn");
            assert_eq!(out[0].binding, 0);
            assert_eq!(out[1].binding, 1);
            assert_eq!(out[2].binding, 2);
        },
        other => panic!("expected a named aggregate, got {:?}", other),
    }
}

#[test]
fn synthetic_symbol_scheme_for_manufactured_operations() {
    let next = AbiFunction {
        doc: vec![],
        ty: FunctionType::NextIter("__File_lines".to_string(), AbiType::OwnedString),
        name: "next".to_string(),
        args: vec![],
        ret: None,
    };
    assert_eq!(next.symbol(), "__File_lines_iter_next");
    let poll = AbiFunction {
        doc: vec![],
        ty: FunctionType::PollFuture("__go".to_string(), AbiType::Bool),
        name: "poll".to_string(),
        args: vec![],
        ret: None,
    };
    assert_eq!(poll.symbol(), "__go_future_poll");
    let poll = AbiFunction {
        doc: vec![],
        ty: FunctionType::PollStream("__watch".to_string(), AbiType::Bool),
        name: "poll".to_string(),
        args: vec![],
        ret: None,
    };
    assert_eq!(poll.symbol(), "__watch_stream_poll");
}
