use abi_lowering::func::FunctionType;
use abi_lowering::layout::Abi;
use abi_lowering::surface::{FnDecl, Interface, ObjDecl, Type};
use abi_lowering::types::{AbiError, AbiType, NumType};

fn method(name: &str, is_static: bool, ret: Option<Type>) -> FnDecl {
    FnDecl {
        doc: vec![],
        ident: name.to_string(),
        is_static,
        args: vec![],
        ret,
    }
}

fn object(name: &str, methods: Vec<FnDecl>) -> ObjDecl {
    ObjDecl { doc: vec![], ident: name.to_string(), methods }
}

#[test]
fn symbols_for_methods_and_free_functions() {
    let i = Interface {
        objects: vec![object("File", vec![method("open", false, None)])],
        functions: vec![method("connect", false, None)],
        enums: vec![],
    };
    let objs = i.objects().unwrap();
    assert_eq!(objs.len(), 1);
    assert_eq!(objs[0].name, "File");
    assert_eq!(objs[0].destructor, "drop_box_File");
    assert_eq!(objs[0].methods[0].symbol(), "__File_open");
    assert!(matches!(objs[0].methods[0].ty, FunctionType::Method(_)));
    let funcs = i.functions().unwrap();
    assert_eq!(funcs[0].symbol(), "__connect");
    assert!(matches!(funcs[0].ty, FunctionType::Function));
}

#[test]
fn static_method_becomes_constructor() {
    let i = Interface {
        objects: vec![object("File", vec![method("new", true, None)])],
        functions: vec![],
        enums: vec![],
    };
    let objs = i.objects().unwrap();
    match &objs[0].methods[0].ty {
        FunctionType::Constructor(owner) => assert_eq!(owner, "File"),
        other => panic!("expected a constructor, got {:?}", other),
    }
    assert_eq!(objs[0].methods[0].symbol(), "__File_new");
}

#[test]
fn static_free_function_is_rejected() {
    let i = Interface {
        objects: vec![],
        functions: vec![method("boom", true, None)],
        enums: vec![],
    };
    assert_eq!(
        i.functions(),
        Err(AbiError::StaticFreeFunction("boom".to_string()))
    );
}

#[test]
fn static_free_function_rejects_whole_catalog() {
    let i = Interface {
        objects: vec![],
        functions: vec![method("fine", false, None), method("boom", true, None)],
        enums: vec![],
    };
    assert_eq!(
        i.functions(),
        Err(AbiError::StaticFreeFunction("boom".to_string()))
    );
    assert_eq!(
        i.imports(&Abi::Native64),
        Err(AbiError::StaticFreeFunction("boom".to_string()))
    );
}

#[test]
fn future_return_yields_one_future_descriptor() {
    let i = Interface {
        objects: vec![object(
            "File",
            vec![method("fetch", false, Some(Type::Future(Box::new(Type::I32))))],
        )],
        functions: vec![],
        enums: vec![],
    };
    let futures = i.futures().unwrap();
    assert_eq!(futures.len(), 1);
    assert_eq!(futures[0].symbol, "__File_fetch");
    assert_eq!(futures[0].ty, AbiType::Num(NumType::I32));
    assert_eq!(i.iterators().unwrap().len(), 0);
    assert_eq!(i.streams().unwrap().len(), 0);
}

#[test]
fn result_stream_iter_return_yields_stream_then_chained_iterator() {
    let i = Interface {
        objects: vec![object(
            "File",
            vec![method(
                "watch",
                false,
                Some(Type::Fallible(Box::new(Type::Stream(Box::new(Type::Iter(
                    Box::new(Type::I32),
                )))))),
            )],
        )],
        functions: vec![],
        enums: vec![],
    };
    assert_eq!(i.futures().unwrap().len(), 0);
    let streams = i.streams().unwrap();
    assert_eq!(streams.len(), 1);
    assert_eq!(streams[0].symbol, "__File_watch");
    assert_eq!(
        streams[0].ty,
        AbiType::Iter(Box::new(AbiType::Num(NumType::I32)))
    );
    let iters = i.iterators().unwrap();
    assert_eq!(iters.len(), 1);
    assert_eq!(iters[0].symbol, "__File_watch_stream_poll");
    assert_eq!(iters[0].ty, AbiType::Num(NumType::I32));
}

#[test]
fn future_iter_return_yields_chained_iterator() {
    let i = Interface {
        objects: vec![],
        functions: vec![method(
            "scan",
            false,
            Some(Type::Optional(Box::new(Type::Future(Box::new(Type::Iter(
                Box::new(Type::U8),
            )))))),
        )],
        enums: vec![],
    };
    let iters = i.iterators().unwrap();
    assert_eq!(iters.len(), 1);
    assert_eq!(iters[0].symbol, "__scan_future_poll");
    assert_eq!(iters[0].ty, AbiType::Num(NumType::U8));
    assert_eq!(i.futures().unwrap().len(), 1);
    assert_eq!(i.futures().unwrap()[0].symbol, "__scan");
}

#[test]
fn bare_iter_return_keeps_the_plain_symbol() {
    let i = Interface {
        objects: vec![],
        functions: vec![method("list", false, Some(Type::Iter(Box::new(Type::U8))))],
        enums: vec![],
    };
    let iters = i.iterators().unwrap();
    assert_eq!(iters.len(), 1);
    assert_eq!(iters[0].symbol, "__list");
}

#[test]
fn iterator_next_function_shape() {
    let i = Interface {
        objects: vec![],
        functions: vec![method("list", false, Some(Type::Iter(Box::new(Type::U32))))],
        enums: vec![],
    };
    let iters = i.iterators().unwrap();
    let next = iters[0].next();
    assert_eq!(next.name, "next");
    assert_eq!(next.args.len(), 0);
    assert_eq!(
        next.ret,
        Some(AbiType::Optional(Box::new(AbiType::Num(NumType::U32))))
    );
    assert_eq!(next.symbol(), "__list_iter_next");
}

#[test]
fn poll_function_shapes() {
    let i = Interface {
        objects: vec![],
        functions: vec![
            method("f", false, Some(Type::Future(Box::new(Type::U8)))),
            method("s", false, Some(Type::Stream(Box::new(Type::U8)))),
        ],
        enums: vec![],
    };
    let fut_poll = i.futures().unwrap()[0].poll();
    assert_eq!(fut_poll.name, "poll");
    assert_eq!(fut_poll.symbol(), "__f_future_poll");
    let names: Vec<&str> = fut_poll.args.iter().map(|(n, _)| n.as_str()).collect();
    assert_eq!(names, vec!["post_cobject", "port"]);
    assert_eq!(fut_poll.args[0].1, AbiType::Isize);
    assert_eq!(fut_poll.args[1].1, AbiType::Num(NumType::I64));

    let stream_poll = i.streams().unwrap()[0].poll();
    assert_eq!(stream_poll.symbol(), "__s_stream_poll");
    let names: Vec<&str> = stream_poll.args.iter().map(|(n, _)| n.as_str()).collect();
    assert_eq!(names, vec!["post_cobject", "port", "done"]);
    assert_eq!(stream_poll.args[2].1, AbiType::Num(NumType::I64));
}

#[test]
fn listed_types_are_sorted_and_deduplicated() {
    let i = Interface {
        objects: vec![
            object(
                "Catalog",
                vec![
                    method(
                        "a",
                        false,
                        Some(Type::Optional(Box::new(Type::List(Box::new(Type::Ident(
                            "Foo".to_string(),
                        )))))),
                    ),
                    method(
                        "b",
                        false,
                        Some(Type::Iter(Box::new(Type::List(Box::new(Type::Ident(
                            "Bar".to_string(),
                        )))))),
                    ),
                ],
            ),
            object("Foo", vec![]),
            object("Bar", vec![]),
        ],
        functions: vec![],
        enums: vec![],
    };
    assert_eq!(
        i.listed_types().unwrap(),
        vec!["Bar".to_string(), "Foo".to_string()]
    );
}

#[test]
fn listed_types_deduplicate_repeats_and_walk_args_and_tuples() {
    let i = Interface {
        objects: vec![object("Foo", vec![])],
        functions: vec![
            method("a", false, Some(Type::List(Box::new(Type::Ident("Foo".to_string()))))),
            FnDecl {
                doc: vec![],
                ident: "b".to_string(),
                is_static: false,
                args: vec![(
                    "x".to_string(),
                    Type::Tuple(vec![Type::List(Box::new(Type::Str))]),
                )],
                ret: Some(Type::List(Box::new(Type::Ident("Foo".to_string())))),
            },
        ],
        enums: vec![],
    };
    assert_eq!(
        i.listed_types().unwrap(),
        vec!["FfiString".to_string(), "Foo".to_string()]
    );
}

#[test]
fn imports_are_ordered_and_exhaustive() {
    let i = Interface {
        objects: vec![object(
            "File",
            vec![method("open", false, Some(Type::Iter(Box::new(Type::U8))))],
        )],
        functions: vec![method("go", false, Some(Type::Future(Box::new(Type::Bool))))],
        enums: vec![],
    };
    let imports = i.imports(&Abi::Wasm32).unwrap();
    let symbols: Vec<String> = imports.iter().map(|im| im.function.symbol()).collect();
    assert_eq!(
        symbols,
        vec![
            "__go".to_string(),
            "__File_open".to_string(),
            "__File_open_iter_next".to_string(),
            "__go_future_poll".to_string(),
        ]
    );
    for im in &imports {
        assert_eq!(im.abi, Abi::Wasm32);
    }
}

#[test]
fn lowering_failure_in_a_method_aborts_object_lowering() {
    let i = Interface {
        objects: vec![object(
            "File",
            vec![method("bad", false, Some(Type::Ident("Ghost".to_string())))],
        )],
        functions: vec![],
        enums: vec![],
    };
    assert_eq!(
        i.objects(),
        Err(AbiError::UnresolvedIdent("Ghost".to_string()))
    );
    assert_eq!(
        i.listed_types(),
        Err(AbiError::UnresolvedIdent("Ghost".to_string()))
    );
}

#[test]
fn empty_interface_yields_an_empty_catalog() {
    let i = Interface { objects: vec![], functions: vec![], enums: vec![] };
    assert_eq!(i.functions().unwrap().len(), 0);
    assert_eq!(i.objects().unwrap().len(), 0);
    assert_eq!(i.listed_types().unwrap().len(), 0);
    assert_eq!(i.imports(&Abi::Native32).unwrap().len(), 0);
}

#[test]
fn identifier_kind_resolution_distinguishes_objects_and_enums() {
    let i = Interface {
        objects: vec![object("File", vec![])],
        functions: vec![],
        enums: vec!["Color".to_string()],
    };
    assert!(i.is_object(&"File".to_string()));
    assert!(!i.is_object(&"Color".to_string()));
    assert!(i.is_enum(&"Color".to_string()));
    assert!(!i.is_enum(&"File".to_string()));
    assert!(!i.is_object(&"Nope".to_string()));
    assert!(!i.is_enum(&"Nope".to_string()));
}
