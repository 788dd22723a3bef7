use rudeboy_derive::decl::{AttrArg, Declaration, Fields, ImplMember, MethodDecl, Param, Receiver};
use rudeboy_derive::error::GenError;
use rudeboy_derive::index::IndexDispatcher;
use rudeboy_derive::metamethods::{select_metamethods, MetaMethod, Strategy};
use rudeboy_derive::methods::{Access, Binding, MethodTable};
use rudeboy_derive::user_data::{select_capabilities, Capability};
use rudeboy_derive::{metamethods, methods, user_data};

fn record(name: &str, fields: &[&str]) -> Declaration {
    Declaration::Struct {
        name: name.to_string(),
        fields: Fields::Named(fields.iter().map(|f| f.to_string()).collect()),
    }
}

fn args(ids: &[&str]) -> Vec<AttrArg> {
    ids.iter().map(|s| AttrArg::Ident(s.to_string())).collect()
}

fn param(name: &str, ty: &str) -> Param {
    Param { name: Some(name.to_string()), ty: ty.to_string() }
}

fn method(name: &str, receiver: Receiver, params: Vec<Param>) -> ImplMember {
    ImplMember::Method(MethodDecl { name: name.to_string(), receiver, params })
}

fn shared() -> Receiver {
    Receiver::Borrowed { mutable: false }
}

fn exclusive() -> Receiver {
    Receiver::Borrowed { mutable: true }
}

fn impl_block(self_ty: &str, members: Vec<ImplMember>) -> Declaration {
    Declaration::Impl { self_ty: self_ty.to_string(), members }
}

const SIG: &str = "<'lua, M: ::rlua::UserDataMethods<'lua, Self>>(methods: &mut M) {\n";

#[test]
fn index_record_x_y_dispatches_by_key() {
    let d = IndexDispatcher::from_declaration(&record("Point", &["x", "y"])).unwrap();
    assert_eq!(d.lookup("x").ok(), Some(0));
    assert_eq!(d.lookup("y").ok(), Some(1));
    let miss = d.lookup("z").unwrap_err();
    assert_eq!(miss.key, "z");
}

#[test]
fn index_every_field_found_and_others_missed() {
    let names = ["alpha", "beta", "gamma", "delta"];
    let d = IndexDispatcher::from_declaration(&record("R", &names)).unwrap();
    for (i, n) in names.iter().enumerate() {
        assert_eq!(d.lookup(n).ok(), Some(i));
    }
    for k in ["", "alph", "alphaa", "Beta", "x"] {
        assert_eq!(d.lookup(k).unwrap_err().key, k);
    }
    assert_eq!(d.field_names(), &names.iter().map(|s| s.to_string()).collect::<Vec<_>>());
}

#[test]
fn index_rejects_fieldless_and_non_record_shapes() {
    assert_eq!(IndexDispatcher::from_declaration(&record("E", &[])).err(), Some(GenError::EmptyShape));
    let unit = Declaration::Struct { name: "U".to_string(), fields: Fields::Unit };
    assert_eq!(IndexDispatcher::from_declaration(&unit).err(), Some(GenError::EmptyShape));
    let tuple = Declaration::Struct { name: "T".to_string(), fields: Fields::Unnamed };
    assert_eq!(IndexDispatcher::from_declaration(&tuple).err(), Some(GenError::UnsupportedShape));
    let en = Declaration::Enum { name: "K".to_string() };
    assert_eq!(IndexDispatcher::from_declaration(&en).err(), Some(GenError::UnsupportedShape));
    assert_eq!(IndexDispatcher::from_declaration(&Declaration::Other).err(), Some(GenError::UnsupportedShape));
}

#[test]
fn index_metamethod_on_bad_shapes_generates_nothing() {
    let en = Declaration::Enum { name: "K".to_string() };
    assert_eq!(metamethods(&args(&["Index"]), &en), Err(GenError::UnsupportedShape));
    assert_eq!(metamethods(&args(&["Add", "Index"]), &record("E", &[])), Err(GenError::EmptyShape));
    let tuple = Declaration::Struct { name: "T".to_string(), fields: Fields::Unnamed };
    assert_eq!(metamethods(&args(&["Index"]), &tuple), Err(GenError::UnsupportedShape));
    // Without Index, an enum takes operators.
    assert!(metamethods(&args(&["Eq"]), &en).is_ok());
}

#[test]
fn index_metamethod_exact_text() {
    let out = metamethods(&args(&["Index"]), &record("Point", &["x", "y"])).unwrap();
    let expected = String::new()
        + "impl ::rudeboy::RudeboyMetaMethods for Point {\n"
        + "fn generate_index" + SIG
        + "    methods.add_meta_method(::rlua::MetaMethod::Index, |ctx, data, index: ::rlua::String| {\n"
        + "        use ::rlua::ToLua;\n"
        + "        let index_str = index.to_str()?;\n"
        + "        if index_str == \"x\" {\n            Ok(data.x.clone().to_lua(ctx))\n        } else\n"
        + "        if index_str == \"y\" {\n            Ok(data.y.clone().to_lua(ctx))\n        } else\n"
        + "        {\n            use ::rlua::ExternalError;\n"
        + "            Err((::std::string::String::from(\"No such index: \") + index_str).to_lua_err())\n"
        + "        }\n"
        + "    });\n}\n"
        + "}\n";
    assert_eq!(out, expected);
}

#[test]
fn methods_length_and_scale_table() {
    let members = vec![
        method("length", shared(), vec![]),
        method("scale", exclusive(), vec![param("factor", "f64")]),
    ];
    let table = MethodTable::build(&members).unwrap();
    let es = table.entries();
    assert_eq!(es.len(), 2);
    assert_eq!(es[0].name, "length");
    assert_eq!(es[0].access, Access::Shared);
    assert!(matches!(es[0].binding, Binding::NoArgs));
    assert_eq!(es[1].name, "scale");
    assert_eq!(es[1].access, Access::Exclusive);
    match &es[1].binding {
        Binding::One { name, ty } => {
            assert_eq!(name, "factor");
            assert_eq!(ty, "f64");
        }
        _ => panic!("scale binds one parameter"),
    }
}

#[test]
fn methods_every_method_once_in_order() {
    let members = vec![
        method("a", shared(), vec![]),
        ImplMember::Other,
        method("b", exclusive(), vec![param("x", "i32"), param("y", "String"), param("z", "bool")]),
        method("c", shared(), vec![param("v", "u8")]),
        ImplMember::Other,
    ];
    let table = MethodTable::build(&members).unwrap();
    let names: Vec<&str> = table.entries().iter().map(|e| e.name.as_str()).collect();
    assert_eq!(names, vec!["a", "b", "c"]);
    match &table.entries()[1].binding {
        Binding::Many { names, tys } => {
            assert_eq!(names, &vec!["x".to_string(), "y".to_string(), "z".to_string()]);
            assert_eq!(tys, &vec!["i32".to_string(), "String".to_string(), "bool".to_string()]);
        }
        _ => panic!("b binds many parameters"),
    }
}

#[test]
fn methods_duplicate_names_are_kept() {
    let members = vec![method("f", shared(), vec![]), method("f", exclusive(), vec![])];
    let table = MethodTable::build(&members).unwrap();
    assert_eq!(table.entries().len(), 2);
    assert_eq!(table.entries()[1].access, Access::Exclusive);
}

#[test]
fn methods_exact_text() {
    let item = impl_block(
        "Vec2",
        vec![
            method("length", shared(), vec![]),
            method("scale", exclusive(), vec![param("factor", "f64")]),
            method("set", exclusive(), vec![param("x", "f64"), param("y", "f64")]),
        ],
    );
    let out = methods(&item).unwrap();
    let expected = String::new()
        + "impl ::rudeboy::RudeboyMethods for Vec2 {\n"
        + "    fn generate_methods<'lua, M: ::rlua::UserDataMethods<'lua, Self>>(_methods: &mut M) {\n"
        + "        _methods.add_method(\"length\", |_, data, ()| {\n            Ok(data.length())\n        });\n"
        + "        _methods.add_method_mut(\"scale\", |_, data, factor: f64| {\n            Ok(data.scale(factor, ))\n        });\n"
        + "        _methods.add_method_mut(\"set\", |_, data, (x, y, ): (f64, f64, )| {\n            Ok(data.set(x, y, ))\n        });\n"
        + "    }\n}\n";
    assert_eq!(out, expected);
}

#[test]
fn methods_empty_impl_registers_nothing() {
    let out = methods(&impl_block("S", vec![ImplMember::Other])).unwrap();
    assert_eq!(
        out,
        "impl ::rudeboy::RudeboyMethods for S {\n    fn generate_methods<'lua, M: ::rlua::UserDataMethods<'lua, Self>>(_methods: &mut M) {\n    }\n}\n"
    );
}

#[test]
fn methods_reject_invalid_receivers_and_patterns() {
    let ok = method("fine", shared(), vec![param("a", "i32")]);
    let cases = vec![
        (Receiver::Owned, GenError::OwningReceiver { member: 1 }),
        (Receiver::Absent, GenError::NoReceiver { member: 1 }),
        (Receiver::Typed, GenError::TypedReceiver { member: 1 }),
    ];
    for (rcv, err) in cases {
        let item = impl_block("S", vec![ok.clone(), method("bad", rcv, vec![]), ok.clone()]);
        assert_eq!(methods(&item), Err(err));
    }
    let pattern = Param { name: None, ty: "(i32, i32)".to_string() };
    let item = impl_block(
        "S",
        vec![ok.clone(), ImplMember::Other, method("bad", exclusive(), vec![param("a", "i32"), pattern.clone(), pattern])],
    );
    assert_eq!(methods(&item), Err(GenError::UnsupportedParameterPattern { member: 2, param: 1 }));
}

#[test]
fn methods_first_invalid_method_decides() {
    let item = impl_block(
        "S",
        vec![method("a", Receiver::Absent, vec![]), method("b", Receiver::Owned, vec![])],
    );
    assert_eq!(methods(&item), Err(GenError::NoReceiver { member: 0 }));
}

#[test]
fn methods_on_non_impl_is_unsupported() {
    assert_eq!(methods(&record("P", &["x"])), Err(GenError::UnsupportedShape));
    assert_eq!(methods(&Declaration::Other), Err(GenError::UnsupportedShape));
}

#[test]
fn metamethod_catalog_is_one_to_one() {
    let all = [
        ("Add", MetaMethod::Add),
        ("Eq", MetaMethod::Eq),
        ("Index", MetaMethod::Index),
        ("Sub", MetaMethod::Sub),
        ("Mul", MetaMethod::Mul),
        ("Div", MetaMethod::Div),
        ("Mod", MetaMethod::Mod),
        ("Unm", MetaMethod::Unm),
        ("BAnd", MetaMethod::BAnd),
        ("BOr", MetaMethod::BOr),
        ("BXor", MetaMethod::BXor),
        ("BNot", MetaMethod::BNot),
        ("Shl", MetaMethod::Shl),
        ("Shr", MetaMethod::Shr),
        ("Lt", MetaMethod::Lt),
        ("Le", MetaMethod::Le),
    ];
    let mut gens = std::collections::HashSet::new();
    for (id, m) in all {
        assert_eq!(MetaMethod::try_parse(id), Some(m));
        assert_eq!(m.ident(), id);
        assert!(gens.insert(m.generator_name()));
        let out = metamethods(&args(&[id]), &record("P", &["x"])).unwrap();
        let tag = format!("methods.add_meta_method(::rlua::MetaMethod::{}, ", id);
        assert_eq!(out.matches(&tag).count(), 1);
        assert_eq!(out.matches("methods.add_meta_method(").count(), 1);
    }
    assert_eq!(MetaMethod::Index.strategy(), Strategy::FieldIndex);
    assert_eq!(MetaMethod::Unm.strategy(), Strategy::Unary);
    assert_eq!(MetaMethod::BNot.strategy(), Strategy::Unary);
    assert_eq!(MetaMethod::Shl.strategy(), Strategy::Binary);
    assert_eq!(MetaMethod::try_parse("add"), None);
    assert_eq!(MetaMethod::try_parse("Pow"), None);
    assert_eq!(MetaMethod::try_parse(""), None);
}

#[test]
fn metamethod_requests_collapse_duplicates() {
    let ms = select_metamethods(&args(&["Add", "Sub", "Add", "Sub", "Eq"])).unwrap();
    assert_eq!(ms, vec![MetaMethod::Add, MetaMethod::Sub, MetaMethod::Eq]);
    let out = metamethods(&args(&["Add", "Add"]), &record("P", &["x"])).unwrap();
    assert_eq!(out.matches("::rlua::MetaMethod::Add").count(), 1);
}

#[test]
fn metamethod_binary_and_unary_exact_text() {
    let out = metamethods(&args(&["Add", "Unm"]), &Declaration::Enum { name: "Num".to_string() }).unwrap();
    let expected = String::new()
        + "impl ::rudeboy::RudeboyMetaMethods for Num {\n"
        + "fn generate_add" + SIG
        + "    methods.add_meta_method(::rlua::MetaMethod::Add, |ctx, data, other: Self| {\n"
        + "        use ::rlua::ToLua;\n        let ret = (*data + other);\n        Ok(ret.to_lua(ctx))\n"
        + "    });\n}\n"
        + "fn generate_unm" + SIG
        + "    methods.add_meta_method(::rlua::MetaMethod::Unm, |ctx, data, ()| {\n"
        + "        use ::rlua::ToLua;\n        let ret = - *data;\n        Ok(ret.to_lua(ctx))\n"
        + "    });\n}\n"
        + "}\n";
    assert_eq!(out, expected);
}

#[test]
fn metamethod_operators_follow_catalog() {
    let out = metamethods(&args(&["Le", "BNot", "Mod"]), &record("P", &["x"])).unwrap();
    assert!(out.contains("let ret = (*data <= other);"));
    assert!(out.contains("let ret = ! *data;"));
    assert!(out.contains("let ret = (*data % other);"));
}

#[test]
fn metamethods_with_no_request_is_an_empty_impl() {
    let out = metamethods(&Vec::new(), &record("P", &["x"])).unwrap();
    assert_eq!(out, "impl ::rudeboy::RudeboyMetaMethods for P {\n}\n");
}

#[test]
fn unknown_metamethod_fails_generation() {
    let p = record("P", &["x"]);
    assert_eq!(metamethods(&args(&["Add", "Pow", "Nope"]), &p), Err(GenError::UnknownMetamethod { arg: 1 }));
    let mixed = vec![AttrArg::Ident("Eq".to_string()), AttrArg::Other];
    assert_eq!(metamethods(&mixed, &p), Err(GenError::UnknownMetamethod { arg: 1 }));
    assert_eq!(select_metamethods(&args(&["Methods"])), Err(GenError::UnknownMetamethod { arg: 0 }));
}

#[test]
fn metamethods_on_impl_is_unsupported() {
    let item = impl_block("S", vec![]);
    assert_eq!(metamethods(&args(&["Add"]), &item), Err(GenError::UnsupportedShape));
    assert_eq!(metamethods(&args(&["Pow"]), &Declaration::Other), Err(GenError::UnsupportedShape));
}

#[test]
fn unknown_capability_fails_generation() {
    let p = record("P", &["x"]);
    assert_eq!(user_data(&args(&["Methods", "Index"]), &p), Err(GenError::UnknownCapability { arg: 1 }));
    assert_eq!(user_data(&vec![AttrArg::Other], &p), Err(GenError::UnknownCapability { arg: 0 }));
    assert_eq!(select_capabilities(&args(&["methods"])), Err(GenError::UnknownCapability { arg: 0 }));
}

#[test]
fn user_data_exact_text() {
    let item = impl_block("Foo", vec![]);
    let out = user_data(&args(&["MetaMethods", "Methods", "MetaMethods"]), &item).unwrap();
    let expected = String::new()
        + "impl ::rlua::UserData for Foo {\n"
        + "    fn add_methods<'lua, M: ::rlua::UserDataMethods<'lua, Self>>(methods: &mut M) {\n"
        + "        <Foo as ::rudeboy::RudeboyMetaMethods>::generate_metamethods(methods);\n"
        + "        <Foo as ::rudeboy::RudeboyMethods>::generate_methods(methods);\n"
        + "    }\n}\n";
    assert_eq!(out, expected);
}

#[test]
fn user_data_without_capabilities_is_inert() {
    let out = user_data(&Vec::new(), &Declaration::Enum { name: "K".to_string() }).unwrap();
    assert_eq!(
        out,
        "impl ::rlua::UserData for K {\n    fn add_methods<'lua, M: ::rlua::UserDataMethods<'lua, Self>>(methods: &mut M) {\n    }\n}\n"
    );
    assert_eq!(user_data(&Vec::new(), &Declaration::Other), Err(GenError::UnsupportedShape));
}

#[test]
fn capabilities_parse_and_collapse() {
    assert_eq!(Capability::try_parse("MetaMethods"), Some(Capability::MetaMethods));
    assert_eq!(Capability::try_parse("Methods"), Some(Capability::Methods));
    assert_eq!(Capability::try_parse("Method"), None);
    let cs = select_capabilities(&args(&["Methods", "Methods"])).unwrap();
    assert_eq!(cs, vec![Capability::Methods]);
}

#[test]
fn error_messages_are_distinct_per_kind() {
    let errs = [
        GenError::UnsupportedShape,
        GenError::EmptyShape,
        GenError::NoReceiver { member: 0 },
        GenError::OwningReceiver { member: 0 },
        GenError::TypedReceiver { member: 0 },
        GenError::UnsupportedParameterPattern { member: 0, param: 0 },
        GenError::UnknownMetamethod { arg: 0 },
        GenError::UnknownCapability { arg: 0 },
    ];
    let msgs: std::collections::HashSet<&str> = errs.iter().map(|e| e.message()).collect();
    assert_eq!(msgs.len(), errs.len());
    assert_eq!(GenError::UnknownMetamethod { arg: 3 }.message(), "expected a valid metamethod identifier");
}
