use mir::inst::{Reference, Value};
use mir::program::Mir;
use mir::ty::{MirCtxt, TypeVariant};

#[test]
fn dump_of_one_function_exactly() {
    let ctx = MirCtxt::new();
    let mut m = Mir::new(ctx);
    let s32 = m.insert_type(Some(String::from("s32")), TypeVariant::s32());
    let d = m.add_function_decl(Some(String::from("main")));
    let mut b = m.get_function_builder(d, vec![], s32);
    let entry = b.entrance();
    let x = b.add_local(String::from("x"), s32);
    b.add_stmt(entry, x, Value::Literal(1));
    b.add_stmt(entry, Reference::ret(), Value::Reference(x));
    m.add_function_definition(b);

    let lines = vec![
        "type s32 :: <builtin>;",
        "main :: () -> s32 {",
        "  locals: {",
        "    s32,",
        "  }",
        "  bindings: {",
        "    <return>: s32",
        "    x_1: s32 = <locals>[0],",
        "  }",
        "  bb0: {",
        "    x_1 = literal 1;",
        "    <return> = x_1;",
        "    goto bb1;",
        "  }",
        "  bb1: {",
        "    return;",
        "  }",
        "}",
    ];
    let expected = lines.join("\n") + "\n";
    assert_eq!(m.print(), expected);
}

#[test]
fn dump_lists_each_item_once_in_declaration_order() {
    let ctx = MirCtxt::new();
    let mut m = Mir::new(ctx);
    let s32 = m.insert_type(Some(String::from("s32")), TypeVariant::s32());

    let main_decl = m.add_function_decl(Some(String::from("main")));
    let helper_decl = m.add_function_decl(Some(String::from("helper")));

    let mut mb = m.get_function_builder(main_decl, vec![], s32);
    let mentry = mb.entrance();
    mb.add_stmt(mentry, Reference::ret(), Value::Literal(3));
    m.add_function_definition(mb);

    let mut hb = m.get_function_builder(helper_decl, vec![s32], s32);
    let hentry = hb.entrance();
    let p = hb.get_param(0);
    hb.add_stmt(hentry, Reference::ret(), Value::Reference(p));
    m.add_function_definition(hb);

    let out = m.print();
    assert_eq!(out.matches("type s32 :: <builtin>;").count(), 1);
    assert_eq!(out.matches("main :: () -> s32 {").count(), 1);
    assert_eq!(out.matches("helper :: (s32) -> s32 {").count(), 1);

    let type_pos = out.find("type s32").unwrap();
    let main_pos = out.find("main :: (").unwrap();
    let helper_pos = out.find("helper :: (").unwrap();
    assert!(type_pos < main_pos);
    assert!(main_pos < helper_pos);
}

#[test]
fn dump_always_labels_the_return_slot() {
    let ctx = MirCtxt::new();
    let mut m = Mir::new(ctx);
    let s32 = m.insert_type(Some(String::from("s32")), TypeVariant::s32());
    let d = m.add_function_decl(Some(String::from("main")));
    let mut b = m.get_function_builder(d, vec![], s32);
    let entry = b.entrance();
    b.add_stmt(entry, Reference::ret(), Value::Literal(42));
    m.add_function_definition(b);

    let out = m.print();
    assert!(out.contains("    <return>: s32\n"));
    assert!(out.contains("    <return> = literal 42;\n"));
}

#[test]
fn dump_skips_undefined_functions() {
    let ctx = MirCtxt::new();
    let mut m = Mir::new(ctx);
    let s32 = m.insert_type(Some(String::from("s32")), TypeVariant::s32());
    let _declared_only = m.add_function_decl(Some(String::from("ghostly")));
    let d = m.add_function_decl(Some(String::from("main")));
    let b = m.get_function_builder(d, vec![], s32);
    m.add_function_definition(b);

    let out = m.print();
    assert!(!out.contains("ghostly"));
    assert_eq!(out.matches("main :: (").count(), 1);
}

#[test]
fn dump_names_anonymous_functions_as_such() {
    let ctx = MirCtxt::new();
    let mut m = Mir::new(ctx);
    let s32 = m.insert_type(Some(String::from("s32")), TypeVariant::s32());
    let d = m.add_function_decl(None);
    let b = m.get_function_builder(d, vec![], s32);
    m.add_function_definition(b);

    let out = m.print();
    assert_eq!(out.matches("<anonymous> :: () -> s32 {").count(), 1);
}

#[test]
fn dump_renders_calls_with_arguments() {
    let ctx = MirCtxt::new();
    let mut m = Mir::new(ctx);
    let s32 = m.insert_type(Some(String::from("s32")), TypeVariant::s32());
    let f = m.add_function_decl(Some(String::from("f")));
    let mut fb = m.get_function_builder(f, vec![s32, s32], s32);
    let fentry = fb.entrance();
    let a = fb.get_param(0);
    let c = fb.get_param(1);
    fb.add_stmt(fentry, Reference::ret(), Value::Add(a, c));
    m.add_function_definition(fb);

    let d = m.add_function_decl(Some(String::from("main")));
    let mut b = m.get_function_builder(d, vec![], s32);
    let entry = b.entrance();
    let x = b.add_local(String::from("x"), s32);
    let y = b.add_local(String::from("y"), s32);
    b.add_stmt(entry, x, Value::Literal(-5));
    b.add_stmt(entry, y, Value::Literal(7));
    b.add_stmt(entry, Reference::ret(), Value::Call { callee: f, args: vec![x, y] });
    m.add_function_definition(b);

    let out = m.print();
    assert!(out.contains("    x_1 = literal -5;\n"));
    assert!(out.contains("    <return> = f(x_1, y_2);\n"));
    assert!(out.contains("    <return> = _1 + _2;\n"));
}
