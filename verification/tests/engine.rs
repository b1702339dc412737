use mir::eval::{run_call, Fatal};
use mir::inst::{Block, FunctionDecl, Reference, Terminator, Value};
use mir::program::Mir;
use mir::ty::{MirCtxt, StringlyType, Type, TypeVariant};

fn new_program() -> (Mir, Type) {
    let ctx = MirCtxt::new();
    let mut m = Mir::new(ctx);
    let s32 = m.insert_type(Some(String::from("s32")), TypeVariant::s32());
    (m, s32)
}

#[test]
fn literal_forty_two() {
    let (mut m, s32) = new_program();
    let d = m.add_function_decl(Some(String::from("main")));
    let mut b = m.get_function_builder(d, vec![], s32);
    let entry = b.entrance();
    b.add_stmt(entry, Reference::ret(), Value::Literal(42));
    m.add_function_definition(b);
    assert_eq!(m.run(), Ok(42));
}

#[test]
fn main_returns_literal_exactly() {
    let (mut m, s32) = new_program();
    let d = m.add_function_decl(Some(String::from("main")));
    let mut b = m.get_function_builder(d, vec![], s32);
    let entry = b.entrance();
    b.add_stmt(entry, Reference::ret(), Value::Literal(-7));
    m.add_function_definition(b);
    assert_eq!(m.run(), Ok(-7));
}

#[test]
fn missing_main_is_fatal() {
    let (mut m, s32) = new_program();
    let d = m.add_function_decl(Some(String::from("helper")));
    let mut b = m.get_function_builder(d, vec![], s32);
    let entry = b.entrance();
    b.add_stmt(entry, Reference::ret(), Value::Literal(1));
    m.add_function_definition(b);
    assert_eq!(m.run(), Err(Fatal::MissingMain));
}

#[test]
fn empty_program_has_no_main() {
    let (m, _s32) = new_program();
    assert_eq!(m.run(), Err(Fatal::MissingMain));
}

#[test]
fn add_wraps_on_overflow() {
    let (mut m, s32) = new_program();
    let d = m.add_function_decl(Some(String::from("main")));
    let mut b = m.get_function_builder(d, vec![], s32);
    let entry = b.entrance();
    let x = b.add_anonymous_local(s32);
    let y = b.add_anonymous_local(s32);
    b.add_stmt(entry, x, Value::Literal(2147483647));
    b.add_stmt(entry, y, Value::Literal(1));
    b.add_stmt(entry, Reference::ret(), Value::Add(x, y));
    m.add_function_definition(b);
    assert_eq!(m.run(), Ok(-2147483648));
}

#[test]
fn add_ordinary_values() {
    let (mut m, s32) = new_program();
    let d = m.add_function_decl(Some(String::from("main")));
    let mut b = m.get_function_builder(d, vec![], s32);
    let entry = b.entrance();
    let x = b.add_anonymous_local(s32);
    let y = b.add_anonymous_local(s32);
    b.add_stmt(entry, x, Value::Literal(40));
    b.add_stmt(entry, y, Value::Literal(2));
    b.add_stmt(entry, Reference::ret(), Value::Add(x, y));
    m.add_function_definition(b);
    assert_eq!(m.run(), Ok(42));
}

/// Installs `f(x) = x + 1` and returns its declaration handle.
fn define_increment(m: &mut Mir, s32: Type) -> FunctionDecl {
    let f = m.add_function_decl(Some(String::from("f")));
    let mut b = m.get_function_builder(f, vec![s32], s32);
    let entry = b.entrance();
    let one = b.add_anonymous_local(s32);
    let x = b.get_param(0);
    b.add_stmt(entry, one, Value::Literal(1));
    b.add_stmt(entry, Reference::ret(), Value::Add(x, one));
    m.add_function_definition(b);
    f
}

#[test]
fn call_computes_increment() {
    let (mut m, s32) = new_program();
    let f = define_increment(&mut m, s32);
    assert_eq!(run_call(&m, f, vec![41], u64::MAX), Ok(42));
}

#[test]
fn calls_compose() {
    let (mut m, s32) = new_program();
    let f = define_increment(&mut m, s32);
    let d = m.add_function_decl(Some(String::from("main")));
    let mut b = m.get_function_builder(d, vec![], s32);
    let entry = b.entrance();
    let a = b.add_anonymous_local(s32);
    let inner = b.add_anonymous_local(s32);
    b.add_stmt(entry, a, Value::Literal(40));
    b.add_stmt(entry, inner, Value::Call { callee: f, args: vec![a] });
    b.add_stmt(entry, Reference::ret(), Value::Call { callee: f, args: vec![inner] });
    m.add_function_definition(b);
    assert_eq!(m.run(), Ok(42));
}

#[test]
fn goto_chain_preserves_result() {
    // The value stored in the entry block survives the goto chain to the
    // return-bearing exit block.
    let (mut m, s32) = new_program();
    let d = m.add_function_decl(Some(String::from("main")));
    let mut b = m.get_function_builder(d, vec![], s32);
    let entry = b.entrance();
    b.add_stmt(entry, Reference::ret(), Value::Literal(9));
    m.add_function_definition(b);
    assert_eq!(m.run(), Ok(9));
}

#[test]
fn get_param_references_follow_return_slot() {
    let (mut m, s32) = new_program();
    let d = m.add_function_decl(Some(String::from("f")));
    let b = m.get_function_builder(d, vec![s32, s32], s32);
    assert_eq!(Reference::ret().index(), 0);
    assert_eq!(b.get_param(0).index(), 1);
    assert_eq!(b.get_param(1).index(), 2);
}

#[test]
fn params_are_bound_in_declaration_order() {
    let (mut m, s32) = new_program();
    let f = m.add_function_decl(Some(String::from("second")));
    let mut fb = m.get_function_builder(f, vec![s32, s32], s32);
    let fentry = fb.entrance();
    let second = fb.get_param(1);
    fb.add_stmt(fentry, Reference::ret(), Value::Reference(second));
    m.add_function_definition(fb);
    assert_eq!(run_call(&m, f, vec![5, 9], u64::MAX), Ok(9));
}

#[test]
fn return_slot_defaults_to_zero() {
    let (mut m, s32) = new_program();
    let d = m.add_function_decl(Some(String::from("main")));
    let b = m.get_function_builder(d, vec![], s32);
    m.add_function_definition(b);
    assert_eq!(m.run(), Ok(0));
}

#[test]
fn locals_default_to_zero() {
    let (mut m, s32) = new_program();
    let d = m.add_function_decl(Some(String::from("main")));
    let mut b = m.get_function_builder(d, vec![], s32);
    let entry = b.entrance();
    let l = b.add_anonymous_local(s32);
    b.add_stmt(entry, Reference::ret(), Value::Reference(l));
    m.add_function_definition(b);
    assert_eq!(m.run(), Ok(0));
}

#[test]
fn calling_undefined_function_is_fatal() {
    let (mut m, s32) = new_program();
    let g = m.add_function_decl(Some(String::from("g")));
    let d = m.add_function_decl(Some(String::from("main")));
    let mut b = m.get_function_builder(d, vec![], s32);
    let entry = b.entrance();
    b.add_stmt(entry, Reference::ret(), Value::Call { callee: g, args: vec![] });
    m.add_function_definition(b);
    assert_eq!(m.run(), Err(Fatal::UndefinedFunction));
}

#[test]
fn argument_count_mismatch_is_fatal() {
    let (mut m, s32) = new_program();
    let f = define_increment(&mut m, s32);
    let d = m.add_function_decl(Some(String::from("main")));
    let mut b = m.get_function_builder(d, vec![], s32);
    let entry = b.entrance();
    b.add_stmt(entry, Reference::ret(), Value::Call { callee: f, args: vec![] });
    m.add_function_definition(b);
    assert_eq!(m.run(), Err(Fatal::ArityMismatch));
}

#[test]
fn unallocated_reference_is_fatal() {
    let (mut m, s32) = new_program();
    let d = m.add_function_decl(Some(String::from("main")));
    let mut b = m.get_function_builder(d, vec![], s32);
    let entry = b.entrance();
    b.add_stmt(entry, Reference(5), Value::Literal(1));
    m.add_function_definition(b);
    assert_eq!(m.run(), Err(Fatal::InvalidReference));
}

#[test]
fn unknown_block_is_fatal() {
    let (mut m, s32) = new_program();
    let d = m.add_function_decl(Some(String::from("main")));
    let mut b = m.get_function_builder(d, vec![], s32);
    b.blks[0].term = Terminator::Goto(Block(7));
    m.add_function_definition(b);
    assert_eq!(m.run(), Err(Fatal::InvalidBlock));
}

#[test]
fn exhausted_budget_is_fatal() {
    let (mut m, s32) = new_program();
    let d = m.add_function_decl(Some(String::from("main")));
    let b = m.get_function_builder(d, vec![], s32);
    m.add_function_definition(b);
    // The entry block's goto needs one unit of the step budget.
    assert_eq!(m.run_with_fuel(0), Err(Fatal::OutOfFuel));
    assert_eq!(m.run_with_fuel(1), Ok(0));
}

#[test]
fn builder_seeds_entry_and_exit_blocks() {
    let (mut m, s32) = new_program();
    let d = m.add_function_decl(Some(String::from("f")));
    let b = m.get_function_builder(d, vec![], s32);
    assert_eq!(b.entrance().index(), 0);
    assert_eq!(b.blks.len(), 2);
    assert!(matches!(b.blks[0].term, Terminator::Goto(Block(1))));
    assert!(matches!(b.blks[1].term, Terminator::Return));
    assert_eq!(b.bindings.len(), 1);
    assert_eq!(b.locals.len(), 0);
}

#[test]
fn locals_extend_the_binding_table() {
    let (mut m, s32) = new_program();
    let d = m.add_function_decl(Some(String::from("f")));
    let mut b = m.get_function_builder(d, vec![s32], s32);
    let first = b.add_local(String::from("x"), s32);
    let second = b.add_anonymous_local(s32);
    assert_eq!(first.index(), 2);
    assert_eq!(second.index(), 3);
    assert_eq!(b.locals.len(), 2);
    assert_eq!(b.bindings.len(), 4);
}

#[test]
fn get_type_resolves_known_names() {
    let (mut m, s32) = new_program();
    let found = m.get_type(&StringlyType::UserDefinedType(String::from("s32")));
    assert_eq!(found, Some(s32));
}

#[test]
fn get_type_misses_unknown_names() {
    let (m, _s32) = new_program();
    assert_eq!(m.get_type(&StringlyType::UserDefinedType(String::from("s64"))), None);
}

#[test]
fn later_type_insertion_shadows_earlier() {
    let (mut m, _s32) = new_program();
    let first = m.insert_type(Some(String::from("t")), TypeVariant::s32());
    let second = m.insert_type(Some(String::from("t")), TypeVariant::s32());
    assert_ne!(first, second);
    let found = m.get_type(&StringlyType::UserDefinedType(String::from("t")));
    assert_eq!(found, Some(second));
}

#[test]
fn anonymous_types_are_not_named() {
    let (mut m, _s32) = new_program();
    let _anon = m.insert_type(None, TypeVariant::s32());
    assert_eq!(m.get_type(&StringlyType::UserDefinedType(String::from(""))), None);
}
