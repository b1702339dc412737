//! The diagnostic printer: a read-only traversal of the program producing
//! an indented textual dump — every registered type and every defined
//! function exactly once, in declaration order, with the binding table,
//! the per-block statements and the terminators. Reference 0 is always
//! rendered with the label `<return>`.
//!
//! The `*_rep` spec functions state, character for character, what the
//! dump of a program is; `Mir::print` is verified to return exactly that.

use vstd::prelude::*;
use vstd::string::StrSliceExecFns;
use vstd::string::StringExecFns;
use crate::inst::{Binding, BindingKind, BlockData, Reference, Statement, Terminator, Value};
use crate::program::{FuncEntry, Mir};
use crate::ty::{BuiltinType, Type, TypeEntry, TypeVariant};

verus! {

/// The one-character rendering of a decimal digit.
pub open spec fn digit_rep(d: nat) -> Seq<char> {
    if d == 0 {
        "0"@
    } else if d == 1 {
        "1"@
    } else if d == 2 {
        "2"@
    } else if d == 3 {
        "3"@
    } else if d == 4 {
        "4"@
    } else if d == 5 {
        "5"@
    } else if d == 6 {
        "6"@
    } else if d == 7 {
        "7"@
    } else if d == 8 {
        "8"@
    } else {
        "9"@
    }
}

/// The decimal rendering of a natural number, most significant digit
/// first, with no leading zeroes (the number 0 renders as "0").
pub open spec fn dec_rep(n: nat) -> Seq<char>
    decreases n,
{
    if n < 10 {
        digit_rep(n)
    } else {
        dec_rep(n / 10) + digit_rep(n % 10)
    }
}

/// The decimal rendering of an integer: a minus sign for negative values,
/// then the digits.
pub open spec fn int_rep(n: int) -> Seq<char> {
    if n < 0 {
        "-"@ + dec_rep((-n) as nat)
    } else {
        dec_rep(n as nat)
    }
}

/// The rendering of an optional diagnostic name: the name itself, or
/// nothing.
pub open spec fn opt_name_rep(name: Option<String>) -> Seq<char> {
    match name {
        Some(n) => n@,
        None => Seq::empty(),
    }
}

/// The rendering of a type handle: the builtin it resolves to in the
/// arena, or a placeholder for a handle the arena does not hold.
pub open spec fn type_rep(types: Seq<TypeEntry>, t: Type) -> Seq<char> {
    if 0 <= t@ < types.len() {
        match types[t@].variant {
            TypeVariant::Builtin(bt) => match bt {
                BuiltinType::SInt(sz) => "s"@ + dec_rep(sz.spec_size() as nat),
            },
        }
    } else {
        "<unknown>"@
    }
}

/// The rendering of one slot reference: its diagnostic name (possibly
/// empty), an underscore, and its index.
pub open spec fn binding_rep(bindings: Seq<Binding>, r: int) -> Seq<char> {
    (if 0 <= r < bindings.len() {
        opt_name_rep(bindings[r].name)
    } else {
        Seq::empty()
    }) + "_"@ + dec_rep(r as nat)
}

/// The display name of a callee: the declaration's name, or a placeholder
/// when it has none or the handle is out of range.
pub open spec fn func_name_rep(funcs: Seq<FuncEntry>, i: int) -> Seq<char> {
    if 0 <= i < funcs.len() {
        match funcs[i].name {
            Some(n) => n@,
            None => "<anonymous>"@,
        }
    } else {
        "<anonymous>"@
    }
}

/// The comma-separated rendering of a call's argument references, from
/// position `i` on.
pub open spec fn args_rep_from(bindings: Seq<Binding>, args: Seq<Reference>, i: int) -> Seq<char>
    decreases args.len() - i,
{
    if i < 0 || i >= args.len() {
        Seq::empty()
    } else if i == args.len() - 1 {
        binding_rep(bindings, args[i]@)
    } else {
        binding_rep(bindings, args[i]@) + ", "@ + args_rep_from(bindings, args, i + 1)
    }
}

/// The rendering of one right-hand side, closed by a semicolon and a line
/// break.
pub open spec fn value_rep(funcs: Seq<FuncEntry>, bindings: Seq<Binding>, v: Value) -> Seq<char> {
    match v {
        Value::Literal(n) => "literal "@ + int_rep(n as int) + ";\n"@,
        Value::Reference(r) => binding_rep(bindings, r@) + ";\n"@,
        Value::Add(a, b) => binding_rep(bindings, a@) + " + "@ + binding_rep(bindings, b@)
            + ";\n"@,
        Value::Call { callee, args } => func_name_rep(funcs, callee@) + "("@ + args_rep_from(
            bindings,
            args@,
            0,
        ) + ");\n"@,
    }
}

/// The rendering of one statement: the destination — always labelled
/// `<return>` when it is slot 0 — then the value assigned to it.
pub open spec fn stmt_rep(funcs: Seq<FuncEntry>, bindings: Seq<Binding>, st: Statement) -> Seq<
    char,
> {
    (if st.lhs@ == 0 {
        "    <return> = "@
    } else {
        "    "@ + binding_rep(bindings, st.lhs@) + " = "@
    }) + value_rep(funcs, bindings, st.rhs)
}

/// The renderings of the statements from position `i` on, in order.
pub open spec fn stmts_rep_from(
    funcs: Seq<FuncEntry>,
    bindings: Seq<Binding>,
    stmts: Seq<Statement>,
    i: int,
) -> Seq<char>
    decreases stmts.len() - i,
{
    if i < 0 || i >= stmts.len() {
        Seq::empty()
    } else {
        stmt_rep(funcs, bindings, stmts[i]) + stmts_rep_from(funcs, bindings, stmts, i + 1)
    }
}

/// The rendering of a terminator.
pub open spec fn term_rep(t: Terminator) -> Seq<char> {
    match t {
        Terminator::Goto(b) => "    goto bb"@ + dec_rep(b@ as nat) + ";\n"@,
        Terminator::Return => "    return;\n"@,
    }
}

/// The rendering of one block: its number, its statements in order, and
/// its terminator.
pub open spec fn block_rep(funcs: Seq<FuncEntry>, bindings: Seq<Binding>, bd: BlockData) -> Seq<
    char,
> {
    "  bb"@ + dec_rep(bd.num@ as nat) + ": {\n"@ + stmts_rep_from(funcs, bindings, bd.stmts@, 0)
        + term_rep(bd.term) + "  }\n"@
}

/// The renderings of the blocks from position `i` on, in order.
pub open spec fn blocks_rep_from(
    funcs: Seq<FuncEntry>,
    bindings: Seq<Binding>,
    blks: Seq<BlockData>,
    i: int,
) -> Seq<char>
    decreases blks.len() - i,
{
    if i < 0 || i >= blks.len() {
        Seq::empty()
    } else {
        block_rep(funcs, bindings, blks[i]) + blocks_rep_from(funcs, bindings, blks, i + 1)
    }
}

/// The comma-separated rendering of the parameter types from position `i`
/// on.
pub open spec fn params_rep_from(types: Seq<TypeEntry>, params: Seq<Type>, i: int) -> Seq<char>
    decreases params.len() - i,
{
    if i < 0 || i >= params.len() {
        Seq::empty()
    } else if i == params.len() - 1 {
        type_rep(types, params[i])
    } else {
        type_rep(types, params[i]) + ", "@ + params_rep_from(types, params, i + 1)
    }
}

/// The renderings of the local types from position `i` on, one indented
/// line each.
pub open spec fn locals_rep_from(types: Seq<TypeEntry>, locals: Seq<Type>, i: int) -> Seq<char>
    decreases locals.len() - i,
{
    if i < 0 || i >= locals.len() {
        Seq::empty()
    } else {
        "    "@ + type_rep(types, locals[i]) + ",\n"@ + locals_rep_from(types, locals, i + 1)
    }
}

/// The rendering of the binding at position `i` of the table, with its
/// role annotation. The return slot is always labelled `<return>`.
pub open spec fn binding_decl_rep(types: Seq<TypeEntry>, bindings: Seq<Binding>, i: int) -> Seq<
    char,
> {
    match bindings[i].kind {
        BindingKind::Return => "    <return>: "@ + type_rep(types, bindings[i].ty) + "\n"@,
        BindingKind::Param(p) => "    "@ + opt_name_rep(bindings[i].name) + "_"@ + dec_rep(
            i as nat,
        ) + ": "@ + type_rep(types, bindings[i].ty) + " = <params>["@ + dec_rep(p as nat)
            + "],\n"@,
        BindingKind::Local(l) => "    "@ + opt_name_rep(bindings[i].name) + "_"@ + dec_rep(
            i as nat,
        ) + ": "@ + type_rep(types, bindings[i].ty) + " = <locals>["@ + dec_rep(l as nat)
            + "],\n"@,
    }
}

/// The renderings of the binding table from position `i` on, in order.
pub open spec fn bindings_rep_from(
    types: Seq<TypeEntry>,
    bindings: Seq<Binding>,
    i: int,
) -> Seq<char>
    decreases bindings.len() - i,
{
    if i < 0 || i >= bindings.len() {
        Seq::empty()
    } else {
        binding_decl_rep(types, bindings, i) + bindings_rep_from(types, bindings, i + 1)
    }
}

/// The display name of a function's own declaration slot.
pub open spec fn entry_name_rep(e: FuncEntry) -> Seq<char> {
    match e.name {
        Some(n) => n@,
        None => "<anonymous>"@,
    }
}

/// The rendering of one declaration slot: nothing when no definition has
/// been installed, else the signature, the locals, the binding table with
/// role annotations, and every block.
pub open spec fn func_rep(types: Seq<TypeEntry>, funcs: Seq<FuncEntry>, e: FuncEntry) -> Seq<
    char,
> {
    match e.value {
        None => Seq::empty(),
        Some(fv) => entry_name_rep(e) + " :: ("@ + params_rep_from(types, fv.params@, 0)
            + ") -> "@ + type_rep(types, fv.ret_ty) + " {\n"@ + "  locals: {\n"@ + locals_rep_from(
            types,
            fv.locals@,
            0,
        ) + "  }\n"@ + "  bindings: {\n"@ + bindings_rep_from(types, fv.bindings@, 0) + "  }\n"@
            + blocks_rep_from(funcs, fv.bindings@, fv.blks@, 0) + "}\n"@,
    }
}

/// The renderings of the declaration slots from position `i` on: every
/// defined function exactly once, in declaration order.
pub open spec fn funcs_rep_from(types: Seq<TypeEntry>, funcs: Seq<FuncEntry>, i: int) -> Seq<char>
    decreases funcs.len() - i,
{
    if i < 0 || i >= funcs.len() {
        Seq::empty()
    } else {
        func_rep(types, funcs, funcs[i]) + funcs_rep_from(types, funcs, i + 1)
    }
}

/// The rendering of one arena entry: nothing for an anonymous entry, else
/// one line naming it and its kind.
pub open spec fn type_decl_rep(e: TypeEntry) -> Seq<char> {
    match e.name {
        Some(n) => "type "@ + n@ + " :: "@ + (match e.variant {
            TypeVariant::Builtin(_) => "<builtin>;\n"@,
        }),
        None => Seq::empty(),
    }
}

/// The renderings of the arena entries from position `i` on: every named
/// type exactly once, in declaration order.
pub open spec fn types_rep_from(types: Seq<TypeEntry>, i: int) -> Seq<char>
    decreases types.len() - i,
{
    if i < 0 || i >= types.len() {
        Seq::empty()
    } else {
        type_decl_rep(types[i]) + types_rep_from(types, i + 1)
    }
}

/// The whole dump: the named types, then the defined functions, each in
/// declaration order.
pub open spec fn dump_rep(types: Seq<TypeEntry>, funcs: Seq<FuncEntry>) -> Seq<char> {
    types_rep_from(types, 0) + funcs_rep_from(types, funcs, 0)
}

/// The one-character string of a decimal digit.
fn digit_str(d: u64) -> (r: &'static str)
    requires
        d < 10,
    ensures
        r@ == digit_rep(d as nat),
{
    match d {
        0 => "0",
        1 => "1",
        2 => "2",
        3 => "3",
        4 => "4",
        5 => "5",
        6 => "6",
        7 => "7",
        8 => "8",
        _ => "9",
    }
}

/// Appends the decimal rendering of `n`.
fn push_dec(out: &mut String, n: u64)
    ensures
        final(out)@ == old(out)@ + dec_rep(n as nat),
    decreases n,
{
    if n >= 10 {
        push_dec(out, n / 10);
    }
    out.append(digit_str(n % 10));
    proof {
        assert(out@ =~= old(out)@ + dec_rep(n as nat));
    }
}

/// Appends the decimal rendering of `n`, sign included.
fn push_int(out: &mut String, n: i32)
    ensures
        final(out)@ == old(out)@ + int_rep(n as int),
{
    if n < 0 {
        out.append("-");
        let m = (-(n as i64)) as u64;
        push_dec(out, m);
        proof {
            assert(out@ =~= old(out)@ + int_rep(n as int));
        }
    } else {
        push_dec(out, n as u64);
    }
}

/// Appends the rendering of a type handle.
fn push_type(out: &mut String, types: &Vec<TypeEntry>, t: Type)
    ensures
        final(out)@ == old(out)@ + type_rep(types@, t),
{
    let i = t.index();
    if i < types.len() {
        match &types[i].variant {
            TypeVariant::Builtin(bt) => match bt {
                BuiltinType::SInt(sz) => {
                    out.append("s");
                    push_dec(out, sz.size() as u64);
                },
            },
        }
        proof {
            assert(out@ =~= old(out)@ + type_rep(types@, t));
        }
    } else {
        out.append("<unknown>");
    }
}

/// Appends the rendering of one slot reference.
fn push_binding(out: &mut String, bindings: &Vec<Binding>, r: u32)
    ensures
        final(out)@ == old(out)@ + binding_rep(bindings@, r as int),
{
    if (r as usize) < bindings.len() {
        match &bindings[r as usize].name {
            Some(n) => out.append(n.as_str()),
            None => {},
        }
    }
    out.append("_");
    push_dec(out, r as u64);
    proof {
        assert(out@ =~= old(out)@ + binding_rep(bindings@, r as int));
    }
}

/// Appends the display name of a callee.
fn push_func_name(out: &mut String, funcs: &Vec<FuncEntry>, i: usize)
    ensures
        final(out)@ == old(out)@ + func_name_rep(funcs@, i as int),
{
    if i < funcs.len() {
        match &funcs[i].name {
            Some(n) => out.append(n.as_str()),
            None => out.append("<anonymous>"),
        }
    } else {
        out.append("<anonymous>");
    }
}

/// Appends the comma-separated argument references from position `i` on.
fn push_args_from(out: &mut String, bindings: &Vec<Binding>, args: &Vec<Reference>, i: usize)
    ensures
        final(out)@ == old(out)@ + args_rep_from(bindings@, args@, i as int),
    decreases args@.len() - i,
{
    if i < args.len() {
        push_binding(out, bindings, args[i].index());
        if i + 1 < args.len() {
            out.append(", ");
            push_args_from(out, bindings, args, i + 1);
        }
        proof {
            assert(out@ =~= old(out)@ + args_rep_from(bindings@, args@, i as int));
        }
    }
}

/// Appends the rendering of one right-hand side.
fn push_value(out: &mut String, funcs: &Vec<FuncEntry>, bindings: &Vec<Binding>, v: &Value)
    ensures
        final(out)@ == old(out)@ + value_rep(funcs@, bindings@, *v),
{
    match v {
        Value::Literal(n) => {
            out.append("literal ");
            push_int(out, *n);
            out.append(";\n");
        },
        Value::Reference(r) => {
            push_binding(out, bindings, r.index());
            out.append(";\n");
        },
        Value::Add(a, b) => {
            push_binding(out, bindings, a.index());
            out.append(" + ");
            push_binding(out, bindings, b.index());
            out.append(";\n");
        },
        Value::Call { callee, args } => {
            push_func_name(out, funcs, callee.index());
            out.append("(");
            push_args_from(out, bindings, args, 0);
            out.append(");\n");
        },
    }
    proof {
        assert(out@ =~= old(out)@ + value_rep(funcs@, bindings@, *v));
    }
}

/// Appends the rendering of one statement.
fn push_stmt(out: &mut String, funcs: &Vec<FuncEntry>, bindings: &Vec<Binding>, st: &Statement)
    ensures
        final(out)@ == old(out)@ + stmt_rep(funcs@, bindings@, *st),
{
    let l = st.lhs.index();
    if l == 0 {
        out.append("    <return> = ");
    } else {
        out.append("    ");
        push_binding(out, bindings, l);
        out.append(" = ");
    }
    push_value(out, funcs, bindings, &st.rhs);
    proof {
        assert(out@ =~= old(out)@ + stmt_rep(funcs@, bindings@, *st));
    }
}

/// Appends the statements from position `i` on.
fn push_stmts_from(
    out: &mut String,
    funcs: &Vec<FuncEntry>,
    bindings: &Vec<Binding>,
    stmts: &Vec<Statement>,
    i: usize,
)
    ensures
        final(out)@ == old(out)@ + stmts_rep_from(funcs@, bindings@, stmts@, i as int),
    decreases stmts@.len() - i,
{
    if i < stmts.len() {
        push_stmt(out, funcs, bindings, &stmts[i]);
        push_stmts_from(out, funcs, bindings, stmts, i + 1);
        proof {
            assert(out@ =~= old(out)@ + stmts_rep_from(funcs@, bindings@, stmts@, i as int));
        }
    }
}

/// Appends the rendering of a terminator.
fn push_term(out: &mut String, t: &Terminator)
    ensures
        final(out)@ == old(out)@ + term_rep(*t),
{
    match t {
        Terminator::Goto(b) => {
            out.append("    goto bb");
            push_dec(out, b.index() as u64);
            out.append(";\n");
        },
        Terminator::Return => {
            out.append("    return;\n");
        },
    }
    proof {
        assert(out@ =~= old(out)@ + term_rep(*t));
    }
}

/// Appends the rendering of one block.
fn push_block(out: &mut String, funcs: &Vec<FuncEntry>, bindings: &Vec<Binding>, bd: &BlockData)
    ensures
        final(out)@ == old(out)@ + block_rep(funcs@, bindings@, *bd),
{
    out.append("  bb");
    push_dec(out, bd.num.index() as u64);
    out.append(": {\n");
    push_stmts_from(out, funcs, bindings, &bd.stmts, 0);
    push_term(out, &bd.term);
    out.append("  }\n");
    proof {
        assert(out@ =~= old(out)@ + block_rep(funcs@, bindings@, *bd));
    }
}

/// Appends the blocks from position `i` on.
fn push_blocks_from(
    out: &mut String,
    funcs: &Vec<FuncEntry>,
    bindings: &Vec<Binding>,
    blks: &Vec<BlockData>,
    i: usize,
)
    ensures
        final(out)@ == old(out)@ + blocks_rep_from(funcs@, bindings@, blks@, i as int),
    decreases blks@.len() - i,
{
    if i < blks.len() {
        push_block(out, funcs, bindings, &blks[i]);
        push_blocks_from(out, funcs, bindings, blks, i + 1);
        proof {
            assert(out@ =~= old(out)@ + blocks_rep_from(funcs@, bindings@, blks@, i as int));
        }
    }
}

/// Appends the comma-separated parameter types from position `i` on.
fn push_params_from(out: &mut String, types: &Vec<TypeEntry>, params: &Vec<Type>, i: usize)
    ensures
        final(out)@ == old(out)@ + params_rep_from(types@, params@, i as int),
    decreases params@.len() - i,
{
    if i < params.len() {
        push_type(out, types, params[i]);
        if i + 1 < params.len() {
            out.append(", ");
            push_params_from(out, types, params, i + 1);
        }
        proof {
            assert(out@ =~= old(out)@ + params_rep_from(types@, params@, i as int));
        }
    }
}

/// Appends the local types from position `i` on.
fn push_locals_from(out: &mut String, types: &Vec<TypeEntry>, locals: &Vec<Type>, i: usize)
    ensures
        final(out)@ == old(out)@ + locals_rep_from(types@, locals@, i as int),
    decreases locals@.len() - i,
{
    if i < locals.len() {
        out.append("    ");
        push_type(out, types, locals[i]);
        out.append(",\n");
        push_locals_from(out, types, locals, i + 1);
        proof {
            assert(out@ =~= old(out)@ + locals_rep_from(types@, locals@, i as int));
        }
    }
}

/// Appends the binding table lines from position `i` on.
fn push_bindings_from(out: &mut String, types: &Vec<TypeEntry>, bindings: &Vec<Binding>, i: usize)
    ensures
        final(out)@ == old(out)@ + bindings_rep_from(types@, bindings@, i as int),
    decreases bindings@.len() - i,
{
    if i < bindings.len() {
        let b = &bindings[i];
        match &b.kind {
            BindingKind::Return => {
                out.append("    <return>: ");
                push_type(out, types, b.ty);
                out.append("\n");
            },
            BindingKind::Param(p) => {
                out.append("    ");
                match &b.name {
                    Some(n) => out.append(n.as_str()),
                    None => {},
                }
                out.append("_");
                push_dec(out, i as u64);
                out.append(": ");
                push_type(out, types, b.ty);
                out.append(" = <params>[");
                push_dec(out, *p as u64);
                out.append("],\n");
            },
            BindingKind::Local(l) => {
                out.append("    ");
                match &b.name {
                    Some(n) => out.append(n.as_str()),
                    None => {},
                }
                out.append("_");
                push_dec(out, i as u64);
                out.append(": ");
                push_type(out, types, b.ty);
                out.append(" = <locals>[");
                push_dec(out, *l as u64);
                out.append("],\n");
            },
        }
        proof {
            assert(out@ =~= old(out)@ + binding_decl_rep(types@, bindings@, i as int));
        }
        push_bindings_from(out, types, bindings, i + 1);
        proof {
            assert(out@ =~= old(out)@ + bindings_rep_from(types@, bindings@, i as int));
        }
    }
}

/// Appends the rendering of one declaration slot.
fn push_func(out: &mut String, types: &Vec<TypeEntry>, funcs: &Vec<FuncEntry>, e: &FuncEntry)
    ensures
        final(out)@ == old(out)@ + func_rep(types@, funcs@, *e),
{
    match &e.value {
        None => {},
        Some(fv) => {
            match &e.name {
                Some(n) => out.append(n.as_str()),
                None => out.append("<anonymous>"),
            }
            out.append(" :: (");
            push_params_from(out, types, &fv.params, 0);
            out.append(") -> ");
            push_type(out, types, fv.ret_ty);
            out.append(" {\n");
            out.append("  locals: {\n");
            push_locals_from(out, types, &fv.locals, 0);
            out.append("  }\n");
            out.append("  bindings: {\n");
            push_bindings_from(out, types, &fv.bindings, 0);
            out.append("  }\n");
            push_blocks_from(out, funcs, &fv.bindings, &fv.blks, 0);
            out.append("}\n");
            proof {
                assert(out@ =~= old(out)@ + func_rep(types@, funcs@, *e));
            }
        },
    }
}

/// Appends the declaration slots from position `i` on.
fn push_funcs_from(out: &mut String, types: &Vec<TypeEntry>, funcs: &Vec<FuncEntry>, i: usize)
    ensures
        final(out)@ == old(out)@ + funcs_rep_from(types@, funcs@, i as int),
    decreases funcs@.len() - i,
{
    if i < funcs.len() {
        push_func(out, types, funcs, &funcs[i]);
        push_funcs_from(out, types, funcs, i + 1);
        proof {
            assert(out@ =~= old(out)@ + funcs_rep_from(types@, funcs@, i as int));
        }
    }
}

/// Appends the arena entries from position `i` on.
fn push_types_from(out: &mut String, types: &Vec<TypeEntry>, i: usize)
    ensures
        final(out)@ == old(out)@ + types_rep_from(types@, i as int),
    decreases types@.len() - i,
{
    if i < types.len() {
        match &types[i].name {
            Some(n) => {
                out.append("type ");
                out.append(n.as_str());
                out.append(" :: ");
                match &types[i].variant {
                    TypeVariant::Builtin(_) => out.append("<builtin>;\n"),
                }
            },
            None => {},
        }
        proof {
            assert(out@ =~= old(out)@ + type_decl_rep(types@[i as int]));
        }
        push_types_from(out, types, i + 1);
        proof {
            assert(out@ =~= old(out)@ + types_rep_from(types@, i as int));
        }
    }
}

impl Mir {
    /// The read-only diagnostic dump of the whole program: every named
    /// type and every defined function exactly once, in declaration
    /// order, with signatures, locals, the binding table with role
    /// annotations, and the per-block statements and terminator.
    /// Reference 0 is always rendered with the label `<return>`. The
    /// program itself is not touched.
    pub fn print(&self) -> (out: String)
        ensures
            out@ == dump_rep(self.types.types@, self.funcs@),
    {
        let mut out = String::new();
        push_types_from(&mut out, &self.types.types, 0);
        push_funcs_from(&mut out, &self.types.types, &self.funcs, 0);
        proof {
            assert(out@ =~= dump_rep(self.types.types@, self.funcs@));
        }
        out
    }
}

} // verus!
