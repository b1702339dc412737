//! The execution engine.
//!
//! The semantics of a program is given by the spec functions `eval_call`,
//! `eval_blocks`, `eval_stmts` and `eval_value`: a deterministic,
//! fuel-bounded big-step evaluation. One unit of the budget is consumed by
//! every block transfer and every nested call, so any run that terminates
//! at all terminates under some finite budget; exhausting the budget is
//! the fatal resource condition `Fatal::OutOfFuel`.
//!
//! The interpreter `run_call` is verified to return exactly what the
//! semantics gives, for every program — well formed or not: instead of
//! trusting its caller, evaluation reports a malformed reference, block or
//! call as a `Fatal` value.

use vstd::prelude::*;
use crate::inst::{FunctionDecl, FunctionValue, Reference, Statement, Terminator, Value};
use crate::program::{FuncEntry, Mir};

verus! {

/// A fatal condition: a contract violation of the frontend or caller, or
/// an exhausted resource. Evaluation reports it and stops; there is no
/// recovery or retry.
#[derive(Copy, Clone, Debug, PartialEq, Eq, Structural)]
pub enum Fatal {
    /// The program holds no function named "main".
    MissingMain,
    /// A call targeted a declaration slot that is out of range or has no
    /// definition installed.
    UndefinedFunction,
    /// A call's argument count did not match the callee's declared
    /// parameters.
    ArityMismatch,
    /// A statement or argument used a reference outside the store.
    InvalidReference,
    /// A goto targeted a block the function does not have.
    InvalidBlock,
    /// The step budget was exhausted.
    OutOfFuel,
}

/// The value of one slot of the store, or the fatal condition when the
/// reference was never allocated.
pub open spec fn read_slot(store: Seq<i32>, r: Reference) -> Result<i32, Fatal> {
    if 0 <= r@ < store.len() {
        Ok(store[r@])
    } else {
        Err(Fatal::InvalidReference)
    }
}

/// Whether every argument reference points into the store.
pub open spec fn args_ok(store: Seq<i32>, args: Seq<Reference>) -> bool {
    forall|i: int| 0 <= i < args.len() ==> 0 <= (#[trigger] args[i])@ < store.len()
}

/// The argument values of a call: the current slot values of the argument
/// references, in order.
pub open spec fn eval_args(store: Seq<i32>, args: Seq<Reference>) -> Result<Seq<i32>, Fatal> {
    if args_ok(store, args) {
        Ok(args.map_values(|r: Reference| store[r@]))
    } else {
        Err(Fatal::InvalidReference)
    }
}

/// The store that a fresh invocation starts from: one slot per binding,
/// the parameter slots 1..=P initialized from the arguments in order, the
/// return slot and every local slot initialized to zero.
pub open spec fn init_store(bindings_len: nat, args: Seq<i32>) -> Seq<i32> {
    Seq::new(
        bindings_len,
        |i: int|
            if 1 <= i <= args.len() {
                args[i - 1]
            } else {
                0i32
            },
    )
}

/// The value of one right-hand side: a literal yields its constant, a
/// reference read yields the slot's current value, an add sums two slots
/// with 32-bit two's-complement wraparound, and a call evaluates the
/// callee on the argument slots and yields its return slot.
pub open spec fn eval_value(funcs: Seq<FuncEntry>, store: Seq<i32>, v: Value, fuel: nat) -> Result<
    i32,
    Fatal,
>
    decreases fuel, 0nat, 0nat,
{
    match v {
        Value::Literal(n) => Ok(n),
        Value::Reference(r) => read_slot(store, r),
        Value::Add(a, b) => match (read_slot(store, a), read_slot(store, b)) {
            (Ok(x), Ok(y)) => Ok(vstd::wrapping::i32_specs::wrapping_add(x, y)),
            (Err(e), _) => Err(e),
            (_, Err(e)) => Err(e),
        },
        Value::Call { callee, args } => match eval_args(store, args@) {
            Err(e) => Err(e),
            Ok(vals) => if fuel == 0 {
                Err(Fatal::OutOfFuel)
            } else {
                eval_call(funcs, callee@, vals, (fuel - 1) as nat)
            },
        },
    }
}

/// The store after a list of statements: each statement's value is
/// evaluated in order and stored at its destination reference.
pub open spec fn eval_stmts(
    funcs: Seq<FuncEntry>,
    stmts: Seq<Statement>,
    store: Seq<i32>,
    fuel: nat,
) -> Result<Seq<i32>, Fatal>
    decreases fuel, 1nat, stmts.len(),
{
    if stmts.len() == 0 {
        Ok(store)
    } else {
        match eval_value(funcs, store, stmts[0].rhs, fuel) {
            Err(e) => Err(e),
            Ok(v) => if 0 <= stmts[0].lhs@ < store.len() {
                eval_stmts(funcs, stmts.skip(1), store.update(stmts[0].lhs@, v), fuel)
            } else {
                Err(Fatal::InvalidReference)
            },
        }
    }
}

/// One invocation from block `b` on: the block's statements run in order,
/// then its terminator is followed. A goto transfers control — blocks may
/// be revisited, there is no acyclicity requirement — and a return halts
/// the invocation and yields the current value of slot 0.
pub open spec fn eval_blocks(
    funcs: Seq<FuncEntry>,
    fv: FunctionValue,
    store: Seq<i32>,
    b: int,
    fuel: nat,
) -> Result<i32, Fatal>
    decreases fuel, 2nat, 0nat,
{
    if !(0 <= b < fv.blks@.len()) {
        Err(Fatal::InvalidBlock)
    } else {
        match eval_stmts(funcs, fv.blks@[b].stmts@, store, fuel) {
            Err(e) => Err(e),
            Ok(store2) => match fv.blks@[b].term {
                Terminator::Return => if store2.len() > 0 {
                    Ok(store2[0])
                } else {
                    Err(Fatal::InvalidReference)
                },
                Terminator::Goto(c) => if fuel == 0 {
                    Err(Fatal::OutOfFuel)
                } else {
                    eval_blocks(funcs, fv, store2, c@, (fuel - 1) as nat)
                },
            },
        }
    }
}

/// A whole invocation: the callee must be a declaration slot with an
/// installed definition, the argument count must match its parameters
/// exactly, and execution begins at block 0 on a fresh store.
pub open spec fn eval_call(funcs: Seq<FuncEntry>, callee: int, args: Seq<i32>, fuel: nat) -> Result<
    i32,
    Fatal,
>
    decreases fuel, 3nat, 0nat,
{
    if !(0 <= callee < funcs.len()) {
        Err(Fatal::UndefinedFunction)
    } else {
        match funcs[callee].value {
            None => Err(Fatal::UndefinedFunction),
            Some(fv) => if args.len() != fv.params@.len() {
                Err(Fatal::ArityMismatch)
            } else {
                eval_blocks(funcs, fv, init_store(fv.bindings@.len(), args), 0, fuel)
            },
        }
    }
}

/// Evaluating a value never reports the absence of "main": that condition
/// belongs to `run` alone.
pub proof fn lemma_eval_value_no_missing_main(
    funcs: Seq<FuncEntry>,
    store: Seq<i32>,
    v: Value,
    fuel: nat,
)
    ensures
        eval_value(funcs, store, v, fuel) != Err::<i32, Fatal>(Fatal::MissingMain),
    decreases fuel, 0nat, 0nat,
{
    match v {
        Value::Call { callee, args } => {
            match eval_args(store, args@) {
                Ok(vals) => {
                    if fuel > 0 {
                        lemma_eval_call_no_missing_main(funcs, callee@, vals, (fuel - 1) as nat);
                    }
                },
                Err(_) => {},
            }
        },
        _ => {},
    }
}

/// Running statements never reports the absence of "main".
pub proof fn lemma_eval_stmts_no_missing_main(
    funcs: Seq<FuncEntry>,
    stmts: Seq<Statement>,
    store: Seq<i32>,
    fuel: nat,
)
    ensures
        eval_stmts(funcs, stmts, store, fuel) != Err::<Seq<i32>, Fatal>(Fatal::MissingMain),
    decreases fuel, 1nat, stmts.len(),
{
    if stmts.len() > 0 {
        lemma_eval_value_no_missing_main(funcs, store, stmts[0].rhs, fuel);
        match eval_value(funcs, store, stmts[0].rhs, fuel) {
            Ok(v) => {
                if 0 <= stmts[0].lhs@ < store.len() {
                    lemma_eval_stmts_no_missing_main(
                        funcs,
                        stmts.skip(1),
                        store.update(stmts[0].lhs@, v),
                        fuel,
                    );
                }
            },
            Err(_) => {},
        }
    }
}

/// Running blocks never reports the absence of "main".
pub proof fn lemma_eval_blocks_no_missing_main(
    funcs: Seq<FuncEntry>,
    fv: FunctionValue,
    store: Seq<i32>,
    b: int,
    fuel: nat,
)
    ensures
        eval_blocks(funcs, fv, store, b, fuel) != Err::<i32, Fatal>(Fatal::MissingMain),
    decreases fuel, 2nat, 0nat,
{
    if 0 <= b < fv.blks@.len() {
        lemma_eval_stmts_no_missing_main(funcs, fv.blks@[b].stmts@, store, fuel);
        match eval_stmts(funcs, fv.blks@[b].stmts@, store, fuel) {
            Ok(store2) => {
                match fv.blks@[b].term {
                    Terminator::Goto(c) => {
                        if fuel > 0 {
                            lemma_eval_blocks_no_missing_main(
                                funcs,
                                fv,
                                store2,
                                c@,
                                (fuel - 1) as nat,
                            );
                        }
                    },
                    Terminator::Return => {},
                }
            },
            Err(_) => {},
        }
    }
}

/// Evaluating a call never reports the absence of "main": every fatal
/// condition it reports names the violation actually found.
pub proof fn lemma_eval_call_no_missing_main(
    funcs: Seq<FuncEntry>,
    callee: int,
    args: Seq<i32>,
    fuel: nat,
)
    ensures
        eval_call(funcs, callee, args, fuel) != Err::<i32, Fatal>(Fatal::MissingMain),
    decreases fuel, 3nat, 0nat,
{
    if 0 <= callee < funcs.len() {
        match funcs[callee].value {
            Some(fv) => {
                if args.len() == fv.params@.len() {
                    lemma_eval_blocks_no_missing_main(
                        funcs,
                        fv,
                        init_store(fv.bindings@.len(), args),
                        0,
                        fuel,
                    );
                }
            },
            None => {},
        }
    }
}

/// Law: addition follows native 32-bit signed wraparound, for every
/// argument pair. Whenever both operand slots are allocated, an add
/// yields their sum under two's-complement wraparound; in particular the
/// largest 32-bit integer plus one wraps to the smallest.
pub proof fn lemma_add_wraps(
    funcs: Seq<FuncEntry>,
    store: Seq<i32>,
    a: Reference,
    b: Reference,
    fuel: nat,
)
    requires
        0 <= a@ < store.len(),
        0 <= b@ < store.len(),
    ensures
        eval_value(funcs, store, Value::Add(a, b), fuel) == Ok::<i32, Fatal>(
            vstd::wrapping::i32_specs::wrapping_add(store[a@], store[b@]),
        ),
        vstd::wrapping::i32_specs::wrapping_add(i32::MAX, 1i32) == i32::MIN,
{
}

/// An empty forwarding block: block `b` exists, holds no statements, and
/// unconditionally transfers to block `c`.
pub open spec fn is_empty_goto(fv: FunctionValue, b: int, c: int) -> bool {
    &&& 0 <= b < fv.blks@.len()
    &&& fv.blks@[b].stmts@.len() == 0
    &&& fv.blks@[b].term matches Terminator::Goto(t) && t@ == c
}

/// A chain of `n` empty forwarding blocks leading from block `b` to block
/// `end`.
pub open spec fn goto_chain(fv: FunctionValue, b: int, end: int, n: nat) -> bool
    decreases n,
{
    if n == 0 {
        b == end
    } else {
        exists|c: int| is_empty_goto(fv, b, c) && goto_chain(fv, c, end, (n - 1) as nat)
    }
}

/// Law: a chain of empty forwarding blocks, of any length, does not affect
/// the result of an invocation. Evaluation from the head of the chain
/// yields exactly the evaluation from its end, with one unit of the step
/// budget spent per link.
pub proof fn lemma_goto_chain_same_result(
    funcs: Seq<FuncEntry>,
    fv: FunctionValue,
    store: Seq<i32>,
    b: int,
    end: int,
    n: nat,
    fuel: nat,
)
    requires
        goto_chain(fv, b, end, n),
        n <= fuel,
    ensures
        eval_blocks(funcs, fv, store, b, fuel) == eval_blocks(
            funcs,
            fv,
            store,
            end,
            (fuel - n) as nat,
        ),
    decreases n,
{
    if n > 0 {
        let c = choose|c: int|
            is_empty_goto(fv, b, c) && goto_chain(fv, c, end, (n - 1) as nat);
        assert(eval_stmts(funcs, fv.blks@[b].stmts@, store, fuel) == Ok::<Seq<i32>, Fatal>(store));
        lemma_goto_chain_same_result(funcs, fv, store, c, end, (n - 1) as nat, (fuel - 1) as nat);
    }
}

/// Reads one argument list out of the store.
#[verifier::loop_isolation(false)]
fn run_args(store: &Vec<i32>, args: &Vec<Reference>) -> (r: Result<Vec<i32>, Fatal>)
    ensures
        match r {
            Ok(vals) => eval_args(store@, args@) == Ok::<Seq<i32>, Fatal>(vals@),
            Err(e) => eval_args(store@, args@) == Err::<Seq<i32>, Fatal>(e),
        },
{
    let mut vals: Vec<i32> = Vec::new();
    let mut i: usize = 0;
    while i < args.len()
        invariant
            i <= args@.len(),
            vals@.len() == i,
            forall|j: int| 0 <= j < i ==> 0 <= (#[trigger] args@[j])@ < store@.len(),
            forall|j: int| 0 <= j < i ==> #[trigger] vals@[j] == store@[args@[j]@],
        decreases args@.len() - i,
    {
        let idx = args[i].index();
        if idx as usize >= store.len() {
            assert(!args_ok(store@, args@));
            return Err(Fatal::InvalidReference);
        }
        vals.push(store[idx as usize]);
        i = i + 1;
    }
    proof {
        assert(args_ok(store@, args@));
        assert(vals@ =~= args@.map_values(|r: Reference| store@[r@]));
    }
    Ok(vals)
}

/// The store that a fresh invocation starts from.
#[verifier::loop_isolation(false)]
fn build_store(n: usize, args: &Vec<i32>) -> (store: Vec<i32>)
    ensures
        store@ == init_store(n as nat, args@),
{
    let mut store: Vec<i32> = Vec::new();
    let mut i: usize = 0;
    while i < n
        invariant
            i <= n,
            store@.len() == i,
            forall|j: int| 0 <= j < i ==> #[trigger] store@[j] == (if 1 <= j <= args@.len() {
                args@[j - 1]
            } else {
                0i32
            }),
        decreases n - i,
    {
        if 1 <= i && i <= args.len() {
            store.push(args[i - 1]);
        } else {
            store.push(0);
        }
        i = i + 1;
    }
    proof {
        assert(store@ =~= init_store(n as nat, args@));
    }
    store
}

/// One right-hand side, interpreted against the current store.
fn run_value(m: &Mir, store: &Vec<i32>, v: &Value, fuel: u64) -> (r: Result<i32, Fatal>)
    ensures
        r == eval_value(m.funcs@, store@, *v, fuel as nat),
    decreases fuel, 0nat, 0nat,
{
    match v {
        Value::Literal(n) => Ok(*n),
        Value::Reference(rf) => {
            let idx = rf.index();
            if (idx as usize) < store.len() {
                Ok(store[idx as usize])
            } else {
                Err(Fatal::InvalidReference)
            }
        },
        Value::Add(a, b) => {
            let ia = a.index();
            if ia as usize >= store.len() {
                return Err(Fatal::InvalidReference);
            }
            let ib = b.index();
            if ib as usize >= store.len() {
                return Err(Fatal::InvalidReference);
            }
            Ok(store[ia as usize].wrapping_add(store[ib as usize]))
        },
        Value::Call { callee, args } => {
            match run_args(store, args) {
                Err(e) => Err(e),
                Ok(vals) => {
                    if fuel == 0 {
                        Err(Fatal::OutOfFuel)
                    } else {
                        run_call(m, *callee, vals, fuel - 1)
                    }
                },
            }
        },
    }
}

/// One block's statements, in order, against the store.
#[verifier::loop_isolation(false)]
fn run_stmts(m: &Mir, stmts: &Vec<Statement>, store: &mut Vec<i32>, fuel: u64) -> (r: Result<
    (),
    Fatal,
>)
    ensures
        match r {
            Ok(u) => eval_stmts(m.funcs@, stmts@, old(store)@, fuel as nat) == Ok::<
                Seq<i32>,
                Fatal,
            >(final(store)@),
            Err(e) => eval_stmts(m.funcs@, stmts@, old(store)@, fuel as nat) == Err::<
                Seq<i32>,
                Fatal,
            >(e),
        },
    decreases fuel, 1nat, 0nat,
{
    let ghost orig = eval_stmts(m.funcs@, stmts@, old(store)@, fuel as nat);
    proof {
        assert(stmts@.skip(0) =~= stmts@);
    }
    let mut i: usize = 0;
    while i < stmts.len()
        invariant
            i <= stmts@.len(),
            orig == eval_stmts(m.funcs@, stmts@.skip(i as int), store@, fuel as nat),
        decreases stmts@.len() - i,
    {
        proof {
            assert(stmts@.skip(i as int)[0] == stmts@[i as int]);
            assert(stmts@.skip(i as int).skip(1) =~= stmts@.skip(i as int + 1));
        }
        let s = &stmts[i];
        let v = match run_value(m, store, &s.rhs, fuel) {
            Ok(v) => v,
            Err(e) => {
                return Err(e);
            },
        };
        let l = s.lhs.index();
        if (l as usize) >= store.len() {
            return Err(Fatal::InvalidReference);
        }
        store.set(l as usize, v);
        i = i + 1;
    }
    proof {
        assert(stmts@.skip(i as int) =~= Seq::<Statement>::empty());
    }
    Ok(())
}

/// One invocation from block 0 on, following terminators until a return
/// or a fatal condition.
#[verifier::loop_isolation(false)]
fn run_blocks(m: &Mir, fv: &FunctionValue, store: Vec<i32>, fuel: u64) -> (r: Result<i32, Fatal>)
    ensures
        r == eval_blocks(m.funcs@, *fv, store@, 0, fuel as nat),
    decreases fuel, 2nat, 0nat,
{
    let ghost orig = eval_blocks(m.funcs@, *fv, store@, 0, fuel as nat);
    let mut store = store;
    let mut cur: u32 = 0;
    let mut cur_fuel = fuel;
    loop
        invariant
            cur_fuel <= fuel,
            orig == eval_blocks(m.funcs@, *fv, store@, cur as int, cur_fuel as nat),
        decreases cur_fuel,
    {
        if cur as usize >= fv.blks.len() {
            return Err(Fatal::InvalidBlock);
        }
        let blk = &fv.blks[cur as usize];
        match run_stmts(m, &blk.stmts, &mut store, cur_fuel) {
            Ok(_) => {},
            Err(e) => {
                return Err(e);
            },
        }
        match &blk.term {
            Terminator::Return => {
                if store.len() == 0 {
                    return Err(Fatal::InvalidReference);
                }
                return Ok(store[0]);
            },
            Terminator::Goto(c) => {
                if cur_fuel == 0 {
                    return Err(Fatal::OutOfFuel);
                }
                cur_fuel = cur_fuel - 1;
                cur = c.index();
            },
        }
    }
}

/// One whole invocation of a declared function on an ordered argument
/// list: exactly the mathematical semantics `eval_call`, under the given
/// step budget.
pub fn run_call(m: &Mir, callee: FunctionDecl, args: Vec<i32>, fuel: u64) -> (r: Result<i32, Fatal>)
    ensures
        r == eval_call(m.funcs@, callee@, args@, fuel as nat),
    decreases fuel, 3nat, 0nat,
{
    let idx = callee.index();
    if idx >= m.funcs.len() {
        return Err(Fatal::UndefinedFunction);
    }
    match &m.funcs[idx].value {
        None => Err(Fatal::UndefinedFunction),
        Some(fv) => {
            if args.len() != fv.params.len() {
                return Err(Fatal::ArityMismatch);
            }
            let store = build_store(fv.bindings.len(), &args);
            run_blocks(m, fv, store, fuel)
        },
    }
}

} // verus!
