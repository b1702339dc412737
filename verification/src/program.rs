//! The program container: owns every function declaration and definition
//! together with the shared type arena, resolves frontend type names to
//! arena handles, and hands the chosen entry function to the execution
//! engine.

use vstd::prelude::*;
use vstd::string::StringExecFns;
use crate::builder::FunctionBuilder;
use crate::eval;
use crate::eval::Fatal;
use crate::inst::{BindingKind, FunctionDecl, FunctionValue, Terminator};
use crate::ty::{MirCtxt, StringlyType, Type, TypeEntry, TypeVariant, type_index_for};

verus! {

/// One declaration slot of the program: an optional name, and the
/// definition once it has been installed. A slot with no definition is a
/// forward declaration; calling it is a caller contract violation that
/// the engine reports as fatal.
pub struct FuncEntry {
    pub name: Option<String>,
    pub value: Option<FunctionValue>,
}

/// Whether the declaration slot is named "main".
pub open spec fn entry_is_main(e: FuncEntry) -> bool {
    match e.name {
        Some(n) => n@ == "main"@,
        None => false,
    }
}

/// The first declaration slot named "main" at or after position `i`, in
/// declaration order.
pub open spec fn find_main_from(funcs: Seq<FuncEntry>, i: int) -> Option<int>
    decreases funcs.len() - i,
{
    if i < 0 || i >= funcs.len() {
        None
    } else if entry_is_main(funcs[i]) {
        Some(i)
    } else {
        find_main_from(funcs, i + 1)
    }
}

/// What running the program comes to: locate the first function named
/// "main" in declaration order — fatal if absent — and evaluate it with
/// no arguments under the given step budget.
pub open spec fn spec_run(funcs: Seq<FuncEntry>, fuel: nat) -> Result<i32, Fatal> {
    match find_main_from(funcs, 0) {
        None => Err(Fatal::MissingMain),
        Some(i) => eval::eval_call(funcs, i, Seq::empty(), fuel),
    }
}

/// The program container. Mutable only during lowering; once execution or
/// printing begins it is treated as read-only.
pub struct Mir {
    pub funcs: Vec<FuncEntry>,
    pub types: MirCtxt,
}

impl Mir {
    /// An empty program bound to the given context's type arena. The
    /// frontend then drives lowering against it through `insert_type`,
    /// `add_function_decl`, `get_function_builder` and
    /// `add_function_definition`.
    pub fn new(ctx: MirCtxt) -> (m: Self)
        ensures
            m.funcs@.len() == 0,
            m.types == ctx,
    {
        Mir { funcs: Vec::new(), types: ctx }
    }

    /// Registers a type descriptor in the arena, under `name` if one is
    /// given and anonymously otherwise, and returns its stable handle.
    /// Duplicate names are allowed: a later insertion shadows an earlier
    /// one in `get_type` lookups.
    pub fn insert_type(&mut self, name: Option<String>, ty: TypeVariant) -> (t: Type)
        ensures
            final(self).types.types@ == old(self).types.types@.push(
                TypeEntry { name, variant: ty },
            ),
            t@ == old(self).types.types@.len(),
            final(self).funcs == old(self).funcs,
    {
        let idx = self.types.types.len();
        self.types.types.push(TypeEntry { name, variant: ty });
        Type(idx)
    }

    /// Appends a declaration slot with no definition yet, so that
    /// functions can be declared before they are defined and forward or
    /// mutual references can be lowered.
    pub fn add_function_decl(&mut self, name: Option<String>) -> (d: FunctionDecl)
        ensures
            final(self).funcs@.len() == old(self).funcs@.len() + 1,
            final(self).funcs@.last().name == name,
            final(self).funcs@.last().value is None,
            forall|i: int| 0 <= i < old(self).funcs@.len() ==> final(self).funcs@[i]
                == old(self).funcs@[i],
            d@ == old(self).funcs@.len(),
            final(self).types == old(self).types,
    {
        let idx = self.funcs.len();
        self.funcs.push(FuncEntry { name, value: None });
        FunctionDecl(idx)
    }

    /// A fresh builder for the declaration, seeded with the return and
    /// parameter bindings and the entry and exit blocks.
    pub fn get_function_builder(
        &self,
        decl: FunctionDecl,
        params: Vec<Type>,
        ret_ty: Type,
    ) -> (b: FunctionBuilder)
        requires
            params@.len() < u32::MAX,
        ensures
            b.decl == decl,
            b.params == params,
            b.ret_ty == ret_ty,
            b.locals@.len() == 0,
            b.bindings@.len() == params@.len() + 1,
            b.bindings@[0].name matches Some(n) && n@ == "<return>"@,
            b.bindings@[0].ty == ret_ty,
            b.bindings@[0].kind == BindingKind::Return,
            forall|i: int| 1 <= i <= params@.len() ==> {
                &&& (#[trigger] b.bindings@[i]).name is None
                &&& b.bindings@[i].ty == params@[i - 1]
                &&& b.bindings@[i].kind == BindingKind::Param((i - 1) as u32)
            },
            b.blks@.len() == 2,
            b.blks@[0].num@ == 0,
            b.blks@[0].stmts@.len() == 0,
            b.blks@[0].term matches Terminator::Goto(t) && t@ == 1,
            b.blks@[1].num@ == 1,
            b.blks@[1].stmts@.len() == 0,
            b.blks@[1].term is Return,
    {
        FunctionBuilder::new(decl, params, ret_ty)
    }

    /// Freezes the builder and installs the resulting function value at
    /// its declaration slot, overwriting any previous undefined state.
    /// Once installed, the definition is never mutated.
    pub fn add_function_definition(&mut self, builder: FunctionBuilder)
        requires
            0 <= builder.decl@ < old(self).funcs@.len(),
        ensures
            final(self).funcs@.len() == old(self).funcs@.len(),
            final(self).funcs@[builder.decl@].name == old(self).funcs@[builder.decl@].name,
            final(self).funcs@[builder.decl@].value matches Some(v) && v == (FunctionValue {
                params: builder.params,
                ret_ty: builder.ret_ty,
                blks: builder.blks,
                locals: builder.locals,
                bindings: builder.bindings,
            }),
            forall|i: int| 0 <= i < old(self).funcs@.len() && i != builder.decl@
                ==> final(self).funcs@[i] == old(self).funcs@[i],
            final(self).types == old(self).types,
    {
        let value = FunctionValue {
            params: builder.params,
            ret_ty: builder.ret_ty,
            blks: builder.blks,
            locals: builder.locals,
            bindings: builder.bindings,
        };
        let idx = builder.decl.index();
        let entry = &mut self.funcs[idx];
        entry.value = Some(value);
    }

    /// Resolves a frontend-level type reference to an arena handle by
    /// name. An unknown name is reported as an absent result; the caller
    /// decides whether that is fatal.
    #[verifier::loop_isolation(false)]
    pub fn get_type(&self, stype: &StringlyType) -> (t: Option<Type>)
        ensures
            match type_index_for(self.types.types@, spec_stringly_name(*stype)) {
                Some(i) => t matches Some(h) && h@ == i,
                None => t is None,
            },
    {
        let StringlyType::UserDefinedType(name) = stype;
        let mut i = self.types.types.len();
        proof {
            assert(self.types.types@.take(self.types.types@.len() as int) =~= self.types.types@);
        }
        while i > 0
            invariant
                i <= self.types.types@.len(),
                type_index_for(self.types.types@, name@) == type_index_for(
                    self.types.types@.take(i as int),
                    name@,
                ),
            decreases i,
        {
            i = i - 1;
            proof {
                assert(self.types.types@.take(i + 1).drop_last() =~= self.types.types@.take(
                    i as int,
                ));
                assert(self.types.types@.take(i + 1).last() == self.types.types@[i as int]);
            }
            match &self.types.types[i].name {
                Some(n) => {
                    if n.eq(name) {
                        return Some(Type(i));
                    }
                },
                None => {},
            }
        }
        proof {
            assert(self.types.types@.take(0) =~= Seq::<TypeEntry>::empty());
        }
        None
    }

    /// Runs the program under an explicit step budget: each block
    /// transfer and each nested call consumes one unit, and exhausting
    /// the budget is the fatal resource condition `Fatal::OutOfFuel`.
    /// The result is exactly what the mathematical semantics gives.
    #[verifier::loop_isolation(false)]
    pub fn run_with_fuel(&self, fuel: u64) -> (r: Result<i32, Fatal>)
        ensures
            r == spec_run(self.funcs@, fuel as nat),
            r == Err::<i32, Fatal>(Fatal::MissingMain) <==> find_main_from(self.funcs@, 0)
                is None,
    {
        proof {
            match find_main_from(self.funcs@, 0) {
                Some(m) => {
                    eval::lemma_eval_call_no_missing_main(
                        self.funcs@,
                        m,
                        Seq::empty(),
                        fuel as nat,
                    );
                },
                None => {},
            }
        }
        let main_name = String::from_str("main");
        let n = self.funcs.len();
        let mut i: usize = 0;
        while i < n
            invariant
                i <= n,
                n == self.funcs@.len(),
                main_name@ == "main"@,
                find_main_from(self.funcs@, 0) == find_main_from(self.funcs@, i as int),
            decreases n - i,
        {
            let found = match &self.funcs[i].name {
                Some(name) => name.eq(&main_name),
                None => false,
            };
            if found {
                let args: Vec<i32> = Vec::new();
                proof {
                    assert(args@ =~= Seq::<i32>::empty());
                }
                return eval::run_call(self, FunctionDecl(i), args, fuel);
            }
            i = i + 1;
        }
        Err(Fatal::MissingMain)
    }

    /// Runs the program: locates the first function named "main" in
    /// declaration order — fatal if absent — and evaluates it with no
    /// arguments, yielding its return slot. The step budget is the
    /// largest one expressible.
    pub fn run(&self) -> (r: Result<i32, Fatal>)
        ensures
            r == spec_run(self.funcs@, u64::MAX as nat),
            r == Err::<i32, Fatal>(Fatal::MissingMain) <==> find_main_from(self.funcs@, 0)
                is None,
    {
        self.run_with_fuel(u64::MAX)
    }
}

/// The name that a frontend-level type reference carries.
pub open spec fn spec_stringly_name(s: StringlyType) -> Seq<char> {
    match s {
        StringlyType::UserDefinedType(n) => n@,
    }
}

} // verus!
