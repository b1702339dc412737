//! The function builder: stages one function's block graph, binding table
//! and locals, and freezes into an immutable function value when the
//! definition is installed in the program container.

use vstd::prelude::*;
use vstd::string::StringExecFns;
use crate::inst::{Binding, BindingKind, Block, BlockData, FunctionDecl, Reference, Statement,
    Terminator, Value};
use crate::ty::Type;

verus! {

/// The staging state of one function under construction. All mutation is
/// confined to the builder itself; no global state is involved.
///
/// A fresh builder always holds exactly two blocks: block 0 (the entry,
/// an unconditional goto to block 1) and block 1 (the exit, a return).
/// Binding 0 is the return slot and bindings 1..=P are the parameters;
/// every local allocated later is appended after them.
///
/// The builder performs no cross-reference validation: callers must only
/// use references it has handed out and blocks that exist.
#[derive(Debug)]
pub struct FunctionBuilder {
    pub decl: FunctionDecl,
    pub params: Vec<Type>,
    pub ret_ty: Type,
    pub locals: Vec<Type>,
    pub bindings: Vec<Binding>,
    pub blks: Vec<BlockData>,
}

impl FunctionBuilder {
    /// A fresh builder for the given declaration and signature, seeded
    /// with the entry and exit blocks and the return and parameter
    /// bindings.
    pub(crate) fn new(decl: FunctionDecl, params: Vec<Type>, ret_ty: Type) -> (b: Self)
        requires
            params@.len() < u32::MAX,
        ensures
            b.decl == decl,
            b.params == params,
            b.ret_ty == ret_ty,
            b.locals@.len() == 0,
            b.bindings@.len() == params@.len() + 1,
            b.bindings@[0].name matches Some(n) && n@ == "<return>"@,
            b.bindings@[0].ty == ret_ty,
            b.bindings@[0].kind == BindingKind::Return,
            forall|i: int| 1 <= i <= params@.len() ==> {
                &&& (#[trigger] b.bindings@[i]).name is None
                &&& b.bindings@[i].ty == params@[i - 1]
                &&& b.bindings@[i].kind == BindingKind::Param((i - 1) as u32)
            },
            b.blks@.len() == 2,
            b.blks@[0].num@ == 0,
            b.blks@[0].stmts@.len() == 0,
            b.blks@[0].term == Terminator::Goto(Block(1)),
            b.blks@[1].num@ == 1,
            b.blks@[1].stmts@.len() == 0,
            b.blks@[1].term == Terminator::Return,
    {
        let enter_block = BlockData {
            num: Block(0),
            stmts: Vec::new(),
            term: Terminator::Goto(Block(1)),
        };
        let exit_block = BlockData { num: Block(1), stmts: Vec::new(), term: Terminator::Return };

        let mut bindings: Vec<Binding> = Vec::new();
        bindings.push(Binding {
            name: Some(String::from_str("<return>")),
            ty: ret_ty,
            kind: BindingKind::Return,
        });
        let mut i: usize = 0;
        while i < params.len()
            invariant
                i <= params.len(),
                params.len() < u32::MAX,
                bindings@.len() == i + 1,
                bindings@[0].name matches Some(n) && n@ == "<return>"@,
                bindings@[0].ty == ret_ty,
                bindings@[0].kind == BindingKind::Return,
                forall|j: int| 1 <= j <= i ==> {
                    &&& (#[trigger] bindings@[j]).name is None
                    &&& bindings@[j].ty == params@[j - 1]
                    &&& bindings@[j].kind == BindingKind::Param((j - 1) as u32)
                },
            decreases params.len() - i,
        {
            bindings.push(Binding {
                name: None,
                ty: params[i],
                kind: BindingKind::Param(i as u32),
            });
            i = i + 1;
        }

        let mut blks: Vec<BlockData> = Vec::new();
        blks.push(enter_block);
        blks.push(exit_block);

        FunctionBuilder { decl, params, ret_ty, locals: Vec::new(), bindings, blks }
    }

    /// The entry block of every function: block 0.
    pub fn entrance(&self) -> (b: Block)
        ensures
            b@ == 0,
    {
        Block(0)
    }

    /// The reference of the parameter at position `n` of the declaration
    /// order: always slot `n + 1`, directly after the return slot.
    /// Asking for a position at or past the parameter count is a contract
    /// violation.
    pub fn get_param(&self, n: u32) -> (r: Reference)
        requires
            n < self.params@.len(),
            self.params@.len() <= u32::MAX,
        ensures
            r@ == n + 1,
    {
        Reference(n + 1)
    }

    /// Appends an assignment of `rhs` into `lhs` at the end of block
    /// `blk`. No other block and nothing else of the builder changes.
    pub fn add_stmt(&mut self, blk: Block, lhs: Reference, rhs: Value)
        requires
            0 <= blk@ < old(self).blks@.len(),
        ensures
            final(self).blks@.len() == old(self).blks@.len(),
            final(self).blks@[blk@].num == old(self).blks@[blk@].num,
            final(self).blks@[blk@].term == old(self).blks@[blk@].term,
            final(self).blks@[blk@].stmts@ == old(self).blks@[blk@].stmts@.push(
                Statement { lhs, rhs },
            ),
            forall|i: int| 0 <= i < old(self).blks@.len() && i != blk@ ==> final(self).blks@[i]
                == old(self).blks@[i],
            final(self).decl == old(self).decl,
            final(self).params == old(self).params,
            final(self).ret_ty == old(self).ret_ty,
            final(self).locals == old(self).locals,
            final(self).bindings == old(self).bindings,
    {
        let idx = blk.index() as usize;
        let blk_data = &mut self.blks[idx];
        blk_data.stmts.push(Statement { lhs, rhs });
    }

    /// Allocates an unnamed local of type `ty`: appends it to the locals
    /// list and the binding table and returns the new slot's reference.
    pub fn add_anonymous_local(&mut self, ty: Type) -> (r: Reference)
        requires
            old(self).bindings@.len() < u32::MAX,
        ensures
            final(self).locals@ == old(self).locals@.push(ty),
            final(self).bindings@ == old(self).bindings@.push(
                Binding {
                    name: None,
                    ty,
                    kind: BindingKind::Local(old(self).locals@.len() as u32),
                },
            ),
            r@ == old(self).bindings@.len(),
            final(self).decl == old(self).decl,
            final(self).params == old(self).params,
            final(self).ret_ty == old(self).ret_ty,
            final(self).blks == old(self).blks,
    {
        self.locals.push(ty);
        self.bindings.push(Binding {
            name: None,
            ty,
            kind: BindingKind::Local((self.locals.len() - 1) as u32),
        });
        Reference((self.bindings.len() - 1) as u32)
    }

    /// Allocates a local named `name` of type `ty`: appends it to the
    /// locals list and the binding table and returns the new slot's
    /// reference.
    pub fn add_local(&mut self, name: String, ty: Type) -> (r: Reference)
        requires
            old(self).bindings@.len() < u32::MAX,
        ensures
            final(self).locals@ == old(self).locals@.push(ty),
            final(self).bindings@ == old(self).bindings@.push(
                Binding {
                    name: Some(name),
                    ty,
                    kind: BindingKind::Local(old(self).locals@.len() as u32),
                },
            ),
            r@ == old(self).bindings@.len(),
            final(self).decl == old(self).decl,
            final(self).params == old(self).params,
            final(self).ret_ty == old(self).ret_ty,
            final(self).blks == old(self).blks,
    {
        self.locals.push(ty);
        self.bindings.push(Binding {
            name: Some(name),
            ty,
            kind: BindingKind::Local((self.locals.len() - 1) as u32),
        });
        Reference((self.bindings.len() - 1) as u32)
    }
}

} // verus!
