//! The instruction model: the vocabulary of one function body.
//!
//! A function body is a graph of blocks. Each block is an ordered list of
//! statements followed by exactly one terminator. The sole statement form
//! is an assignment of a [`Value`] into a [`Reference`].

use vstd::prelude::*;
use crate::ty::Type;

verus! {

/// A numeric handle identifying one storage slot of a function: an index
/// into the function's binding table. Index 0 always denotes the return
/// slot, indices 1..=P the parameters in declaration order, and the
/// remaining indices the locals in allocation order.
#[derive(Copy, Clone, Debug, PartialEq, Eq, Structural)]
pub struct Reference(pub u32);

impl View for Reference {
    type V = int;

    open spec fn view(&self) -> int {
        self.0 as int
    }
}

impl Reference {
    /// The reference of the return slot, always index 0.
    pub fn ret() -> (r: Self)
        ensures
            r@ == 0,
    {
        Reference(0)
    }

    /// The slot index shared by the binding table and the per-invocation
    /// store.
    pub fn index(&self) -> (i: u32)
        ensures
            i as int == self@,
    {
        self.0
    }
}

/// A handle to a function declaration slot of the program container.
#[derive(Copy, Clone, Debug, PartialEq, Eq, Structural)]
pub struct FunctionDecl(pub usize);

impl View for FunctionDecl {
    type V = int;

    open spec fn view(&self) -> int {
        self.0 as int
    }
}

impl FunctionDecl {
    /// The declaration's position in the program container.
    pub fn index(&self) -> (i: usize)
        ensures
            i as int == self@,
    {
        self.0
    }
}

/// The right-hand side of an assignment: an integer literal, a read of a
/// slot, a wrapping 32-bit addition of two slots, or a call of a declared
/// function with an ordered argument list of slots.
#[derive(Debug)]
pub enum Value {
    Literal(i32),
    Reference(Reference),
    Add(Reference, Reference),
    Call { callee: FunctionDecl, args: Vec<Reference> },
}

/// The IR's sole assignment form: evaluate `rhs`, store it at `lhs`.
/// No other side effects exist.
#[derive(Debug)]
pub struct Statement {
    pub lhs: Reference,
    pub rhs: Value,
}

/// A handle to one block of a function, unique within that function.
#[derive(Copy, Clone, Debug, PartialEq, Eq, Structural)]
pub struct Block(pub u32);

impl View for Block {
    type V = int;

    open spec fn view(&self) -> int {
        self.0 as int
    }
}

impl Block {
    /// The block's number within its function.
    pub fn index(&self) -> (i: u32)
        ensures
            i as int == self@,
    {
        self.0
    }
}

/// The instruction that ends a block: transfer control to another block,
/// or halt the invocation and yield the return slot.
#[derive(Copy, Clone, Debug, PartialEq, Eq, Structural)]
pub enum Terminator {
    Goto(Block),
    Return,
}

/// The role of one binding: the return slot, a parameter (with its
/// position in the declaration order), or a local (with its position in
/// the allocation order).
#[derive(Copy, Clone, Debug, PartialEq, Eq, Structural)]
pub enum BindingKind {
    Param(u32),
    Local(u32),
    Return,
}

/// The metadata of one storage slot: an optional name for diagnostics,
/// the slot's type, and its role.
#[derive(Debug)]
pub struct Binding {
    pub name: Option<String>,
    pub ty: Type,
    pub kind: BindingKind,
}

/// One block: its number, its ordered statements, and its terminator.
#[derive(Debug)]
pub struct BlockData {
    pub num: Block,
    pub stmts: Vec<Statement>,
    pub term: Terminator,
}

/// A frozen function body: parameter types, return type, block graph,
/// locals, and the binding table. Immutable once installed in a program.
#[derive(Debug)]
pub struct FunctionValue {
    pub params: Vec<Type>,
    pub ret_ty: Type,
    pub blks: Vec<BlockData>,
    pub locals: Vec<Type>,
    pub bindings: Vec<Binding>,
}

} // verus!
