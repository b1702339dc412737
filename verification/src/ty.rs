//! The type arena: descriptors for the builtin types and an append-only
//! store that hands out stable, copyable handles.

use vstd::prelude::*;

verus! {

/// Width of a builtin signed integer type. Only the 32-bit width exists in
/// the current model.
#[derive(Copy, Clone, Debug, PartialEq, Eq, Structural)]
pub enum IntSize {
    I32,
}

impl IntSize {
    /// The width in bits.
    pub open spec fn spec_size(self) -> u32 {
        match self {
            IntSize::I32 => 32u32,
        }
    }

    /// The width in bits.
    #[verifier::when_used_as_spec(spec_size)]
    pub fn size(self) -> (bits: u32)
        ensures
            bits == self.spec_size(),
    {
        match self {
            IntSize::I32 => 32,
        }
    }
}

/// A builtin type descriptor.
#[derive(Copy, Clone, Debug, PartialEq, Eq, Structural)]
pub enum BuiltinType {
    SInt(IntSize),
}

/// A type descriptor held by the arena. Descriptors are immutable: once
/// inserted they are never changed.
#[derive(Copy, Clone, Debug, PartialEq, Eq, Structural)]
pub enum TypeVariant {
    Builtin(BuiltinType),
}

impl TypeVariant {
    /// The descriptor of the signed 32-bit integer type.
    pub fn s32() -> (t: Self)
        ensures
            t == TypeVariant::Builtin(BuiltinType::SInt(IntSize::I32)),
    {
        TypeVariant::Builtin(BuiltinType::SInt(IntSize::I32))
    }
}

/// A stable handle to a type descriptor: an index into the owning arena's
/// append-only store. Handles stay valid for the arena's whole lifetime,
/// since entries are never removed or relocated.
#[derive(Copy, Clone, Debug, PartialEq, Eq, Structural)]
pub struct Type(pub usize);

impl View for Type {
    type V = int;

    open spec fn view(&self) -> int {
        self.0 as int
    }
}

impl Type {
    /// The handle's position in the arena.
    pub fn index(&self) -> (i: usize)
        ensures
            i as int == self@,
    {
        self.0
    }
}

/// One arena entry: an optional name for lookup and diagnostics, and the
/// descriptor itself.
pub struct TypeEntry {
    pub name: Option<String>,
    pub variant: TypeVariant,
}

/// The owned context of one compilation: the append-only type arena.
/// It is constructed once at start and dropped only after the program and
/// every handle derived from it are no longer needed.
pub struct MirCtxt {
    pub types: Vec<TypeEntry>,
}

impl MirCtxt {
    /// A fresh context with an empty arena.
    pub fn new() -> (c: Self)
        ensures
            c.types@.len() == 0,
    {
        MirCtxt { types: Vec::new() }
    }
}

/// Whether the arena entry carries exactly the given name.
pub open spec fn entry_has_name(e: TypeEntry, name: Seq<char>) -> bool {
    match e.name {
        Some(n) => n@ == name,
        None => false,
    }
}

/// The arena index that a name resolves to. Duplicate names are allowed;
/// by the arena's documented policy the most recently inserted entry with
/// the name wins (later insertions shadow earlier ones).
pub open spec fn type_index_for(types: Seq<TypeEntry>, name: Seq<char>) -> Option<int>
    decreases types.len(),
{
    if types.len() == 0 {
        None
    } else if entry_has_name(types.last(), name) {
        Some(types.len() - 1)
    } else {
        type_index_for(types.drop_last(), name)
    }
}

/// A frontend-level type reference, resolved against the arena by name.
/// Named references are the only shape of the current model.
pub enum StringlyType {
    UserDefinedType(String),
}

} // verus!
