//! Value types, function types, and the handles of types and names.
use cranelift_entity::EntityRef;
use std::cmp::Ordering;
use vstd::prelude::*;
use vstd::std_specs::cmp::{PartialOrdSpec, PartialOrdSpecImpl};

verus! {

/// Handle of one entry of the name table of one arena. Handles are issued
/// in increasing order, starting at zero, and mean nothing in another arena.
#[derive(Copy, Clone, PartialEq, Eq, Structural, Hash, Ord, Debug)]
pub struct NameId(u32);

impl PartialOrd for NameId {
    /// Handles are ordered as their positions are.
    fn partial_cmp(&self, other: &Self) -> (order: Option<Ordering>) {
        if self.0 < other.0 {
            Some(Ordering::Less)
        } else if self.0 > other.0 {
            Some(Ordering::Greater)
        } else {
            Some(Ordering::Equal)
        }
    }
}

impl PartialOrdSpecImpl for NameId {
    open spec fn obeys_partial_cmp_spec() -> bool {
        true
    }

    open spec fn partial_cmp_spec(&self, other: &Self) -> Option<Ordering> {
        if self@ < other@ {
            Some(Ordering::Less)
        } else if self@ > other@ {
            Some(Ordering::Greater)
        } else {
            Some(Ordering::Equal)
        }
    }
}

impl View for NameId {
    type V = nat;

    /// The position in the table of the entry that the handle names.
    closed spec fn view(&self) -> nat {
        self.0 as nat
    }
}

impl NameId {
    /// Whether `self` compares less than `other`: whether it was issued
    /// earlier by the same table.
    pub open spec fn precedes(self, other: NameId) -> bool {
        PartialOrdSpec::partial_cmp_spec(&self, &other) == Some(Ordering::Less)
    }

    /// The handle of the entry at position `index`.
    pub closed spec fn nth(index: nat) -> NameId {
        NameId(index as u32)
    }

    /// Creates a handle from its position in the table.
    pub fn from_u32(x: u32) -> (id: Self)
        requires
            x < u32::MAX,
        ensures
            id == Self::nth(x as nat),
            id@ == x,
    {
        NameId(x)
    }

    /// The position in the table of the entry that the handle names.
    pub fn as_u32(self) -> (x: u32)
        ensures
            x == self@,
    {
        self.0
    }

    /// A handle is determined by its position, which fits in 32 bits.
    pub broadcast proof fn lemma_view(id: NameId)
        ensures
            #[trigger] id@ <= u32::MAX,
            NameId::nth(id@) == id,
    {
    }

    /// The handle made for a position names that position.
    pub broadcast proof fn lemma_nth(index: nat)
        requires
            index <= u32::MAX,
        ensures
            #[trigger] NameId::nth(index)@ == index,
    {
    }
}

impl EntityRef for NameId {
    /// The handle of the entry at position `index`; what the tables call
    /// to make the handle of a new entry.
    fn new(index: usize) -> (id: Self)
        ensures
            index <= u32::MAX ==> id@ == index,
    {
        NameId(#[verifier::truncate] (index as u32))
    }

    /// The position in the table of the entry that the handle names.
    fn index(self) -> (index: usize)
        ensures
            index == self@,
    {
        self.0 as usize
    }
}

/// Handle of one entry of the type table of one arena. Handles are issued
/// in increasing order, starting at zero, and mean nothing in another arena.
#[derive(Copy, Clone, PartialEq, Eq, Structural, Hash, Ord, Debug)]
pub struct TypeId(u32);

impl PartialOrd for TypeId {
    /// Handles are ordered as their positions are.
    fn partial_cmp(&self, other: &Self) -> (order: Option<Ordering>) {
        if self.0 < other.0 {
            Some(Ordering::Less)
        } else if self.0 > other.0 {
            Some(Ordering::Greater)
        } else {
            Some(Ordering::Equal)
        }
    }
}

impl PartialOrdSpecImpl for TypeId {
    open spec fn obeys_partial_cmp_spec() -> bool {
        true
    }

    open spec fn partial_cmp_spec(&self, other: &Self) -> Option<Ordering> {
        if self@ < other@ {
            Some(Ordering::Less)
        } else if self@ > other@ {
            Some(Ordering::Greater)
        } else {
            Some(Ordering::Equal)
        }
    }
}

impl View for TypeId {
    type V = nat;

    /// The position in the table of the entry that the handle names.
    closed spec fn view(&self) -> nat {
        self.0 as nat
    }
}

impl TypeId {
    /// Whether `self` compares less than `other`: whether it was issued
    /// earlier by the same table.
    pub open spec fn precedes(self, other: TypeId) -> bool {
        PartialOrdSpec::partial_cmp_spec(&self, &other) == Some(Ordering::Less)
    }

    /// The handle of the entry at position `index`.
    pub closed spec fn nth(index: nat) -> TypeId {
        TypeId(index as u32)
    }

    /// Creates a handle from its position in the table.
    pub fn from_u32(x: u32) -> (id: Self)
        requires
            x < u32::MAX,
        ensures
            id == Self::nth(x as nat),
            id@ == x,
    {
        TypeId(x)
    }

    /// The position in the table of the entry that the handle names.
    pub fn as_u32(self) -> (x: u32)
        ensures
            x == self@,
    {
        self.0
    }

    /// A handle is determined by its position, which fits in 32 bits.
    pub broadcast proof fn lemma_view(id: TypeId)
        ensures
            #[trigger] id@ <= u32::MAX,
            TypeId::nth(id@) == id,
    {
    }

    /// The handle made for a position names that position.
    pub broadcast proof fn lemma_nth(index: nat)
        requires
            index <= u32::MAX,
        ensures
            #[trigger] TypeId::nth(index)@ == index,
    {
    }
}

impl EntityRef for TypeId {
    /// The handle of the entry at position `index`; what the tables call
    /// to make the handle of a new entry.
    fn new(index: usize) -> (id: Self)
        ensures
            index <= u32::MAX ==> id@ == index,
    {
        TypeId(#[verifier::truncate] (index as u32))
    }

    /// The position in the table of the entry that the handle names.
    fn index(self) -> (index: usize)
        ensures
            index == self@,
    {
        self.0 as usize
    }
}

/// The type of a value.
#[derive(Debug, PartialEq, Eq, Structural, Clone, Copy, Hash)]
pub enum ValType {
    Bool,
    I32,
    I64,
    U32,
    U64,
    F32,
    F64,
}

/// The type of a function: its parameters, in order, and what it returns.
#[derive(Debug, PartialEq, Eq, Clone)]
pub struct FnType {
    pub arguments: Vec<(NameId, TypeId)>,
    pub return_type: Option<TypeId>,
}

/// What a function type is, with the parameter list as a sequence.
pub struct FnTypeModel {
    pub arguments: Seq<(NameId, TypeId)>,
    pub return_type: Option<TypeId>,
}

impl View for FnType {
    type V = FnTypeModel;

    open spec fn view(&self) -> FnTypeModel {
        FnTypeModel { arguments: self.arguments@, return_type: self.return_type }
    }
}

} // verus!
