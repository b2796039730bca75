//! The arena's tables. Each keeps its entries in a `PrimaryMap` of the
//! `cranelift_entity` crate; what the functions here say of that map is
//! taken from its source and not proved.
use cranelift_entity::PrimaryMap;
use vstd::prelude::*;

use crate::ast::component::{Function, FunctionId, Global, GlobalId, Import, ImportId};
use crate::ast::expressions::{Expression, ExpressionId};
use crate::ast::statements::{Statement, StatementId};
use crate::ast::types::{NameId, TypeId, ValType};

verus! {

/// The import table of an arena: a `cranelift_entity::PrimaryMap` from
/// `ImportId` to `Import`. Entries are only ever appended.
#[derive(Debug)]
#[verifier::external_body]
pub struct ImportTable {
    entries: PrimaryMap<ImportId, Import>,
}

/// The imports that a table holds, in the order in which they were appended.
pub uninterp spec fn import_entries(table: ImportTable) -> Seq<Import>;

impl ImportTable {
    /// `PrimaryMap::new`: a table that holds nothing.
    #[verifier::external_body]
    pub(crate) fn new() -> (table: Self)
        ensures
            import_entries(table) == Seq::<Import>::empty(),
    {
        ImportTable { entries: PrimaryMap::new() }
    }

    /// `PrimaryMap::push`: appends `value` behind the entries that are there
    /// and returns the key made of the number of entries there were. Keys
    /// are 32 bits wide, so the table must hold fewer than `u32::MAX` entries.
    #[verifier::external_body]
    pub(crate) fn push(&mut self, value: Import) -> (id: ImportId)
        requires
            import_entries(*old(self)).len() < u32::MAX,
        ensures
            import_entries(*final(self)) == import_entries(*old(self)).push(value),
            id@ == import_entries(*old(self)).len(),
    {
        self.entries.push(value)
    }

    /// `PrimaryMap::get`: the entry at the key's position, or `None` where
    /// the table holds no entry there.
    #[verifier::external_body]
    pub(crate) fn get(&self, id: ImportId) -> (entry: Option<&Import>)
        ensures
            entry == if id@ < import_entries(*self).len() {
                Some(&import_entries(*self)[id@ as int])
            } else {
                None::<&Import>
            },
    {
        self.entries.get(id)
    }

    /// `PrimaryMap::len`: the number of entries.
    #[verifier::external_body]
    pub(crate) fn len(&self) -> (count: usize)
        ensures
            count == import_entries(*self).len(),
    {
        self.entries.len()
    }
}

/// The global table of an arena: a `cranelift_entity::PrimaryMap` from
/// `GlobalId` to `Global`. Entries are only ever appended.
#[derive(Debug)]
#[verifier::external_body]
pub struct GlobalTable {
    entries: PrimaryMap<GlobalId, Global>,
}

/// The globals that a table holds, in the order in which they were appended.
pub uninterp spec fn global_entries(table: GlobalTable) -> Seq<Global>;

impl GlobalTable {
    /// `PrimaryMap::new`: a table that holds nothing.
    #[verifier::external_body]
    pub(crate) fn new() -> (table: Self)
        ensures
            global_entries(table) == Seq::<Global>::empty(),
    {
        GlobalTable { entries: PrimaryMap::new() }
    }

    /// `PrimaryMap::push`: appends `value` behind the entries that are there
    /// and returns the key made of the number of entries there were. Keys
    /// are 32 bits wide, so the table must hold fewer than `u32::MAX` entries.
    #[verifier::external_body]
    pub(crate) fn push(&mut self, value: Global) -> (id: GlobalId)
        requires
            global_entries(*old(self)).len() < u32::MAX,
        ensures
            global_entries(*final(self)) == global_entries(*old(self)).push(value),
            id@ == global_entries(*old(self)).len(),
    {
        self.entries.push(value)
    }

    /// `PrimaryMap::get`: the entry at the key's position, or `None` where
    /// the table holds no entry there.
    #[verifier::external_body]
    pub(crate) fn get(&self, id: GlobalId) -> (entry: Option<&Global>)
        ensures
            entry == if id@ < global_entries(*self).len() {
                Some(&global_entries(*self)[id@ as int])
            } else {
                None::<&Global>
            },
    {
        self.entries.get(id)
    }

    /// `PrimaryMap::len`: the number of entries.
    #[verifier::external_body]
    pub(crate) fn len(&self) -> (count: usize)
        ensures
            count == global_entries(*self).len(),
    {
        self.entries.len()
    }
}

/// The function table of an arena: a `cranelift_entity::PrimaryMap` from
/// `FunctionId` to `Function`. Entries are only ever appended.
#[derive(Debug)]
#[verifier::external_body]
pub struct FunctionTable {
    entries: PrimaryMap<FunctionId, Function>,
}

/// The functions that a table holds, in the order in which they were appended.
pub uninterp spec fn function_entries(table: FunctionTable) -> Seq<Function>;

impl FunctionTable {
    /// `PrimaryMap::new`: a table that holds nothing.
    #[verifier::external_body]
    pub(crate) fn new() -> (table: Self)
        ensures
            function_entries(table) == Seq::<Function>::empty(),
    {
        FunctionTable { entries: PrimaryMap::new() }
    }

    /// `PrimaryMap::push`: appends `value` behind the entries that are there
    /// and returns the key made of the number of entries there were. Keys
    /// are 32 bits wide, so the table must hold fewer than `u32::MAX` entries.
    #[verifier::external_body]
    pub(crate) fn push(&mut self, value: Function) -> (id: FunctionId)
        requires
            function_entries(*old(self)).len() < u32::MAX,
        ensures
            function_entries(*final(self)) == function_entries(*old(self)).push(value),
            id@ == function_entries(*old(self)).len(),
    {
        self.entries.push(value)
    }

    /// `PrimaryMap::get`: the entry at the key's position, or `None` where
    /// the table holds no entry there.
    #[verifier::external_body]
    pub(crate) fn get(&self, id: FunctionId) -> (entry: Option<&Function>)
        ensures
            entry == if id@ < function_entries(*self).len() {
                Some(&function_entries(*self)[id@ as int])
            } else {
                None::<&Function>
            },
    {
        self.entries.get(id)
    }

    /// `PrimaryMap::len`: the number of entries.
    #[verifier::external_body]
    pub(crate) fn len(&self) -> (count: usize)
        ensures
            count == function_entries(*self).len(),
    {
        self.entries.len()
    }
}

/// The type table of an arena: a `cranelift_entity::PrimaryMap` from
/// `TypeId` to `ValType`. Entries are only ever appended.
#[derive(Debug)]
#[verifier::external_body]
pub struct TypeTable {
    entries: PrimaryMap<TypeId, ValType>,
}

/// The value types that a table holds, in the order in which they were appended.
pub uninterp spec fn type_entries(table: TypeTable) -> Seq<ValType>;

impl TypeTable {
    /// `PrimaryMap::new`: a table that holds nothing.
    #[verifier::external_body]
    pub(crate) fn new() -> (table: Self)
        ensures
            type_entries(table) == Seq::<ValType>::empty(),
    {
        TypeTable { entries: PrimaryMap::new() }
    }

    /// `PrimaryMap::push`: appends `value` behind the entries that are there
    /// and returns the key made of the number of entries there were. Keys
    /// are 32 bits wide, so the table must hold fewer than `u32::MAX` entries.
    #[verifier::external_body]
    pub(crate) fn push(&mut self, value: ValType) -> (id: TypeId)
        requires
            type_entries(*old(self)).len() < u32::MAX,
        ensures
            type_entries(*final(self)) == type_entries(*old(self)).push(value),
            id@ == type_entries(*old(self)).len(),
    {
        self.entries.push(value)
    }

    /// `PrimaryMap::get`: the entry at the key's position, or `None` where
    /// the table holds no entry there.
    #[verifier::external_body]
    pub(crate) fn get(&self, id: TypeId) -> (entry: Option<&ValType>)
        ensures
            entry == if id@ < type_entries(*self).len() {
                Some(&type_entries(*self)[id@ as int])
            } else {
                None::<&ValType>
            },
    {
        self.entries.get(id)
    }

    /// `PrimaryMap::len`: the number of entries.
    #[verifier::external_body]
    pub(crate) fn len(&self) -> (count: usize)
        ensures
            count == type_entries(*self).len(),
    {
        self.entries.len()
    }
}

/// The statement table of an arena: a `cranelift_entity::PrimaryMap` from
/// `StatementId` to `Statement`. Entries are only ever appended.
#[derive(Debug)]
#[verifier::external_body]
pub struct StatementTable {
    entries: PrimaryMap<StatementId, Statement>,
}

/// The statements that a table holds, in the order in which they were appended.
pub uninterp spec fn statement_entries(table: StatementTable) -> Seq<Statement>;

impl StatementTable {
    /// `PrimaryMap::new`: a table that holds nothing.
    #[verifier::external_body]
    pub(crate) fn new() -> (table: Self)
        ensures
            statement_entries(table) == Seq::<Statement>::empty(),
    {
        StatementTable { entries: PrimaryMap::new() }
    }

    /// `PrimaryMap::push`: appends `value` behind the entries that are there
    /// and returns the key made of the number of entries there were. Keys
    /// are 32 bits wide, so the table must hold fewer than `u32::MAX` entries.
    #[verifier::external_body]
    pub(crate) fn push(&mut self, value: Statement) -> (id: StatementId)
        requires
            statement_entries(*old(self)).len() < u32::MAX,
        ensures
            statement_entries(*final(self)) == statement_entries(*old(self)).push(value),
            id@ == statement_entries(*old(self)).len(),
    {
        self.entries.push(value)
    }

    /// `PrimaryMap::get`: the entry at the key's position, or `None` where
    /// the table holds no entry there.
    #[verifier::external_body]
    pub(crate) fn get(&self, id: StatementId) -> (entry: Option<&Statement>)
        ensures
            entry == if id@ < statement_entries(*self).len() {
                Some(&statement_entries(*self)[id@ as int])
            } else {
                None::<&Statement>
            },
    {
        self.entries.get(id)
    }

    /// `PrimaryMap::len`: the number of entries.
    #[verifier::external_body]
    pub(crate) fn len(&self) -> (count: usize)
        ensures
            count == statement_entries(*self).len(),
    {
        self.entries.len()
    }
}

/// The expression table of an arena: a `cranelift_entity::PrimaryMap` from
/// `ExpressionId` to `Expression`. Entries are only ever appended.
#[derive(Debug)]
#[verifier::external_body]
pub struct ExpressionTable {
    entries: PrimaryMap<ExpressionId, Expression>,
}

/// The expressions that a table holds, in the order in which they were appended.
pub uninterp spec fn expression_entries(table: ExpressionTable) -> Seq<Expression>;

impl ExpressionTable {
    /// `PrimaryMap::new`: a table that holds nothing.
    #[verifier::external_body]
    pub(crate) fn new() -> (table: Self)
        ensures
            expression_entries(table) == Seq::<Expression>::empty(),
    {
        ExpressionTable { entries: PrimaryMap::new() }
    }

    /// `PrimaryMap::push`: appends `value` behind the entries that are there
    /// and returns the key made of the number of entries there were. Keys
    /// are 32 bits wide, so the table must hold fewer than `u32::MAX` entries.
    #[verifier::external_body]
    pub(crate) fn push(&mut self, value: Expression) -> (id: ExpressionId)
        requires
            expression_entries(*old(self)).len() < u32::MAX,
        ensures
            expression_entries(*final(self)) == expression_entries(*old(self)).push(value),
            id@ == expression_entries(*old(self)).len(),
    {
        self.entries.push(value)
    }

    /// `PrimaryMap::get`: the entry at the key's position, or `None` where
    /// the table holds no entry there.
    #[verifier::external_body]
    pub(crate) fn get(&self, id: ExpressionId) -> (entry: Option<&Expression>)
        ensures
            entry == if id@ < expression_entries(*self).len() {
                Some(&expression_entries(*self)[id@ as int])
            } else {
                None::<&Expression>
            },
    {
        self.entries.get(id)
    }

    /// `PrimaryMap::len`: the number of entries.
    #[verifier::external_body]
    pub(crate) fn len(&self) -> (count: usize)
        ensures
            count == expression_entries(*self).len(),
    {
        self.entries.len()
    }
}

/// The name table of an arena: a `cranelift_entity::PrimaryMap` from
/// `NameId` to `String`. Entries are only ever appended.
#[derive(Debug)]
#[verifier::external_body]
pub struct NameTable {
    entries: PrimaryMap<NameId, String>,
}

/// The identifier texts that a table holds, in the order in which they were appended.
pub uninterp spec fn name_entries(table: NameTable) -> Seq<String>;

impl NameTable {
    /// `PrimaryMap::new`: a table that holds nothing.
    #[verifier::external_body]
    pub(crate) fn new() -> (table: Self)
        ensures
            name_entries(table) == Seq::<String>::empty(),
    {
        NameTable { entries: PrimaryMap::new() }
    }

    /// `PrimaryMap::push`: appends `value` behind the entries that are there
    /// and returns the key made of the number of entries there were. Keys
    /// are 32 bits wide, so the table must hold fewer than `u32::MAX` entries.
    #[verifier::external_body]
    pub(crate) fn push(&mut self, value: String) -> (id: NameId)
        requires
            name_entries(*old(self)).len() < u32::MAX,
        ensures
            name_entries(*final(self)) == name_entries(*old(self)).push(value),
            id@ == name_entries(*old(self)).len(),
    {
        self.entries.push(value)
    }

    /// `PrimaryMap::get`: the entry at the key's position, or `None` where
    /// the table holds no entry there.
    #[verifier::external_body]
    pub(crate) fn get(&self, id: NameId) -> (entry: Option<&String>)
        ensures
            entry == if id@ < name_entries(*self).len() {
                Some(&name_entries(*self)[id@ as int])
            } else {
                None::<&String>
            },
    {
        self.entries.get(id)
    }

    /// `PrimaryMap::len`: the number of entries.
    #[verifier::external_body]
    pub(crate) fn len(&self) -> (count: usize)
        ensures
            count == name_entries(*self).len(),
    {
        self.entries.len()
    }
}

} // verus!
