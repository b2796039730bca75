//! The arena: one per source unit, the root of its syntax tree.
use cranelift_entity::EntityRef;
use std::cmp::Ordering;
use std::collections::HashMap;
use vstd::prelude::*;
use vstd::std_specs::cmp::{PartialOrdSpec, PartialOrdSpecImpl};

use crate::ast::expressions::{Expression, ExpressionData, ExpressionId};
use crate::ast::statements::{Let, Statement, StatementId};
use crate::ast::tables::{
    function_entries, global_entries, import_entries, name_entries, statement_entries,
    type_entries, FunctionTable, GlobalTable, ImportTable, NameTable, StatementTable, TypeTable,
};
use crate::ast::types::{FnType, FnTypeModel, NameId, TypeId, ValType};
use crate::ast::Span;
use crate::Source;

verus! {

/// Handle of one entry of the import table of one arena. Handles are issued
/// in increasing order, starting at zero, and mean nothing in another arena.
#[derive(Copy, Clone, PartialEq, Eq, Structural, Hash, Ord, Debug)]
pub struct ImportId(u32);

impl PartialOrd for ImportId {
    /// Handles are ordered as their positions are.
    fn partial_cmp(&self, other: &Self) -> (order: Option<Ordering>) {
        if self.0 < other.0 {
            Some(Ordering::Less)
        } else if self.0 > other.0 {
            Some(Ordering::Greater)
        } else {
            Some(Ordering::Equal)
        }
    }
}

impl PartialOrdSpecImpl for ImportId {
    open spec fn obeys_partial_cmp_spec() -> bool {
        true
    }

    open spec fn partial_cmp_spec(&self, other: &Self) -> Option<Ordering> {
        if self@ < other@ {
            Some(Ordering::Less)
        } else if self@ > other@ {
            Some(Ordering::Greater)
        } else {
            Some(Ordering::Equal)
        }
    }
}

impl View for ImportId {
    type V = nat;

    /// The position in the table of the entry that the handle names.
    closed spec fn view(&self) -> nat {
        self.0 as nat
    }
}

impl ImportId {
    /// Whether `self` compares less than `other`: whether it was issued
    /// earlier by the same table.
    pub open spec fn precedes(self, other: ImportId) -> bool {
        PartialOrdSpec::partial_cmp_spec(&self, &other) == Some(Ordering::Less)
    }

    /// The handle of the entry at position `index`.
    pub closed spec fn nth(index: nat) -> ImportId {
        ImportId(index as u32)
    }

    /// Creates a handle from its position in the table.
    pub fn from_u32(x: u32) -> (id: Self)
        requires
            x < u32::MAX,
        ensures
            id == Self::nth(x as nat),
            id@ == x,
    {
        ImportId(x)
    }

    /// The position in the table of the entry that the handle names.
    pub fn as_u32(self) -> (x: u32)
        ensures
            x == self@,
    {
        self.0
    }

    /// A handle is determined by its position, which fits in 32 bits.
    pub broadcast proof fn lemma_view(id: ImportId)
        ensures
            #[trigger] id@ <= u32::MAX,
            ImportId::nth(id@) == id,
    {
    }

    /// The handle made for a position names that position.
    pub broadcast proof fn lemma_nth(index: nat)
        requires
            index <= u32::MAX,
        ensures
            #[trigger] ImportId::nth(index)@ == index,
    {
    }
}

impl EntityRef for ImportId {
    /// The handle of the entry at position `index`; what the tables call
    /// to make the handle of a new entry.
    fn new(index: usize) -> (id: Self)
        ensures
            index <= u32::MAX ==> id@ == index,
    {
        ImportId(#[verifier::truncate] (index as u32))
    }

    /// The position in the table of the entry that the handle names.
    fn index(self) -> (index: usize)
        ensures
            index == self@,
    {
        self.0 as usize
    }
}

/// Handle of one entry of the global table of one arena. Handles are issued
/// in increasing order, starting at zero, and mean nothing in another arena.
#[derive(Copy, Clone, PartialEq, Eq, Structural, Hash, Ord, Debug)]
pub struct GlobalId(u32);

impl PartialOrd for GlobalId {
    /// Handles are ordered as their positions are.
    fn partial_cmp(&self, other: &Self) -> (order: Option<Ordering>) {
        if self.0 < other.0 {
            Some(Ordering::Less)
        } else if self.0 > other.0 {
            Some(Ordering::Greater)
        } else {
            Some(Ordering::Equal)
        }
    }
}

impl PartialOrdSpecImpl for GlobalId {
    open spec fn obeys_partial_cmp_spec() -> bool {
        true
    }

    open spec fn partial_cmp_spec(&self, other: &Self) -> Option<Ordering> {
        if self@ < other@ {
            Some(Ordering::Less)
        } else if self@ > other@ {
            Some(Ordering::Greater)
        } else {
            Some(Ordering::Equal)
        }
    }
}

impl View for GlobalId {
    type V = nat;

    /// The position in the table of the entry that the handle names.
    closed spec fn view(&self) -> nat {
        self.0 as nat
    }
}

impl GlobalId {
    /// Whether `self` compares less than `other`: whether it was issued
    /// earlier by the same table.
    pub open spec fn precedes(self, other: GlobalId) -> bool {
        PartialOrdSpec::partial_cmp_spec(&self, &other) == Some(Ordering::Less)
    }

    /// The handle of the entry at position `index`.
    pub closed spec fn nth(index: nat) -> GlobalId {
        GlobalId(index as u32)
    }

    /// Creates a handle from its position in the table.
    pub fn from_u32(x: u32) -> (id: Self)
        requires
            x < u32::MAX,
        ensures
            id == Self::nth(x as nat),
            id@ == x,
    {
        GlobalId(x)
    }

    /// The position in the table of the entry that the handle names.
    pub fn as_u32(self) -> (x: u32)
        ensures
            x == self@,
    {
        self.0
    }

    /// A handle is determined by its position, which fits in 32 bits.
    pub broadcast proof fn lemma_view(id: GlobalId)
        ensures
            #[trigger] id@ <= u32::MAX,
            GlobalId::nth(id@) == id,
    {
    }

    /// The handle made for a position names that position.
    pub broadcast proof fn lemma_nth(index: nat)
        requires
            index <= u32::MAX,
        ensures
            #[trigger] GlobalId::nth(index)@ == index,
    {
    }
}

impl EntityRef for GlobalId {
    /// The handle of the entry at position `index`; what the tables call
    /// to make the handle of a new entry.
    fn new(index: usize) -> (id: Self)
        ensures
            index <= u32::MAX ==> id@ == index,
    {
        GlobalId(#[verifier::truncate] (index as u32))
    }

    /// The position in the table of the entry that the handle names.
    fn index(self) -> (index: usize)
        ensures
            index == self@,
    {
        self.0 as usize
    }
}

/// Handle of one entry of the function table of one arena. Handles are issued
/// in increasing order, starting at zero, and mean nothing in another arena.
#[derive(Copy, Clone, PartialEq, Eq, Structural, Hash, Ord, Debug)]
pub struct FunctionId(u32);

impl PartialOrd for FunctionId {
    /// Handles are ordered as their positions are.
    fn partial_cmp(&self, other: &Self) -> (order: Option<Ordering>) {
        if self.0 < other.0 {
            Some(Ordering::Less)
        } else if self.0 > other.0 {
            Some(Ordering::Greater)
        } else {
            Some(Ordering::Equal)
        }
    }
}

impl PartialOrdSpecImpl for FunctionId {
    open spec fn obeys_partial_cmp_spec() -> bool {
        true
    }

    open spec fn partial_cmp_spec(&self, other: &Self) -> Option<Ordering> {
        if self@ < other@ {
            Some(Ordering::Less)
        } else if self@ > other@ {
            Some(Ordering::Greater)
        } else {
            Some(Ordering::Equal)
        }
    }
}

impl View for FunctionId {
    type V = nat;

    /// The position in the table of the entry that the handle names.
    closed spec fn view(&self) -> nat {
        self.0 as nat
    }
}

impl FunctionId {
    /// Whether `self` compares less than `other`: whether it was issued
    /// earlier by the same table.
    pub open spec fn precedes(self, other: FunctionId) -> bool {
        PartialOrdSpec::partial_cmp_spec(&self, &other) == Some(Ordering::Less)
    }

    /// The handle of the entry at position `index`.
    pub closed spec fn nth(index: nat) -> FunctionId {
        FunctionId(index as u32)
    }

    /// Creates a handle from its position in the table.
    pub fn from_u32(x: u32) -> (id: Self)
        requires
            x < u32::MAX,
        ensures
            id == Self::nth(x as nat),
            id@ == x,
    {
        FunctionId(x)
    }

    /// The position in the table of the entry that the handle names.
    pub fn as_u32(self) -> (x: u32)
        ensures
            x == self@,
    {
        self.0
    }

    /// A handle is determined by its position, which fits in 32 bits.
    pub broadcast proof fn lemma_view(id: FunctionId)
        ensures
            #[trigger] id@ <= u32::MAX,
            FunctionId::nth(id@) == id,
    {
    }

    /// The handle made for a position names that position.
    pub broadcast proof fn lemma_nth(index: nat)
        requires
            index <= u32::MAX,
        ensures
            #[trigger] FunctionId::nth(index)@ == index,
    {
    }
}

impl EntityRef for FunctionId {
    /// The handle of the entry at position `index`; what the tables call
    /// to make the handle of a new entry.
    fn new(index: usize) -> (id: Self)
        ensures
            index <= u32::MAX ==> id@ == index,
    {
        FunctionId(#[verifier::truncate] (index as u32))
    }

    /// The position in the table of the entry that the handle names.
    fn index(self) -> (index: usize)
        ensures
            index == self@,
    {
        self.0 as usize
    }
}

/// What an arena holds: for each table its entries in allocation order,
/// each with its span where the table records one. The handle of an entry
/// is its position in its table.
pub struct ArenaModel {
    pub imports: Seq<ImportModel>,
    pub globals: Seq<Global>,
    pub functions: Seq<FunctionModel>,
    pub types: Seq<(ValType, Span)>,
    pub statements: Seq<(Statement, Span)>,
    pub expressions: Seq<(Expression, Span)>,
    pub names: Seq<(Seq<char>, Span)>,
}

impl ArenaModel {
    /// The arena in which nothing was allocated yet.
    pub open spec fn empty() -> ArenaModel {
        ArenaModel {
            imports: Seq::empty(),
            globals: Seq::empty(),
            functions: Seq::empty(),
            types: Seq::empty(),
            statements: Seq::empty(),
            expressions: Seq::empty(),
            names: Seq::empty(),
        }
    }

    pub open spec fn push_import(self, import: ImportModel) -> ArenaModel {
        ArenaModel { imports: self.imports.push(import), ..self }
    }

    pub open spec fn push_global(self, global: Global) -> ArenaModel {
        ArenaModel { globals: self.globals.push(global), ..self }
    }

    pub open spec fn push_function(self, function: FunctionModel) -> ArenaModel {
        ArenaModel { functions: self.functions.push(function), ..self }
    }

    pub open spec fn push_type(self, valtype: ValType, span: Span) -> ArenaModel {
        ArenaModel { types: self.types.push((valtype, span)), ..self }
    }

    pub open spec fn push_statement(self, statement: Statement, span: Span) -> ArenaModel {
        ArenaModel { statements: self.statements.push((statement, span)), ..self }
    }

    pub open spec fn push_expression(self, expression: Expression, span: Span) -> ArenaModel {
        ArenaModel { expressions: self.expressions.push((expression, span)), ..self }
    }

    pub open spec fn push_name(self, name: Seq<char>, span: Span) -> ArenaModel {
        ArenaModel { names: self.names.push((name, span)), ..self }
    }

    /// Whether every table can take `count` more entries and still give
    /// each a 32-bit handle.
    pub open spec fn room(self, count: nat) -> bool {
        &&& self.imports.len() + count <= u32::MAX
        &&& self.globals.len() + count <= u32::MAX
        &&& self.functions.len() + count <= u32::MAX
        &&& self.types.len() + count <= u32::MAX
        &&& self.statements.len() + count <= u32::MAX
        &&& self.expressions.len() + count <= u32::MAX
        &&& self.names.len() + count <= u32::MAX
    }

    /// Whether no table holds more than `count` entries beyond those that
    /// it held in `earlier`.
    pub open spec fn grown_within(self, earlier: ArenaModel, count: nat) -> bool {
        &&& self.imports.len() <= earlier.imports.len() + count
        &&& self.globals.len() <= earlier.globals.len() + count
        &&& self.functions.len() <= earlier.functions.len() + count
        &&& self.types.len() <= earlier.types.len() + count
        &&& self.statements.len() <= earlier.statements.len() + count
        &&& self.expressions.len() <= earlier.expressions.len() + count
        &&& self.names.len() <= earlier.names.len() + count
    }

    /// Whether every table of `self` begins with the entries of `earlier`,
    /// in the same order: nothing that `earlier` held was removed, moved or
    /// changed.
    pub open spec fn extends(self, earlier: ArenaModel) -> bool {
        &&& earlier.imports.is_prefix_of(self.imports)
        &&& earlier.globals.is_prefix_of(self.globals)
        &&& earlier.functions.is_prefix_of(self.functions)
        &&& earlier.types.is_prefix_of(self.types)
        &&& earlier.statements.is_prefix_of(self.statements)
        &&& earlier.expressions.is_prefix_of(self.expressions)
        &&& earlier.names.is_prefix_of(self.names)
    }
}

/// Each source unit is one component; this is the root of its syntax tree.
/// It owns every syntactic entity of the unit in append-only tables and
/// hands out a handle for each.
#[derive(Debug)]
pub struct Component {
    pub src: Source,
    // Top level items
    pub imports: ImportTable,
    pub globals: GlobalTable,
    pub functions: FunctionTable,
    // Inner items
    pub types: TypeTable,
    pub type_spans: HashMap<u32, Span>,
    pub statements: StatementTable,
    pub statement_spans: HashMap<u32, Span>,
    pub expression_data: ExpressionData,
    pub names: NameTable,
    pub name_spans: HashMap<u32, Span>,
}

impl View for Component {
    type V = ArenaModel;

    open spec fn view(&self) -> ArenaModel {
        ArenaModel {
            imports: import_entries(self.imports).map_values(|import: Import| import@),
            globals: global_entries(self.globals),
            functions: function_entries(self.functions).map_values(|function: Function| function@),
            types: Seq::new(
                type_entries(self.types).len(),
                |i: int| (type_entries(self.types)[i], self.type_spans@[i as u32]),
            ),
            statements: Seq::new(
                statement_entries(self.statements).len(),
                |i: int| (statement_entries(self.statements)[i], self.statement_spans@[i as u32]),
            ),
            expressions: self.expression_data@,
            names: Seq::new(
                name_entries(self.names).len(),
                |i: int| (name_entries(self.names)[i]@, self.name_spans@[i as u32]),
            ),
        }
    }
}

impl Component {
    /// The tables fit their 32-bit handles, and each table of spans records
    /// a span for every entry of its table and for nothing else.
    pub open spec fn wf(&self) -> bool {
        &&& import_entries(self.imports).len() <= u32::MAX
        &&& global_entries(self.globals).len() <= u32::MAX
        &&& function_entries(self.functions).len() <= u32::MAX
        &&& type_entries(self.types).len() <= u32::MAX
        &&& statement_entries(self.statements).len() <= u32::MAX
        &&& name_entries(self.names).len() <= u32::MAX
        &&& self.expression_data.wf()
        &&& forall|i: u32| self.type_spans@.contains_key(i) <==> i < type_entries(self.types).len()
        &&& forall|i: u32|
            self.statement_spans@.contains_key(i) <==> i < statement_entries(self.statements).len()
        &&& forall|i: u32| self.name_spans@.contains_key(i) <==> i < name_entries(self.names).len()
    }

    /// An arena for the source unit `src`, with nothing allocated.
    pub fn new(src: Source) -> (component: Self)
        ensures
            component.wf(),
            component@ == ArenaModel::empty(),
            component.src == src,
    {
        let component = Component {
            src,
            imports: ImportTable::new(),
            globals: GlobalTable::new(),
            functions: FunctionTable::new(),
            types: TypeTable::new(),
            type_spans: HashMap::new(),
            statements: StatementTable::new(),
            statement_spans: HashMap::new(),
            expression_data: ExpressionData::new(),
            names: NameTable::new(),
            name_spans: HashMap::new(),
        };
        proof {
            assert(component@.imports =~= Seq::empty());
            assert(component@.functions =~= Seq::empty());
            assert(component@.types =~= Seq::empty());
            assert(component@.statements =~= Seq::empty());
            assert(component@.names =~= Seq::empty());
        }
        component
    }

    /// Appends an identifier with its span and returns the handle issued for
    /// it: the number of entries that the table held before.
    pub fn new_name(&mut self, name: String, span: Span) -> (id: NameId)
        requires
            old(self).wf(),
            old(self)@.names.len() < u32::MAX,
        ensures
            final(self).wf(),
            final(self)@ == old(self)@.push_name(name@, span),
            final(self).src == old(self).src,
            id == NameId::nth(old(self)@.names.len()),
            id@ == old(self)@.names.len(),
            forall|earlier: NameId|
                earlier@ < old(self)@.names.len() ==> #[trigger] earlier.precedes(id),
    {
        broadcast use {NameId::lemma_view, vstd::std_specs::hash::group_hash_axioms};

        let id = self.names.push(name);
        self.name_spans.insert(id.as_u32(), span);
        proof {
            assert(self@.names =~= old(self)@.push_name(name@, span).names);
            assert(self@.imports == old(self)@.imports);
            assert(self@.functions == old(self)@.functions);
        }
        id
    }

    /// The entry that `id` names. The handle must have been issued by this
    /// arena.
    pub fn get_name(&self, id: NameId) -> (name: &str)
        requires
            self.wf(),
            id@ < self@.names.len(),
        ensures
            name@ == self@.names[id@ as int].0,
    {
        self.names.get(id).unwrap().as_str()
    }

    /// The span recorded when `id` was issued. The handle must have been
    /// issued by this arena.
    pub fn name_span(&self, id: NameId) -> (span: Span)
        requires
            self.wf(),
            id@ < self@.names.len(),
        ensures
            span == self@.names[id@ as int].1,
    {
        broadcast use vstd::std_specs::hash::group_hash_axioms;

        *self.name_spans.get(&id.as_u32()).unwrap()
    }

    /// The number of entries of the name table.
    pub fn name_count(&self) -> (count: usize)
        ensures
            count == self@.names.len(),
    {
        self.names.len()
    }

    /// Appends a value type with its span and returns the handle issued for
    /// it: the number of entries that the table held before.
    pub fn new_type(&mut self, valtype: ValType, span: Span) -> (id: TypeId)
        requires
            old(self).wf(),
            old(self)@.types.len() < u32::MAX,
        ensures
            final(self).wf(),
            final(self)@ == old(self)@.push_type(valtype, span),
            final(self).src == old(self).src,
            id == TypeId::nth(old(self)@.types.len()),
            id@ == old(self)@.types.len(),
            forall|earlier: TypeId|
                earlier@ < old(self)@.types.len() ==> #[trigger] earlier.precedes(id),
    {
        broadcast use {TypeId::lemma_view, vstd::std_specs::hash::group_hash_axioms};

        let id = self.types.push(valtype);
        self.type_spans.insert(id.as_u32(), span);
        proof {
            assert(self@.types =~= old(self)@.push_type(valtype, span).types);
            assert(self@.imports == old(self)@.imports);
            assert(self@.functions == old(self)@.functions);
        }
        id
    }

    /// The entry that `id` names. The handle must have been issued by this
    /// arena.
    pub fn get_type(&self, id: TypeId) -> (valtype: &ValType)
        requires
            self.wf(),
            id@ < self@.types.len(),
        ensures
            *valtype == self@.types[id@ as int].0,
    {
        self.types.get(id).unwrap()
    }

    /// The span recorded when `id` was issued. The handle must have been
    /// issued by this arena.
    pub fn type_span(&self, id: TypeId) -> (span: Span)
        requires
            self.wf(),
            id@ < self@.types.len(),
        ensures
            span == self@.types[id@ as int].1,
    {
        broadcast use vstd::std_specs::hash::group_hash_axioms;

        *self.type_spans.get(&id.as_u32()).unwrap()
    }

    /// The number of entries of the type table.
    pub fn type_count(&self) -> (count: usize)
        ensures
            count == self@.types.len(),
    {
        self.types.len()
    }

    /// Appends a statement with its span and returns the handle issued for
    /// it: the number of entries that the table held before.
    pub fn new_statement(&mut self, statement: Statement, span: Span) -> (id: StatementId)
        requires
            old(self).wf(),
            old(self)@.statements.len() < u32::MAX,
        ensures
            final(self).wf(),
            final(self)@ == old(self)@.push_statement(statement, span),
            final(self).src == old(self).src,
            id == StatementId::nth(old(self)@.statements.len()),
            id@ == old(self)@.statements.len(),
            forall|earlier: StatementId|
                earlier@ < old(self)@.statements.len() ==> #[trigger] earlier.precedes(id),
    {
        broadcast use {StatementId::lemma_view, vstd::std_specs::hash::group_hash_axioms};

        let id = self.statements.push(statement);
        self.statement_spans.insert(id.as_u32(), span);
        proof {
            assert(self@.statements =~= old(self)@.push_statement(statement, span).statements);
            assert(self@.imports == old(self)@.imports);
            assert(self@.functions == old(self)@.functions);
        }
        id
    }

    /// The entry that `id` names. The handle must have been issued by this
    /// arena.
    pub fn get_statement(&self, id: StatementId) -> (statement: &Statement)
        requires
            self.wf(),
            id@ < self@.statements.len(),
        ensures
            *statement == self@.statements[id@ as int].0,
    {
        self.statements.get(id).unwrap()
    }

    /// The span recorded when `id` was issued. The handle must have been
    /// issued by this arena.
    pub fn statement_span(&self, id: StatementId) -> (span: Span)
        requires
            self.wf(),
            id@ < self@.statements.len(),
        ensures
            span == self@.statements[id@ as int].1,
    {
        broadcast use vstd::std_specs::hash::group_hash_axioms;

        *self.statement_spans.get(&id.as_u32()).unwrap()
    }

    /// The number of entries of the statement table.
    pub fn statement_count(&self) -> (count: usize)
        ensures
            count == self@.statements.len(),
    {
        self.statements.len()
    }

    /// Appends a `let` statement built from its parts.
    pub fn alloc_let(
        &mut self,
        mutable: bool,
        ident: NameId,
        annotation: Option<TypeId>,
        expression: ExpressionId,
        span: Span,
    ) -> (id: StatementId)
        requires
            old(self).wf(),
            old(self)@.statements.len() < u32::MAX,
        ensures
            final(self).wf(),
            final(self)@ == old(self)@.push_statement(
                Statement::Let(Let { mutable, ident, annotation, expression }),
                span,
            ),
            final(self).src == old(self).src,
            id == StatementId::nth(old(self)@.statements.len()),
            id@ == old(self)@.statements.len(),
    {
        let let_ = Let { mutable, ident, annotation, expression };
        self.new_statement(Statement::Let(let_), span)
    }

    /// The nested arena of expressions.
    pub fn expr(&self) -> (data: &ExpressionData)
        ensures
            *data == self.expression_data,
    {
        &self.expression_data
    }

    /// The nested arena of expressions, for allocation. What the caller
    /// leaves in it becomes the component's expression arena; nothing else
    /// of the component changes.
    pub fn expr_mut(&mut self) -> (data: &mut ExpressionData)
        ensures
            *data == old(self).expression_data,
            *final(self) == (Component { expression_data: *final(data), ..*old(self) }),
    {
        &mut self.expression_data
    }

    /// Appends an import and returns the handle issued for it: the number
    /// of entries that the table held before.
    pub fn new_import(&mut self, import: Import) -> (id: ImportId)
        requires
            old(self).wf(),
            old(self)@.imports.len() < u32::MAX,
        ensures
            final(self).wf(),
            final(self)@ == old(self)@.push_import(import@),
            final(self).src == old(self).src,
            id == ImportId::nth(old(self)@.imports.len()),
            id@ == old(self)@.imports.len(),
            forall|earlier: ImportId|
                earlier@ < old(self)@.imports.len() ==> #[trigger] earlier.precedes(id),
    {
        broadcast use ImportId::lemma_view;

        let id = self.imports.push(import);
        proof {
            assert(self@.imports =~= old(self)@.push_import(import@).imports);
            assert(self@.functions =~= old(self)@.push_import(import@).functions);
        }
        id
    }

    /// The entry that `id` names. The handle must have been issued by this
    /// arena.
    pub fn get_import(&self, id: ImportId) -> (import: &Import)
        requires
            self.wf(),
            id@ < self@.imports.len(),
        ensures
            import@ == self@.imports[id@ as int],
    {
        self.imports.get(id).unwrap()
    }

    /// The number of entries of the import table.
    pub fn import_count(&self) -> (count: usize)
        ensures
            count == self@.imports.len(),
    {
        self.imports.len()
    }

    /// Appends a global and returns the handle issued for it: the number
    /// of entries that the table held before.
    pub fn new_global(&mut self, global: Global) -> (id: GlobalId)
        requires
            old(self).wf(),
            old(self)@.globals.len() < u32::MAX,
        ensures
            final(self).wf(),
            final(self)@ == old(self)@.push_global(global),
            final(self).src == old(self).src,
            id == GlobalId::nth(old(self)@.globals.len()),
            id@ == old(self)@.globals.len(),
            forall|earlier: GlobalId|
                earlier@ < old(self)@.globals.len() ==> #[trigger] earlier.precedes(id),
    {
        broadcast use GlobalId::lemma_view;

        let id = self.globals.push(global);
        proof {
            assert(self@.imports =~= old(self)@.push_global(global).imports);
            assert(self@.functions =~= old(self)@.push_global(global).functions);
        }
        id
    }

    /// The entry that `id` names. The handle must have been issued by this
    /// arena.
    pub fn get_global(&self, id: GlobalId) -> (global: &Global)
        requires
            self.wf(),
            id@ < self@.globals.len(),
        ensures
            *global == self@.globals[id@ as int],
    {
        self.globals.get(id).unwrap()
    }

    /// The number of entries of the global table.
    pub fn global_count(&self) -> (count: usize)
        ensures
            count == self@.globals.len(),
    {
        self.globals.len()
    }

    /// Appends a function and returns the handle issued for it: the number
    /// of entries that the table held before.
    pub fn new_function(&mut self, function: Function) -> (id: FunctionId)
        requires
            old(self).wf(),
            old(self)@.functions.len() < u32::MAX,
        ensures
            final(self).wf(),
            final(self)@ == old(self)@.push_function(function@),
            final(self).src == old(self).src,
            id == FunctionId::nth(old(self)@.functions.len()),
            id@ == old(self)@.functions.len(),
            forall|earlier: FunctionId|
                earlier@ < old(self)@.functions.len() ==> #[trigger] earlier.precedes(id),
    {
        broadcast use FunctionId::lemma_view;

        let id = self.functions.push(function);
        proof {
            assert(self@.imports =~= old(self)@.push_function(function@).imports);
            assert(self@.functions =~= old(self)@.push_function(function@).functions);
        }
        id
    }

    /// The entry that `id` names. The handle must have been issued by this
    /// arena.
    pub fn get_function(&self, id: FunctionId) -> (function: &Function)
        requires
            self.wf(),
            id@ < self@.functions.len(),
        ensures
            function@ == self@.functions[id@ as int],
    {
        self.functions.get(id).unwrap()
    }

    /// The number of entries of the function table.
    pub fn function_count(&self) -> (count: usize)
        ensures
            count == self@.functions.len(),
    {
        self.functions.len()
    }
}

/// An item that the source unit takes from outside.
#[derive(Debug, PartialEq, Eq, Clone)]
pub struct Import {
    pub ident: NameId,
    pub external_type: ExternalType,
}

/// What an imported item is.
#[derive(Debug, PartialEq, Eq, Clone)]
pub enum ExternalType {
    Function(FnType),
}

/// A function with its body.
#[derive(Debug)]
pub struct Function {
    pub exported: bool,
    pub signature: FunctionSignature,
    pub body: Vec<StatementId>,
}

/// The name, the parameters in order, and the return type of a function.
#[derive(Debug, PartialEq, Eq, Clone)]
pub struct FunctionSignature {
    pub ident: NameId,
    pub arguments: Vec<(NameId, TypeId)>,
    pub return_type: Option<TypeId>,
}

/// What is known of anything that has the type of a function.
pub trait FnTypeInfo {
    /// The parameters, in declaration order.
    spec fn arguments_model(&self) -> Seq<(NameId, TypeId)>;

    /// The return type, if one was declared.
    spec fn return_type_model(&self) -> Option<TypeId>;

    fn get_args(&self) -> (args: &[(NameId, TypeId)])
        ensures
            args@ == self.arguments_model(),
    ;

    fn get_return_type(&self) -> (return_type: Option<TypeId>)
        ensures
            return_type == self.return_type_model(),
    ;
}

impl FnTypeInfo for FunctionSignature {
    open spec fn arguments_model(&self) -> Seq<(NameId, TypeId)> {
        self.arguments@
    }

    open spec fn return_type_model(&self) -> Option<TypeId> {
        self.return_type
    }

    fn get_args(&self) -> (args: &[(NameId, TypeId)]) {
        self.arguments.as_slice()
    }

    fn get_return_type(&self) -> (return_type: Option<TypeId>) {
        self.return_type
    }
}

impl FnTypeInfo for FnType {
    open spec fn arguments_model(&self) -> Seq<(NameId, TypeId)> {
        self.arguments@
    }

    open spec fn return_type_model(&self) -> Option<TypeId> {
        self.return_type
    }

    fn get_args(&self) -> (args: &[(NameId, TypeId)]) {
        self.arguments.as_slice()
    }

    fn get_return_type(&self) -> (return_type: Option<TypeId>) {
        self.return_type
    }
}

/// A value that lives for the whole run of the program.
#[derive(Debug, Clone)]
pub struct Global {
    pub exported: bool,
    pub mutable: bool,
    pub ident: NameId,
    pub type_id: TypeId,
    pub init_value: ExpressionId,
}

/// What an imported item is, with sequences for lists.
pub enum ExternalTypeModel {
    Function(FnTypeModel),
}

impl View for ExternalType {
    type V = ExternalTypeModel;

    open spec fn view(&self) -> ExternalTypeModel {
        match *self {
            ExternalType::Function(fn_type) => ExternalTypeModel::Function(fn_type@),
        }
    }
}

/// What an import is, with sequences for lists.
pub struct ImportModel {
    pub ident: NameId,
    pub external_type: ExternalTypeModel,
}

impl View for Import {
    type V = ImportModel;

    open spec fn view(&self) -> ImportModel {
        ImportModel { ident: self.ident, external_type: self.external_type@ }
    }
}

/// What a function signature is, with sequences for lists.
pub struct FunctionSignatureModel {
    pub ident: NameId,
    pub arguments: Seq<(NameId, TypeId)>,
    pub return_type: Option<TypeId>,
}

impl View for FunctionSignature {
    type V = FunctionSignatureModel;

    open spec fn view(&self) -> FunctionSignatureModel {
        FunctionSignatureModel {
            ident: self.ident,
            arguments: self.arguments@,
            return_type: self.return_type,
        }
    }
}

/// What a function is, with sequences for lists.
pub struct FunctionModel {
    pub exported: bool,
    pub signature: FunctionSignatureModel,
    pub body: Seq<StatementId>,
}

impl View for Function {
    type V = FunctionModel;

    open spec fn view(&self) -> FunctionModel {
        FunctionModel { exported: self.exported, signature: self.signature@, body: self.body@ }
    }
}

/// Handles come in increasing order and are never issued twice. In any
/// table, `before` is what it held when an entry was appended, and `later`
/// what it holds at any time after that: the handle issued for the entry,
/// which is the length of `before`, is smaller than the handle that the
/// next allocation in `later` issues, which is the length of `later`, and
/// still names the same entry.
pub proof fn law_handles_increase<T>(before: Seq<T>, entry: T, later: Seq<T>)
    requires
        before.push(entry).is_prefix_of(later),
    ensures
        before.len() < later.len(),
        later[before.len() as int] == entry,
        forall|i: int| 0 <= i < before.len() ==> later[i] == before[i],
{
    assert(later[before.len() as int] == before.push(entry)[before.len() as int]);
    assert forall|i: int| 0 <= i < before.len() implies later[i] == before[i] by {
        assert(later[i] == before.push(entry)[i]);
    }
}

} // verus!
