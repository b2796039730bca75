//! The syntax tree: spans, the metadata wrappers and the arena.
use vstd::prelude::*;

pub mod component;
pub mod expressions;
pub mod module;
pub mod statements;
pub mod tables;
pub mod types;

pub use statements::{Assign, Let, Return, Statement, StatementId};
pub use types::{NameId, TypeId, ValType};

verus! {

/// A region of source text: a start offset and a length, both in bytes.
#[derive(Debug, PartialEq, Eq, Structural, Clone, Copy, Hash)]
pub struct Span {
    pub offset: usize,
    pub length: usize,
}

impl Span {
    /// The offset just past the last byte of the region.
    pub open spec fn end(self) -> int {
        self.offset + self.length
    }

    /// Whether a region that starts where `self` starts can end where `right` ends.
    pub open spec fn reaches(self, right: Span) -> bool {
        self.offset <= right.end() <= usize::MAX
    }

    /// The region from the start of `self` through the end of `right`.
    pub open spec fn through(self, right: Span) -> Span
        recommends
            self.reaches(right),
    {
        Span { offset: self.offset, length: (right.end() - self.offset) as usize }
    }

    pub fn new(offset: usize, length: usize) -> (span: Span)
        ensures
            span.offset == offset,
            span.length == length,
    {
        Span { offset, length }
    }

    pub fn offset(&self) -> (offset: usize)
        ensures
            offset == self.offset,
    {
        self.offset
    }

    pub fn len(&self) -> (length: usize)
        ensures
            length == self.length,
    {
        self.length
    }

    pub fn is_empty(&self) -> (empty: bool)
        ensures
            empty == (self.length == 0),
    {
        self.length == 0
    }

    /// Merges two regions into the one that runs from the start of `left`
    /// through the end of `right`; `None` when `right` ends before `left`
    /// starts or beyond what an offset can express.
    pub fn merge(left: Span, right: Span) -> (merged: Option<Span>)
        ensures
            merged == if left.reaches(right) {
                Some(left.through(right))
            } else {
                None::<Span>
            },
            left.reaches(right) ==> merged.unwrap().offset == left.offset
                && merged.unwrap().length == right.offset + right.length - left.offset,
    {
        match right.offset.checked_add(right.length) {
            Some(right_most) => {
                if right_most >= left.offset {
                    Some(Span { offset: left.offset, length: right_most - left.offset })
                } else {
                    None
                }
            },
            None => None,
        }
    }
}

/// The metadata wrapper: a value and the region of source text it came from.
#[derive(Debug, PartialEq, Eq, Clone)]
pub struct M<T> {
    pub span: Span,
    pub value: T,
}

impl<T> M<T> {
    pub fn new(value: T, span: Span) -> (m: Self)
        ensures
            m.value == value,
            m.span == span,
    {
        M { span, value }
    }

    /// Wraps `value` with the region from the start of `left` through the end of `right`.
    pub fn new_range(value: T, left: Span, right: Span) -> (m: Self)
        requires
            left.reaches(right),
        ensures
            m.value == value,
            m.span == left.through(right),
            m.span.offset == left.offset,
            m.span.length == right.offset + right.length - left.offset,
    {
        let left_most = left.offset();
        let right_most = right.offset() + right.len();
        let len = right_most - left_most;
        let span = Span::new(left_most, len);
        M { span, value }
    }
}

/// The metadata wrapper for values that need a heap indirection.
#[derive(Debug, PartialEq, Eq, Clone)]
pub struct MBox<T> {
    pub span: Span,
    pub value: Box<T>,
}

impl<T> MBox<T> {
    pub fn new(value: T, span: Span) -> (m: Self)
        ensures
            *m.value == value,
            m.span == span,
    {
        MBox { span, value: Box::new(value) }
    }

    /// Wraps `value` with the region from the start of `left` through the end of `right`.
    pub fn new_range(value: T, left: Span, right: Span) -> (m: Self)
        requires
            left.reaches(right),
        ensures
            *m.value == value,
            m.span == left.through(right),
            m.span.offset == left.offset,
            m.span.length == right.offset + right.length - left.offset,
    {
        let left_most = left.offset();
        let right_most = right.offset() + right.len();
        let len = right_most - left_most;
        let span = Span::new(left_most, len);
        MBox { span, value: Box::new(value) }
    }
}

/// A place denotes a memory location, such as `foobar`.
/// Places can be read, assigned to and operated on; they occur in
/// expressions and as assignment targets.
#[derive(Debug, PartialEq, Eq, Clone)]
pub enum Place {
    Identifier { ident: M<String> },
}

} // verus!
