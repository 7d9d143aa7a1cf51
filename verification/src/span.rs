use vstd::prelude::*;

verus! {

/// A position in a source text, counted in code points from its start.
#[derive(Debug, Copy, Clone, PartialEq, Eq, Structural)]
pub struct Location {
    pub offset: usize,
}

/// A range of a source text: the file it lies in and the two positions that
/// bound it.
#[derive(Debug, Copy, Clone, PartialEq, Eq, Structural)]
pub struct Span {
    pub file_id: usize,
    pub from: Location,
    pub to: Location,
}

impl Span {
    /// The span that starts where `start` starts and ends where `end` ends.
    pub open spec fn spec_combine(start: Span, end: Span) -> Span {
        Span { file_id: start.file_id, from: start.from, to: end.to }
    }

    /// Joins two spans of one file into the span that reaches from the start
    /// of the first to the end of the second.
    pub fn combine(start: &Span, end: &Span) -> (joined: Span)
        requires
            start.file_id == end.file_id,
        ensures
            joined == Span::spec_combine(*start, *end),
    {
        Span { file_id: start.file_id, from: start.from, to: end.to }
    }
}

/// A value together with the span of source text it was read from.
#[derive(Debug, Clone, PartialEq, Eq)]
pub struct Spanned<T> {
    pub node: T,
    pub span: Span,
}

impl<T: DeepView> DeepView for Spanned<T> {
    type V = Spanned<T::V>;

    open spec fn deep_view(&self) -> Spanned<T::V> {
        Spanned { node: self.node.deep_view(), span: self.span }
    }
}

/// Values that can be paired with the span they were read from.
pub trait Spanning: Sized {
    fn spanning(self, span: Span) -> (spanned: Spanned<Self>)
        ensures
            spanned.node == self,
            spanned.span == span,
    ;
}

impl Spanning for String {
    fn spanning(self, span: Span) -> (spanned: Spanned<String>) {
        Spanned { node: self, span }
    }
}

impl Spanning for u64 {
    fn spanning(self, span: Span) -> (spanned: Spanned<u64>) {
        Spanned { node: self, span }
    }
}

impl Spanning for usize {
    fn spanning(self, span: Span) -> (spanned: Spanned<usize>) {
        Spanned { node: self, span }
    }
}

impl<'a> Spanning for &'a str {
    fn spanning(self, span: Span) -> (spanned: Spanned<&'a str>) {
        Spanned { node: self, span }
    }
}

} // verus!
