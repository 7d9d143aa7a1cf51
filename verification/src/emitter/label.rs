use super::atom::Offset;
use crate::span::Span;
use crate::text::same_text;
use vstd::prelude::*;

verus! {

/// A label with the place it names and the span of its definition.
#[derive(Debug, Clone, PartialEq, Eq)]
pub struct Binding {
    pub label: String,
    pub offset: Offset,
    pub span: Span,
}

/// The labels of a program: each name with the place it stands for and the
/// span of its definition. A name is bound once, and the first binding
/// stays.
#[derive(Debug, Clone)]
pub struct LabelTable {
    bindings: Vec<Binding>,
}

/// The table that a sequence of bindings makes: each name is bound as the
/// first binding that holds it says.
pub open spec fn bound(bindings: Seq<Binding>) -> Map<Seq<char>, (Offset, Span)>
    decreases bindings.len(),
{
    if bindings.len() == 0 {
        Map::empty()
    } else {
        let earlier = bound(bindings.drop_last());
        let last = bindings.last();
        if earlier.contains_key(last.label@) {
            earlier
        } else {
            earlier.insert(last.label@, (last.offset, last.span))
        }
    }
}

/// A name that no binding holds is not in the table.
proof fn lemma_bound_absent(bindings: Seq<Binding>, label: Seq<char>)
    requires
        forall|j: int| 0 <= j < bindings.len() ==> (#[trigger] bindings[j]).label@ != label,
    ensures
        !bound(bindings).contains_key(label),
    decreases bindings.len(),
{
    if bindings.len() > 0 {
        assert(bindings.last() == bindings[bindings.len() - 1]);
        assert forall|j: int| 0 <= j < bindings.drop_last().len() implies (
        #[trigger] bindings.drop_last()[j]).label@ != label by {
            assert(bindings.drop_last()[j] == bindings[j]);
        }
        lemma_bound_absent(bindings.drop_last(), label);
    }
}

/// A name is bound as the first binding that holds it says.
proof fn lemma_bound_first(bindings: Seq<Binding>, i: int)
    requires
        0 <= i < bindings.len(),
        forall|j: int| 0 <= j < i ==> (#[trigger] bindings[j]).label@ != bindings[i].label@,
    ensures
        bound(bindings).contains_key(bindings[i].label@),
        bound(bindings)[bindings[i].label@] == (bindings[i].offset, bindings[i].span),
    decreases bindings.len(),
{
    let label = bindings[i].label@;
    let earlier = bindings.drop_last();
    if i == bindings.len() - 1 {
        assert forall|j: int| 0 <= j < earlier.len() implies (#[trigger] earlier[j]).label@
            != label by {
            assert(earlier[j] == bindings[j]);
        }
        lemma_bound_absent(earlier, label);
    } else {
        assert(earlier[i] == bindings[i]);
        assert forall|j: int| 0 <= j < i implies (#[trigger] earlier[j]).label@
            != earlier[i].label@ by {
            assert(earlier[j] == bindings[j]);
        }
        lemma_bound_first(earlier, i);
    }
}

impl View for LabelTable {
    type V = Map<Seq<char>, (Offset, Span)>;

    closed spec fn view(&self) -> Map<Seq<char>, (Offset, Span)> {
        bound(self.bindings@)
    }
}

impl LabelTable {
    /// A table that binds no name.
    pub fn new() -> (table: LabelTable)
        ensures
            table@ == Map::<Seq<char>, (Offset, Span)>::empty(),
    {
        LabelTable { bindings: Vec::new() }
    }

    /// The place that a name stands for and the span of its definition, if
    /// the name is bound.
    pub fn get(&self, label: &str) -> (found: Option<(Offset, Span)>)
        ensures
            found == if self@.contains_key(label@) {
                Some(self@[label@])
            } else {
                None
            },
    {
        let mut i: usize = 0;
        while i < self.bindings.len()
            invariant
                i <= self.bindings.len(),
                forall|j: int| 0 <= j < i ==> (#[trigger] self.bindings@[j]).label@ != label@,
            decreases self.bindings.len() - i,
        {
            if same_text(self.bindings[i].label.as_str(), label) {
                proof {
                    lemma_bound_first(self.bindings@, i as int);
                }
                return Some((self.bindings[i].offset, self.bindings[i].span));
            }
            i += 1;
        }
        proof {
            lemma_bound_absent(self.bindings@, label@);
        }
        None
    }

    /// Binds a name that is not bound yet, and returns `None`. A name that
    /// is bound stays as it is: the span of its definition is returned.
    pub fn define(&mut self, label: String, offset: Offset, span: Span) -> (previous: Option<Span>)
        ensures
            old(self)@.contains_key(label@) ==> previous == Some(old(self)@[label@].1)
                && final(self)@ == old(self)@,
            !old(self)@.contains_key(label@) ==> previous is None
                && final(self)@ == old(self)@.insert(label@, (offset, span)),
    {
        match self.get(label.as_str()) {
            Some((_, previous)) => Some(previous),
            None => {
                let ghost before = self.bindings@;
                let binding = Binding { label, offset, span };
                self.bindings.push(binding);
                proof {
                    assert(self.bindings@.drop_last() =~= before);
                }
                None
            },
        }
    }
}

} // verus!
