//! Source ranges and the algebra that combines them.

use vstd::prelude::*;

verus! {

/// A range of source positions, or the call-site sentinel that stands where
/// no source position is known.
#[derive(Clone, Copy, Debug, PartialEq, Eq, Structural)]
pub enum SpanRange {
    /// No concrete source position: the site of the expansion.
    CallSite,
    /// The positions from `start` up to `end`.
    Source { start: usize, end: usize },
}

impl SpanRange {
    /// The sentinel span used where no source position is known.
    pub fn call_site() -> (r: SpanRange)
        ensures
            r is CallSite,
    {
        SpanRange::CallSite
    }

    /// Every position of `inner` lies within `self`. The sentinel holds no
    /// position, so every span encloses it; it encloses no source range.
    pub open spec fn encloses(self, inner: SpanRange) -> bool {
        match inner {
            SpanRange::CallSite => true,
            SpanRange::Source { start: s2, end: e2 } => match self {
                SpanRange::CallSite => false,
                SpanRange::Source { start: s1, end: e1 } => s1 <= s2 && e2 <= e1,
            },
        }
    }

    /// The smallest span that encloses both `self` and `other`.
    pub open spec fn join_spec(self, other: SpanRange) -> SpanRange {
        match (self, other) {
            (SpanRange::CallSite, _) => other,
            (_, SpanRange::CallSite) => self,
            (
                SpanRange::Source { start: s1, end: e1 },
                SpanRange::Source { start: s2, end: e2 },
            ) => SpanRange::Source {
                start: if s1 <= s2 { s1 } else { s2 },
                end: if e1 >= e2 { e1 } else { e2 },
            },
        }
    }

    /// `self` lies no later in the source than `other`: it starts and ends
    /// no later. A sentinel is in order with everything.
    pub open spec fn precedes(self, other: SpanRange) -> bool {
        match (self, other) {
            (
                SpanRange::Source { start: s1, end: e1 },
                SpanRange::Source { start: s2, end: e2 },
            ) => s1 <= s2 && e1 <= e2,
            _ => true,
        }
    }

    /// Joins two spans into the smallest span that encloses both.
    pub fn join_range(self, other: SpanRange) -> (r: SpanRange)
        ensures
            r == self.join_spec(other),
            r.encloses(self),
            r.encloses(other),
    {
        match (self, other) {
            (SpanRange::CallSite, _) => other,
            (_, SpanRange::CallSite) => self,
            (
                SpanRange::Source { start: s1, end: e1 },
                SpanRange::Source { start: s2, end: e2 },
            ) => SpanRange::Source {
                start: if s1 <= s2 { s1 } else { s2 },
                end: if e1 >= e2 { e1 } else { e2 },
            },
        }
    }
}

/// The span of a sequence of spans given in source order: the join of its
/// first and last element, or the sentinel when it is empty.
pub open spec fn join_all(spans: Seq<SpanRange>) -> SpanRange {
    if spans.len() == 0 {
        SpanRange::CallSite
    } else {
        spans[0].join_spec(spans.last())
    }
}

/// The spans lie in source order, and the first and last of them are source
/// ranges.
pub open spec fn in_source_order(spans: Seq<SpanRange>) -> bool {
    &&& forall|i: int, j: int|
        0 <= i < j < spans.len() ==> (#[trigger] spans[i]).precedes(#[trigger] spans[j])
    &&& spans.len() > 0 ==> spans[0] is Source && spans.last() is Source
}

/// Joins a sequence of spans given in source order: the sentinel when it is
/// empty, else the join of its first and last element.
pub fn join_ranges(ranges: &Vec<SpanRange>) -> (r: SpanRange)
    ensures
        r == join_all(ranges@),
        ranges@.len() == 0 ==> r is CallSite,
        ranges@.len() == 1 ==> r == ranges@[0],
{
    if ranges.len() == 0 {
        return SpanRange::call_site();
    }
    let first = ranges[0];
    let last = ranges[ranges.len() - 1];
    proof {
        lemma_join_idempotent(first);
    }
    first.join_range(last)
}

/// A span joined with itself is that span.
pub proof fn lemma_join_idempotent(s: SpanRange)
    ensures
        s.join_spec(s) == s,
{
}

/// The order of the operands does not change the join.
pub proof fn lemma_join_commutative(a: SpanRange, b: SpanRange)
    ensures
        a.join_spec(b) == b.join_spec(a),
{
}

/// Joining is associative, so accumulating from the left gives the same
/// bounding range however the operands are grouped.
pub proof fn lemma_join_associative(a: SpanRange, b: SpanRange, c: SpanRange)
    ensures
        a.join_spec(b).join_spec(c) == a.join_spec(b.join_spec(c)),
{
}

/// The join encloses both operands, and any span that encloses both
/// operands encloses the join: it is the smallest enclosing span.
pub proof fn lemma_join_least(a: SpanRange, b: SpanRange, c: SpanRange)
    ensures
        a.join_spec(b).encloses(a),
        a.join_spec(b).encloses(b),
        c.encloses(a) && c.encloses(b) ==> c.encloses(a.join_spec(b)),
{
}

/// Joining no spans gives the sentinel, on every call.
pub proof fn lemma_join_all_empty(a: Seq<SpanRange>, b: Seq<SpanRange>)
    requires
        a.len() == 0,
        b.len() == 0,
    ensures
        join_all(a) is CallSite,
        join_all(a) == join_all(b),
{
}

/// Joining a single span gives that span.
pub proof fn lemma_join_all_single(s: SpanRange)
    ensures
        join_all(seq![s]) == s,
{
}

/// When spans lie in source order, the join of the first and last encloses
/// every one of them.
pub proof fn lemma_join_all_encloses(spans: Seq<SpanRange>)
    requires
        in_source_order(spans),
    ensures
        forall|i: int| 0 <= i < spans.len() ==> join_all(spans).encloses(#[trigger] spans[i]),
{
    assert forall|i: int| 0 <= i < spans.len() implies join_all(spans).encloses(
        #[trigger] spans[i],
    ) by {
        let last = spans.len() - 1;
        if 0 < i {
            assert(spans[0].precedes(spans[i]));
        }
        if i < last {
            assert(spans[i].precedes(spans[last]));
        }
        if 0 < last {
            assert(spans[0].precedes(spans[last]));
        }
    }
}

} // verus!
