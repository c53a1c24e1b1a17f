//! The template syntax tree, and the source range each node occupies.

use crate::span::{in_source_order, join_all, join_ranges, lemma_join_all_encloses, SpanRange};
use crate::tokens::{span_tokens, TokenRun};
use vstd::prelude::*;

verus! {

/// One producible construct of a template.
#[derive(Debug)]
pub enum Markup {
    /// Stands where parsing failed, so that the rest of the tree stays whole.
    ParseError { span: SpanRange },
    Block(Block),
    Literal { content: String, span: SpanRange },
    Symbol { symbol: TokenRun },
    Splice { expr: TokenRun, outer_span: SpanRange },
    Element { name: TokenRun, attrs: Vec<Attr>, body: ElementBody },
    Let { at_span: SpanRange, tokens: TokenRun },
    Special { segments: Vec<Special> },
    Match { at_span: SpanRange, head: TokenRun, arms: Vec<MatchArm>, arms_span: SpanRange },
    Patrial { body: TokenRun },
    Builder { tokens: TokenRun },
}

/// An attribute attached to an element.
#[derive(Debug)]
pub enum Attr {
    Class { dot_span: SpanRange, name: Markup, toggler: Option<Toggler> },
    Id { hash_span: SpanRange, name: Markup },
    Named { named_attr: NamedAttr },
    Event { name: TokenRun, ty: TokenRun },
    Value { name: TokenRun, attr_type: AttrType },
}

/// What follows an element's name and attributes: a closing marker, or a
/// block of children.
#[derive(Debug)]
pub enum ElementBody {
    Void { semi_span: SpanRange },
    Block { block: Block },
}

/// A braced sequence of markups, with the span of the whole, braces included.
#[derive(Debug)]
pub struct Block {
    pub markups: Vec<Markup>,
    pub outer_span: SpanRange,
}

/// One branch of an if / else-if / else chain.
#[derive(Debug)]
pub struct Special {
    pub at_span: SpanRange,
    pub head: TokenRun,
    pub body: Block,
}

/// A named attribute and the way its value is given.
#[derive(Debug)]
pub struct NamedAttr {
    pub name: TokenRun,
    pub attr_type: AttrType,
}

/// The ways a named attribute's value can be given.
#[derive(Debug)]
pub enum AttrType {
    Normal { value: Markup },
    Event { ty: TokenRun },
    Optional { toggler: Toggler },
    Empty { toggler: Option<Toggler> },
}

/// A condition that decides whether an attribute or value is emitted.
#[derive(Debug)]
pub struct Toggler {
    pub cond: TokenRun,
    pub cond_span: SpanRange,
}

/// One arm of a match construct.
#[derive(Debug)]
pub struct MatchArm {
    pub head: TokenRun,
    pub body: Block,
}

impl Block {
    pub open spec fn span_spec(self) -> SpanRange {
        self.outer_span
    }

    /// The span the parser recorded for the whole block.
    pub fn span(&self) -> (r: SpanRange)
        ensures
            r == self.span_spec(),
    {
        self.outer_span
    }
}

impl ElementBody {
    pub open spec fn span_spec(self) -> SpanRange {
        match self {
            ElementBody::Void { semi_span } => semi_span,
            ElementBody::Block { block } => block.span_spec(),
        }
    }

    /// The closing marker's span, or the block's.
    pub fn span(&self) -> (r: SpanRange)
        ensures
            r == self.span_spec(),
    {
        match self {
            ElementBody::Void { semi_span } => *semi_span,
            ElementBody::Block { block } => block.span(),
        }
    }
}

impl Special {
    pub open spec fn span_spec(self) -> SpanRange {
        self.at_span.join_spec(self.body.span_spec())
    }

    /// The keyword's span joined with the body's.
    pub fn span(&self) -> (r: SpanRange)
        ensures
            r == self.span_spec(),
    {
        let body_span = self.body.span();
        self.at_span.join_range(body_span)
    }
}

impl MatchArm {
    /// The range an arm occupies: its pattern and its body.
    pub open spec fn span_spec(self) -> SpanRange {
        self.head.span_spec().join_spec(self.body.span_spec())
    }
}

impl Toggler {
    pub open spec fn span_spec(self) -> SpanRange {
        self.cond_span
    }

    /// The span the parser recorded for the condition.
    pub fn span(&self) -> (r: SpanRange)
        ensures
            r == self.span_spec(),
    {
        self.cond_span
    }
}

/// The spans of a chain's branches, in order.
pub open spec fn segment_spans(segments: Seq<Special>) -> Seq<SpanRange> {
    segments.map_values(|s: Special| s.span_spec())
}

impl Markup {
    pub open spec fn span_spec(self) -> SpanRange {
        match self {
            Markup::ParseError { span } => span,
            Markup::Block(block) => block.span_spec(),
            Markup::Literal { span, .. } => span,
            Markup::Symbol { symbol } => symbol.span_spec(),
            Markup::Splice { outer_span, .. } => outer_span,
            Markup::Element { name, body, .. } => name.span_spec().join_spec(body.span_spec()),
            Markup::Let { at_span, tokens } => at_span.join_spec(tokens.span_spec()),
            Markup::Special { segments } => join_all(segment_spans(segments@)),
            Markup::Match { at_span, arms_span, .. } => at_span.join_spec(arms_span),
            Markup::Patrial { body } => body.span_spec(),
            Markup::Builder { tokens } => tokens.span_spec(),
        }
    }

    /// The source range this node occupies.
    pub fn span(&self) -> (r: SpanRange)
        ensures
            r == self.span_spec(),
    {
        match self {
            Markup::ParseError { span } => *span,
            Markup::Block(block) => block.span(),
            Markup::Literal { span, .. } => *span,
            Markup::Symbol { symbol } => span_tokens(symbol),
            Markup::Splice { outer_span, .. } => *outer_span,
            Markup::Element { name, body, .. } => {
                let name_span = span_tokens(name);
                name_span.join_range(body.span())
            },
            Markup::Let { at_span, tokens } => at_span.join_range(span_tokens(tokens)),
            Markup::Special { segments } => {
                let mut spans: Vec<SpanRange> = Vec::new();
                let mut i: usize = 0;
                while i < segments.len()
                    invariant
                        i <= segments@.len(),
                        spans@ == segment_spans(segments@).take(i as int),
                    decreases segments@.len() - i,
                {
                    spans.push(segments[i].span());
                    i = i + 1;
                    assert(spans@ =~= segment_spans(segments@).take(i as int));
                }
                assert(spans@ =~= segment_spans(segments@));
                join_ranges(&spans)
            },
            Markup::Match { at_span, arms_span, .. } => at_span.join_range(*arms_span),
            Markup::Patrial { body } => span_tokens(body),
            Markup::Builder { tokens } => span_tokens(tokens),
        }
    }
}

impl AttrType {
    pub open spec fn span_spec(self) -> Option<SpanRange> {
        match self {
            AttrType::Normal { value } => Some(value.span_spec()),
            AttrType::Event { ty } => Some(ty.span_spec()),
            AttrType::Optional { toggler } => Some(toggler.span_spec()),
            AttrType::Empty { toggler } => match toggler {
                Some(t) => Some(t.span_spec()),
                None => None,
            },
        }
    }

    /// The span of the value part, absent only for a bare attribute with no
    /// condition.
    pub fn span(&self) -> (r: Option<SpanRange>)
        ensures
            r == self.span_spec(),
            r is None <==> (self matches AttrType::Empty { toggler } && toggler is None),
    {
        match self {
            AttrType::Normal { value } => Some(value.span()),
            AttrType::Event { ty } => Some(span_tokens(ty)),
            AttrType::Optional { toggler } => Some(toggler.span()),
            AttrType::Empty { toggler } => match toggler {
                Some(t) => Some(t.span()),
                None => None,
            },
        }
    }
}

/// A name's span, extended by a value's span where there is one.
pub open spec fn name_and_value_span(name: TokenRun, value: Option<SpanRange>) -> SpanRange {
    match value {
        Some(s) => name.span_spec().join_spec(s),
        None => name.span_spec(),
    }
}

impl NamedAttr {
    pub open spec fn span_spec(self) -> SpanRange {
        name_and_value_span(self.name, self.attr_type.span_spec())
    }

    /// The name's span joined with the value's, or the name's alone when the
    /// value has none.
    pub fn span(&self) -> (r: SpanRange)
        ensures
            r == self.span_spec(),
            self.attr_type.span_spec() is None ==> r == self.name.span_spec(),
    {
        let name_span = span_tokens(&self.name);
        match self.attr_type.span() {
            Some(attr_type_span) => name_span.join_range(attr_type_span),
            None => name_span,
        }
    }
}

impl Attr {
    pub open spec fn span_spec(self) -> SpanRange {
        match self {
            Attr::Class { dot_span, name, toggler } => match toggler {
                Some(t) => dot_span.join_spec(name.span_spec()).join_spec(t.cond_span),
                None => dot_span.join_spec(name.span_spec()),
            },
            Attr::Id { hash_span, name } => hash_span.join_spec(name.span_spec()),
            Attr::Named { named_attr } => named_attr.span_spec(),
            Attr::Event { name, ty } => name.span_spec().join_spec(ty.span_spec()),
            Attr::Value { name, attr_type } => name_and_value_span(name, attr_type.span_spec()),
        }
    }

    /// The source range this attribute occupies, its condition included.
    pub fn span(&self) -> (r: SpanRange)
        ensures
            r == self.span_spec(),
    {
        match self {
            Attr::Class { dot_span, name, toggler } => {
                let name_span = name.span();
                let dot_name_span = dot_span.join_range(name_span);
                match toggler {
                    Some(t) => dot_name_span.join_range(t.cond_span),
                    None => dot_name_span,
                }
            },
            Attr::Id { hash_span, name } => {
                let name_span = name.span();
                hash_span.join_range(name_span)
            },
            Attr::Named { named_attr } => named_attr.span(),
            Attr::Event { name, ty } => span_tokens(name).join_range(span_tokens(ty)),
            Attr::Value { name, attr_type } => {
                let name_span = span_tokens(name);
                match attr_type.span() {
                    Some(attr_type_span) => name_span.join_range(attr_type_span),
                    None => name_span,
                }
            },
        }
    }
}

/// The spans of the markups, in order.
pub open spec fn markup_spans(markups: Seq<Markup>) -> Seq<SpanRange> {
    markups.map_values(|m: Markup| m.span_spec())
}

/// The spans of the attributes, in order.
pub open spec fn attr_spans(attrs: Seq<Attr>) -> Seq<SpanRange> {
    attrs.map_values(|a: Attr| a.span_spec())
}

/// The spans of the match arms, in order.
pub open spec fn arm_spans(arms: Seq<MatchArm>) -> Seq<SpanRange> {
    arms.map_values(|a: MatchArm| a.span_spec())
}

/// A span that may be absent, as a sequence of zero or one spans.
pub open spec fn optional_span(s: Option<SpanRange>) -> Seq<SpanRange> {
    match s {
        Some(s) => seq![s],
        None => Seq::empty(),
    }
}

impl Block {
    /// The spans of the block's children.
    pub open spec fn child_spans(self) -> Seq<SpanRange> {
        markup_spans(self.markups@)
    }

    /// What the parser guarantees of a block: its outer span encloses every
    /// child's span.
    pub open spec fn well_placed(self) -> bool {
        forall|i: int|
            0 <= i < self.child_spans().len() ==> self.outer_span.encloses(
                #[trigger] self.child_spans()[i],
            )
    }
}

impl Special {
    /// The spans of the branch's keyword, head and body.
    pub open spec fn child_spans(self) -> Seq<SpanRange> {
        seq![self.at_span, self.head.span_spec(), self.body.span_spec()]
    }

    /// What the parser guarantees of a branch: keyword, head and body come in
    /// source order.
    pub open spec fn well_placed(self) -> bool {
        in_source_order(self.child_spans())
    }
}

impl Toggler {
    /// The span of the condition's tokens.
    pub open spec fn child_spans(self) -> Seq<SpanRange> {
        seq![self.cond.span_spec()]
    }

    /// What the parser guarantees of a condition: its recorded span encloses
    /// its tokens.
    pub open spec fn well_placed(self) -> bool {
        self.cond_span.encloses(self.cond.span_spec())
    }
}

impl Markup {
    /// The spans of a node's direct children; leaves have none.
    pub open spec fn child_spans(self) -> Seq<SpanRange> {
        match self {
            Markup::Block(block) => block.child_spans(),
            Markup::Element { name, attrs, body } => seq![name.span_spec()] + attr_spans(attrs@)
                + seq![body.span_spec()],
            Markup::Let { at_span, tokens } => seq![at_span, tokens.span_spec()],
            Markup::Special { segments } => segment_spans(segments@),
            Markup::Match { at_span, head, arms, arms_span } => seq![at_span, head.span_spec()]
                + arm_spans(arms@) + seq![arms_span],
            _ => Seq::empty(),
        }
    }

    /// What the parser guarantees of a node: its children come in source
    /// order, and a recorded span encloses what it stands for.
    pub open spec fn well_placed(self) -> bool {
        match self {
            Markup::Block(block) => block.well_placed(),
            Markup::Element { .. } => in_source_order(self.child_spans()),
            Markup::Special { segments } => in_source_order(segment_spans(segments@)),
            Markup::Match { at_span, head, arms, arms_span } => {
                &&& at_span is Source
                &&& arms_span is Source
                &&& at_span.precedes(head.span_spec())
                &&& head.span_spec().precedes(arms_span)
                &&& forall|i: int|
                    0 <= i < arms@.len() ==> arms_span.encloses(#[trigger] arm_spans(arms@)[i])
            },
            _ => true,
        }
    }
}

impl NamedAttr {
    /// The spans of the name and of the value, where it has one.
    pub open spec fn child_spans(self) -> Seq<SpanRange> {
        seq![self.name.span_spec()] + optional_span(self.attr_type.span_spec())
    }
}

impl Attr {
    /// The spans of an attribute's parts.
    pub open spec fn child_spans(self) -> Seq<SpanRange> {
        match self {
            Attr::Class { dot_span, name, toggler } => match toggler {
                Some(t) => seq![dot_span, name.span_spec(), t.cond_span],
                None => seq![dot_span, name.span_spec()],
            },
            Attr::Id { hash_span, name } => seq![hash_span, name.span_spec()],
            Attr::Named { named_attr } => seq![named_attr.span_spec()],
            Attr::Event { name, ty } => seq![name.span_spec(), ty.span_spec()],
            Attr::Value { name, attr_type } => seq![name.span_spec()] + optional_span(
                attr_type.span_spec(),
            ),
        }
    }
}

/// A node of markup placed as the parser places it encloses the span of
/// each of its children.
pub proof fn lemma_markup_encloses_children(m: Markup)
    requires
        m.well_placed(),
    ensures
        forall|i: int|
            0 <= i < m.child_spans().len() ==> m.span_spec().encloses(#[trigger] m.child_spans()[i]),
{
    match m {
        Markup::Element { name, attrs, body } => {
            let c = m.child_spans();
            assert(c[0] == name.span_spec());
            assert(c.last() == body.span_spec());
            lemma_join_all_encloses(c);
        },
        Markup::Special { segments } => {
            lemma_join_all_encloses(segment_spans(segments@));
        },
        Markup::Match { at_span, head, arms, arms_span } => {
            let c = m.child_spans();
            let n = arms@.len();
            assert forall|i: int| 0 <= i < c.len() implies m.span_spec().encloses(
                #[trigger] c[i],
            ) by {
                if 2 <= i < 2 + n {
                    assert(c[i] == arm_spans(arms@)[i - 2]);
                }
            }
        },
        _ => {},
    }
}

/// A block placed as the parser places it encloses the span of each child.
pub proof fn lemma_block_encloses_children(b: Block)
    requires
        b.well_placed(),
    ensures
        forall|i: int|
            0 <= i < b.child_spans().len() ==> b.span_spec().encloses(#[trigger] b.child_spans()[i]),
{
}

/// A branch placed as the parser places it encloses its keyword, head and
/// body.
pub proof fn lemma_special_encloses_children(s: Special)
    requires
        s.well_placed(),
    ensures
        forall|i: int|
            0 <= i < s.child_spans().len() ==> s.span_spec().encloses(#[trigger] s.child_spans()[i]),
{
    lemma_join_all_encloses(s.child_spans());
}

/// A condition placed as the parser places it encloses its tokens.
pub proof fn lemma_toggler_encloses_children(t: Toggler)
    requires
        t.well_placed(),
    ensures
        forall|i: int|
            0 <= i < t.child_spans().len() ==> t.span_spec().encloses(#[trigger] t.child_spans()[i]),
{
}

/// A named attribute encloses its name and its value.
pub proof fn lemma_named_attr_encloses_children(a: NamedAttr)
    ensures
        forall|i: int|
            0 <= i < a.child_spans().len() ==> a.span_spec().encloses(#[trigger] a.child_spans()[i]),
{
}

/// An attribute encloses each of its parts, a class's condition included.
pub proof fn lemma_attr_encloses_children(a: Attr)
    ensures
        forall|i: int|
            0 <= i < a.child_spans().len() ==> a.span_spec().encloses(#[trigger] a.child_spans()[i]),
{
}

/// The value part of an attribute has no span exactly when it is a bare
/// attribute with no condition.
pub proof fn lemma_attr_type_span_absent(t: AttrType)
    ensures
        t.span_spec() is None <==> (t matches AttrType::Empty { toggler } && toggler is None),
{
}

/// Where the value part has no span, a named attribute's span, and a value
/// attribute's, is exactly its name's span.
pub proof fn lemma_name_span_fallback(name: TokenRun, attr_type: AttrType)
    requires
        attr_type.span_spec() is None,
    ensures
        (NamedAttr { name, attr_type }).span_spec() == name.span_spec(),
        (Attr::Value { name, attr_type }).span_spec() == name.span_spec(),
{
}

impl ElementBody {
    /// The span of the body's block; a closing marker has no children.
    pub open spec fn child_spans(self) -> Seq<SpanRange> {
        match self {
            ElementBody::Void { .. } => Seq::empty(),
            ElementBody::Block { block } => seq![block.span_spec()],
        }
    }
}

impl AttrType {
    /// The span of the value, type or condition that the value part holds.
    pub open spec fn child_spans(self) -> Seq<SpanRange> {
        match self {
            AttrType::Normal { value } => seq![value.span_spec()],
            AttrType::Event { ty } => seq![ty.span_spec()],
            AttrType::Optional { toggler } => seq![toggler.span_spec()],
            AttrType::Empty { toggler } => match toggler {
                Some(t) => seq![t.span_spec()],
                None => Seq::empty(),
            },
        }
    }
}

/// An element's body encloses the span of its block.
pub proof fn lemma_element_body_encloses_children(b: ElementBody)
    ensures
        forall|i: int|
            0 <= i < b.child_spans().len() ==> b.span_spec().encloses(#[trigger] b.child_spans()[i]),
{
}

/// Where the value part of an attribute has a span, it encloses what the
/// value part holds.
pub proof fn lemma_attr_type_encloses_children(t: AttrType)
    ensures
        t.span_spec() matches Some(s) ==> forall|i: int|
            0 <= i < t.child_spans().len() ==> s.encloses(#[trigger] t.child_spans()[i]),
{
}

} // verus!
