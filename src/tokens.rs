//! Runs of source tokens: the opaque text that nodes of the tree wrap.

use crate::span::{join_all, join_ranges, SpanRange};
use vstd::prelude::*;
use vstd::string::StringExecFns;

verus! {

/// One source token: its text as written, and the source range it occupies.
#[derive(Clone, Debug)]
pub struct Token {
    pub text: String,
    pub span: SpanRange,
}

/// An ordered run of source tokens.
#[derive(Clone, Debug)]
pub struct TokenRun {
    pub tokens: Vec<Token>,
}

/// The text of a sequence of tokens, concatenated with nothing between them.
pub open spec fn concat_texts(tokens: Seq<Token>) -> Seq<char>
    decreases tokens.len(),
{
    if tokens.len() == 0 {
        Seq::empty()
    } else {
        concat_texts(tokens.drop_last()) + tokens.last().text@
    }
}

impl TokenRun {
    /// The spans of the tokens, in order.
    pub open spec fn token_spans(self) -> Seq<SpanRange> {
        self.tokens@.map_values(|t: Token| t.span)
    }

    /// The span of the run: its first token joined with its last, or the
    /// sentinel when the run is empty.
    pub open spec fn span_spec(self) -> SpanRange {
        join_all(self.token_spans())
    }

    /// The source text of the run.
    pub open spec fn text(self) -> Seq<char> {
        concat_texts(self.tokens@)
    }
}

/// The span of a run of tokens: the sentinel for an empty run, else the join
/// of its first and last token's spans.
pub fn span_tokens(tokens: &TokenRun) -> (r: SpanRange)
    ensures
        r == tokens.span_spec(),
        tokens.tokens@.len() == 0 ==> r is CallSite,
        tokens.tokens@.len() > 0 ==> r == tokens.tokens@[0].span.join_spec(
            tokens.tokens@.last().span,
        ),
{
    let mut spans: Vec<SpanRange> = Vec::new();
    let mut i: usize = 0;
    while i < tokens.tokens.len()
        invariant
            i <= tokens.tokens@.len(),
            spans@ == tokens.token_spans().take(i as int),
        decreases tokens.tokens@.len() - i,
    {
        spans.push(tokens.tokens[i].span);
        i = i + 1;
        assert(spans@ =~= tokens.token_spans().take(i as int));
    }
    assert(spans@ =~= tokens.token_spans());
    join_ranges(&spans)
}

/// Renders a run of tokens back into text, each token's text after the
/// previous one, nothing added or dropped.
pub fn name_to_string(name: &TokenRun) -> (r: String)
    ensures
        r@ == name.text(),
{
    let mut out = String::new();
    let mut i: usize = 0;
    while i < name.tokens.len()
        invariant
            i <= name.tokens@.len(),
            out@ == concat_texts(name.tokens@.take(i as int)),
        decreases name.tokens@.len() - i,
    {
        out.append(name.tokens[i].text.as_str());
        proof {
            assert(name.tokens@.take(i + 1).drop_last() =~= name.tokens@.take(i as int));
        }
        i = i + 1;
    }
    assert(name.tokens@.take(i as int) =~= name.tokens@);
    out
}

/// The text of two runs placed one after the other is the text of the
/// first followed by the text of the second, however the tokens are split.
pub proof fn lemma_text_of_append(a: Seq<Token>, b: Seq<Token>)
    ensures
        concat_texts(a + b) == concat_texts(a) + concat_texts(b),
    decreases b.len(),
{
    if b.len() == 0 {
        assert(a + b =~= a);
        assert(concat_texts(a) + concat_texts(b) =~= concat_texts(a));
    } else {
        assert((a + b).drop_last() =~= a + b.drop_last());
        lemma_text_of_append(a, b.drop_last());
        assert(concat_texts(a + b) =~= concat_texts(a) + concat_texts(b));
    }
}

/// The text of a run has as many characters as its tokens' texts together.
pub proof fn lemma_text_len(tokens: Seq<Token>)
    ensures
        concat_texts(tokens).len() == tokens.fold_left(0int, |n: int, t: Token| n + t.text@.len()),
    decreases tokens.len(),
{
    if tokens.len() > 0 {
        lemma_text_len(tokens.drop_last());
    }
}

} // verus!
