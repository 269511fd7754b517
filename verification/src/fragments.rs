//! The fragment model: the nodes of the composed tree. A fragment is a
//! statement (two or more tokens), a single token standing alone between
//! statements, or an encapsulation (a bracketed region, recursively
//! composed into its own sub-tree).

use vstd::prelude::*;
use vstd::string::StringExecFns;
use crate::composer::{BracketType, ComposerContext};
use crate::tokenizer::{stream_view, Token, TokenStream, TokenType, TokenTypeV, Tokenizer};

verus! {

/// An ordered sequence of fragments at one nesting level.
pub type Composition = Vec<Fragment>;

/// The specification-level shape of a fragment: a statement's token texts,
/// a lone token, or a bracketed sub-tree with its bracket kind.
pub ghost enum FragmentV {
    Statement(Seq<TokenTypeV>),
    SingleToken(TokenTypeV),
    Encapsulation(BracketType, Seq<FragmentV>),
}

/// A statement: two or more tokens, for example `let x = 1`.
///
/// Statements do not contain encapsulations: `if (x == 2)` is broken into
/// the statement `if` followed by an encapsulation holding `x == 2`, so
/// the bracketed part can be evaluated on its own.
#[derive(Debug)]
pub struct Statement {
    pub token_stream: TokenStream,
}

/// A lone token which exists between statements and encapsulations, as
/// commonly seen with `else` keywords.
#[derive(Debug)]
pub struct SingleToken {
    pub token: Token,
}

/// A body of statements, single tokens and other encapsulations contained
/// within a bracket such as `()`, `[]` or `{}`.
#[derive(Debug)]
pub struct Encapsulation {
    pub context: ComposerContext,
    pub composition: Composition,
}

/// One node of the composed tree.
#[derive(Debug)]
pub enum Fragment {
    Statement(Statement),
    SingleToken(SingleToken),
    Encapsulation(Encapsulation),
}

/// The bracket kind carried by a composer context.
pub open spec fn bracket_of(context: ComposerContext) -> BracketType {
    match context {
        ComposerContext::Closure(b) => b,
    }
}

/// The view of one fragment.
pub open spec fn fragment_view(f: Fragment) -> FragmentV
    decreases f, 0nat,
{
    match f {
        Fragment::Statement(s) => FragmentV::Statement(stream_view(s.token_stream@)),
        Fragment::SingleToken(s) => FragmentV::SingleToken(s.token@),
        Fragment::Encapsulation(e) => FragmentV::Encapsulation(
            bracket_of(e.context),
            frags_view_from(e.composition@, 0),
        ),
    }
}

/// The views of the fragments of `s` from position `i` onwards.
pub open spec fn frags_view_from(s: Seq<Fragment>, i: int) -> Seq<FragmentV>
    decreases s, s.len() - i,
{
    if i < 0 || i >= s.len() {
        Seq::empty()
    } else {
        seq![fragment_view(s[i])] + frags_view_from(s, i + 1)
    }
}

/// The view of a whole composition.
pub open spec fn frags_view(s: Seq<Fragment>) -> Seq<FragmentV> {
    frags_view_from(s, 0)
}

impl View for Fragment {
    type V = FragmentV;

    open spec fn view(&self) -> FragmentV {
        fragment_view(*self)
    }
}

/// Well-formedness of one fragment: a statement holds two or more tokens
/// (a single token stands as a `SingleToken`, and an empty flush emits
/// nothing), and an encapsulation's body is well-formed throughout.
pub open spec fn frag_wf(f: FragmentV) -> bool
    decreases f, 0nat,
{
    match f {
        FragmentV::Statement(ts) => ts.len() >= 2,
        FragmentV::SingleToken(_) => true,
        FragmentV::Encapsulation(_, body) => comp_wf(body),
    }
}

/// Well-formedness of a whole composition.
pub open spec fn comp_wf(frags: Seq<FragmentV>) -> bool
    decreases frags, frags.len() + 1int,
{
    comp_wf_from(frags, 0)
}

/// Well-formedness of the fragments of `frags` from position `i` onwards.
pub open spec fn comp_wf_from(frags: Seq<FragmentV>, i: int) -> bool
    decreases frags, frags.len() - i,
{
    if i < 0 || i >= frags.len() {
        true
    } else {
        frag_wf(frags[i]) && comp_wf_from(frags, i + 1)
    }
}

proof fn lemma_comp_wf_from_shift(a: Seq<FragmentV>, b: Seq<FragmentV>, k: int)
    requires
        0 <= k <= b.len(),
    ensures
        comp_wf_from(a + b, a.len() + k) == comp_wf_from(b, k),
    decreases b.len() - k,
{
    if k < b.len() {
        assert((a + b)[a.len() + k] == b[k]);
        lemma_comp_wf_from_shift(a, b, k + 1);
    }
}

proof fn lemma_comp_wf_concat_from(a: Seq<FragmentV>, b: Seq<FragmentV>, i: int)
    requires
        0 <= i <= a.len(),
    ensures
        comp_wf_from(a + b, i) == (comp_wf_from(a, i) && comp_wf(b)),
    decreases a.len() - i,
{
    if i < a.len() {
        assert((a + b)[i] == a[i]);
        lemma_comp_wf_concat_from(a, b, i + 1);
    } else {
        lemma_comp_wf_from_shift(a, b, 0);
    }
}

/// A concatenation is well-formed iff both parts are.
pub proof fn lemma_comp_wf_concat(a: Seq<FragmentV>, b: Seq<FragmentV>)
    ensures
        comp_wf(a + b) == (comp_wf(a) && comp_wf(b)),
{
    lemma_comp_wf_concat_from(a, b, 0);
}

pub proof fn lemma_frags_view_from(s: Seq<Fragment>, i: int)
    requires
        0 <= i <= s.len(),
    ensures
        frags_view_from(s, i).len() == s.len() - i,
        forall|j: int| i <= j < s.len() ==> #[trigger] frags_view_from(s, i)[j - i]
            == fragment_view(s[j]),
    decreases s.len() - i,
{
    if i < s.len() {
        lemma_frags_view_from(s, i + 1);
        assert forall|j: int| i <= j < s.len() implies #[trigger] frags_view_from(s, i)[j - i]
            == fragment_view(s[j]) by {
            if j > i {
                assert(frags_view_from(s, i)[j - i] == frags_view_from(s, i + 1)[j - (i + 1)]);
            }
        }
    }
}

/// The view of a composition is the sequence of its fragments' views.
pub proof fn lemma_frags_view(s: Seq<Fragment>)
    ensures
        frags_view(s).len() == s.len(),
        forall|j: int| 0 <= j < s.len() ==> #[trigger] frags_view(s)[j] == fragment_view(s[j]),
{
    lemma_frags_view_from(s, 0);
    assert(forall|j: int| 0 <= j < s.len() ==> #[trigger] frags_view(s)[j] == frags_view_from(
        s,
        0,
    )[j - 0]);
}

/// Pushing a fragment extends the composition's view by that fragment's
/// view.
pub proof fn lemma_frags_view_push(s: Seq<Fragment>, f: Fragment)
    ensures
        frags_view(s.push(f)) == frags_view(s).push(fragment_view(f)),
{
    lemma_frags_view(s);
    lemma_frags_view(s.push(f));
    assert(frags_view(s.push(f)) =~= frags_view(s).push(fragment_view(f)));
}

impl Clone for Fragment {
    /// Cloning a fragment preserves its view: the clone describes the same
    /// tree of statements, lone tokens and encapsulations.
    fn clone(&self) -> (result: Self)
        ensures
            result@ == self@,
        decreases *self,
    {
        match self {
            Fragment::Statement(s) => Fragment::Statement(
                Statement { token_stream: clone_stream(&s.token_stream) },
            ),
            Fragment::SingleToken(s) => Fragment::SingleToken(
                SingleToken { token: s.token.clone() },
            ),
            Fragment::Encapsulation(e) => {
                let len = e.composition.len();
                let mut composition: Composition = Vec::new();
                let mut i: usize = 0;
                while i < len
                    invariant
                        i <= len,
                        len == e.composition@.len(),
                        composition@.len() == i,
                        forall|j: int| 0 <= j < i ==> composition@[j]@ == #[trigger] e.composition@[j]@,
                        *self == Fragment::Encapsulation(*e),
                    decreases len - i,
                {
                    proof {
                        assert(decreases_to!(*self => self->Encapsulation_0));
                        assert(self->Encapsulation_0 == *e);
                        assert(decreases_to!(*e => e.composition));
                        assert(decreases_to!(e.composition => e.composition@));
                        assert(decreases_to!(e.composition@ => e.composition@[i as int]));
                        assert(decreases_to!(*self => e.composition@[i as int]));
                    }
                    let elem = e.composition[i].clone();
                    composition.push(elem);
                    i = i + 1;
                }
                proof {
                    lemma_frags_view(e.composition@);
                    lemma_frags_view(composition@);
                    assert forall|j: int| 0 <= j < composition@.len() implies frags_view(
                        composition@,
                    )[j] == frags_view(e.composition@)[j] by {
                        assert(composition@[j]@ == e.composition@[j]@);
                    }
                    assert(frags_view(composition@) =~= frags_view(e.composition@));
                }
                Fragment::Encapsulation(
                    Encapsulation { context: e.context, composition },
                )
            },
        }
    }
}

/// Copy a token stream; the copy has the same tokens.
pub(crate) fn clone_stream(stream: &TokenStream) -> (result: TokenStream)
    ensures
        result@ == stream@,
{
    let copy = stream.clone();
    proof {
        assert(copy@ =~= stream@);
    }
    copy
}

// ------------------------------------------------------------------
// Debug rendering
// ------------------------------------------------------------------

/// The rendering of one token inside a statement's debug line.
pub open spec fn token_inline_text(t: TokenTypeV) -> Seq<char> {
    match t {
        TokenTypeV::Literal(a) => "Literal("@ + a + ")"@,
        TokenTypeV::Operator(a) => a,
        TokenTypeV::Keyword(a) => a,
        TokenTypeV::Identifier(a) => "Identifier"@ + a,
        TokenTypeV::Punctuator(c) => "Punctuator("@ + seq![c] + ")"@,
    }
}

/// The rendering of a statement's first `i` tokens: space separated,
/// except that no separator follows a still-empty rendering.
pub open spec fn tokens_text(ts: Seq<TokenTypeV>, i: int) -> Seq<char>
    decreases i,
{
    if i <= 0 {
        Seq::empty()
    } else {
        let before = tokens_text(ts, i - 1);
        let sep: Seq<char> = if before.len() == 0 {
            Seq::empty()
        } else {
            " "@
        };
        before + sep + token_inline_text(ts[i - 1])
    }
}

/// The debug text of a lone token: its variant name and its text.
pub open spec fn token_debug_text(t: TokenTypeV) -> Seq<char> {
    match t {
        TokenTypeV::Keyword(a) => "Keyword("@ + a + ")"@,
        TokenTypeV::Identifier(a) => "Identifier("@ + a + ")"@,
        TokenTypeV::Punctuator(c) => "Punctuator("@ + seq![c] + ")"@,
        TokenTypeV::Operator(a) => "Operator("@ + a + ")"@,
        TokenTypeV::Literal(a) => "Literal("@ + a + ")"@,
    }
}

/// The debug text of a fragment.
pub open spec fn frag_debug_text(f: FragmentV) -> Seq<char>
    decreases f, 0int,
{
    match f {
        FragmentV::Statement(ts) => "Statement: "@ + tokens_text(ts, ts.len() as int),
        FragmentV::SingleToken(t) => token_debug_text(t),
        FragmentV::Encapsulation(_, body) => "Encapsulation: ["@ + comp_debug_text(
            body,
            body.len() as int,
        ) + "]"@,
    }
}

/// The debug texts of the first `i` fragments of a composition, comma
/// separated.
pub open spec fn comp_debug_text(frags: Seq<FragmentV>, i: int) -> Seq<char>
    decreases frags, i,
{
    if i <= 0 || i > frags.len() {
        Seq::empty()
    } else {
        let before = comp_debug_text(frags, i - 1);
        let sep: Seq<char> = if i == 1 {
            Seq::empty()
        } else {
            ", "@
        };
        before + sep + frag_debug_text(frags[i - 1])
    }
}

/// Append the inline rendering of one token.
fn append_token_inline(out: &mut String, token: &Token)
    ensures
        final(out)@ == old(out)@ + token_inline_text(token@),
{
    let ghost pre = out@;
    match &token.token_type {
        TokenType::Literal(a) => {
            out.append("Literal(");
            out.append(a.as_str());
            out.append(")");
            proof {
                assert(out@ =~= pre + token_inline_text(token@));
            }
        },
        TokenType::Operator(a) => {
            out.append(a.as_str());
        },
        TokenType::Keyword(a) => {
            out.append(a.as_str());
        },
        TokenType::Identifier(a) => {
            out.append("Identifier");
            out.append(a.as_str());
            proof {
                assert(out@ =~= pre + token_inline_text(token@));
            }
        },
        TokenType::Punctuator(c) => {
            out.append("Punctuator(");
            Tokenizer::push_char(out, *c);
            out.append(")");
            proof {
                assert(out@ =~= pre + token_inline_text(token@));
            }
        },
    }
}

/// Append the debug rendering of one token.
fn append_token_debug(out: &mut String, token: &Token)
    ensures
        final(out)@ == old(out)@ + token_debug_text(token@),
{
    let ghost pre = out@;
    match &token.token_type {
        TokenType::Keyword(a) => {
            out.append("Keyword(");
            out.append(a.as_str());
            out.append(")");
            proof {
                assert(out@ =~= pre + token_debug_text(token@));
            }
        },
        TokenType::Identifier(a) => {
            out.append("Identifier(");
            out.append(a.as_str());
            out.append(")");
            proof {
                assert(out@ =~= pre + token_debug_text(token@));
            }
        },
        TokenType::Punctuator(c) => {
            out.append("Punctuator(");
            Tokenizer::push_char(out, *c);
            out.append(")");
            proof {
                assert(out@ =~= pre + token_debug_text(token@));
            }
        },
        TokenType::Operator(a) => {
            out.append("Operator(");
            out.append(a.as_str());
            out.append(")");
            proof {
                assert(out@ =~= pre + token_debug_text(token@));
            }
        },
        TokenType::Literal(a) => {
            out.append("Literal(");
            out.append(a.as_str());
            out.append(")");
            proof {
                assert(out@ =~= pre + token_debug_text(token@));
            }
        },
    }
}

impl Fragment {
    /// Render this fragment as one debug line: a statement's tokens space
    /// separated, a lone token with its variant name, an encapsulation
    /// with the renderings of its body between brackets.
    pub fn debug(&self) -> (result: String)
        ensures
            result@ == frag_debug_text(self@),
        decreases *self,
    {
        match self {
            Fragment::Statement(s) => {
                let n = s.token_stream.len();
                let mut body = String::new();
                let mut i: usize = 0;
                while i < n
                    invariant
                        i <= n,
                        n == s.token_stream@.len(),
                        body@ == tokens_text(stream_view(s.token_stream@), i as int),
                    decreases n - i,
                {
                    let ghost pre = body@;
                    if !body.as_str().is_empty() {
                        body.append(" ");
                    }
                    append_token_inline(&mut body, &s.token_stream[i]);
                    proof {
                        crate::composer::lemma_stream_view_index(s.token_stream@, i as int);
                        if pre.len() == 0 {
                            assert(body@ =~= tokens_text(
                                stream_view(s.token_stream@),
                                i + 1,
                            ));
                        } else {
                            assert(body@ =~= tokens_text(
                                stream_view(s.token_stream@),
                                i + 1,
                            ));
                        }
                    }
                    i = i + 1;
                }
                let mut result = "Statement: ".to_owned();
                result.append(body.as_str());
                result
            },
            Fragment::SingleToken(s) => {
                let mut result = String::new();
                append_token_debug(&mut result, &s.token);
                proof {
                    assert(result@ =~= token_debug_text(s.token@));
                }
                result
            },
            Fragment::Encapsulation(e) => {
                let n = e.composition.len();
                let mut body = String::new();
                let mut i: usize = 0;
                while i < n
                    invariant
                        i <= n,
                        n == e.composition@.len(),
                        body@ == comp_debug_text(
                            frags_view(e.composition@),
                            i as int,
                        ),
                        *self == Fragment::Encapsulation(*e),
                    decreases n - i,
                {
                    let ghost pre = body@;
                    if i > 0 {
                        body.append(", ");
                    }
                    proof {
                        assert(decreases_to!(*self => self->Encapsulation_0));
                        assert(self->Encapsulation_0 == *e);
                        assert(decreases_to!(*e => e.composition));
                        assert(decreases_to!(e.composition => e.composition@));
                        assert(decreases_to!(e.composition@ => e.composition@[i as int]));
                        assert(decreases_to!(*self => e.composition@[i as int]));
                    }
                    let part = e.composition[i].debug();
                    body.append(part.as_str());
                    proof {
                        lemma_frags_view(e.composition@);
                        assert(frags_view(e.composition@)[i as int] == e.composition@[i as int]@);
                        assert(body@ =~= comp_debug_text(frags_view(e.composition@), i + 1));
                    }
                    i = i + 1;
                }
                let mut result = "Encapsulation: [".to_owned();
                result.append(body.as_str());
                result.append("]");
                proof {
                    lemma_frags_view(e.composition@);
                    assert(result@ =~= frag_debug_text(fragment_view(*self)));
                }
                result
            },
        }
    }

    /// The type tag of this fragment.
    pub fn get_type(&self) -> (result: &'static str)
        ensures
            self@ is Statement ==> result@ == "statement"@,
            self@ is SingleToken ==> result@ == "single_token"@,
            self@ is Encapsulation ==> result@ == "block"@,
    {
        match self {
            Fragment::Statement(_) => "statement",
            Fragment::SingleToken(_) => "single_token",
            Fragment::Encapsulation(_) => "block",
        }
    }

    /// The bracket context of an encapsulation; `None` for the other
    /// fragments.
    pub fn get_context(&self) -> (result: Option<ComposerContext>)
        ensures
            match self@ {
                FragmentV::Encapsulation(b, _) => result == Some(ComposerContext::Closure(b)),
                _ => result is None,
            },
    {
        match self {
            Fragment::Encapsulation(e) => Some(e.context),
            _ => None,
        }
    }

    /// The lone token of a single-token fragment; `None` for the other
    /// fragments.
    pub fn get_token(&self) -> (result: Option<Token>)
        ensures
            match self@ {
                FragmentV::SingleToken(t) => result matches Some(tok) && tok@ == t,
                _ => result is None,
            },
    {
        match self {
            Fragment::SingleToken(s) => Some(s.token.clone()),
            _ => None,
        }
    }

    /// The flat token sequence of a statement; empty for the other
    /// fragments.
    pub fn get_tokens(&self) -> (result: TokenStream)
        ensures
            match self@ {
                FragmentV::Statement(ts) => stream_view(result@) == ts,
                _ => result@ == Seq::<Token>::empty(),
            },
    {
        match self {
            Fragment::Statement(s) => clone_stream(&s.token_stream),
            _ => Vec::new(),
        }
    }

    /// The nested composition of an encapsulation; `None` for the other
    /// fragments.
    pub fn get_fragments(&self) -> (result: Option<Composition>)
        ensures
            match self@ {
                FragmentV::Encapsulation(_, body) => result matches Some(c) && frags_view(c@)
                    == body,
                _ => result is None,
            },
    {
        match self {
            Fragment::Encapsulation(e) => {
                let copy = clone_composition(&e.composition);
                Some(copy)
            },
            _ => None,
        }
    }
}

/// Copy a composition; the copy has the same view.
fn clone_composition(composition: &Composition) -> (result: Composition)
    ensures
        frags_view(result@) == frags_view(composition@),
{
    let copy = composition.clone();
    proof {
        lemma_frags_view(composition@);
        lemma_frags_view(copy@);
        assert(frags_view(copy@) =~= frags_view(composition@));
    }
    copy
}

} // verus!
