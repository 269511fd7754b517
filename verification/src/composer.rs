//! The composer: a recursive, single-pass grouping over a token stream.
//! Statement terminators flush the accumulated tokens into fragments,
//! brackets open nested regions that are recursively composed into
//! encapsulations, and anything left at the end is flushed as a trailing
//! fragment.

use vstd::prelude::*;
use vstd::pervasive::unreached;
use crate::langdef::LanguageDefinition;
use crate::tokenizer::{stream_view, Token, TokenStream, TokenType, TokenTypeV};

pub use crate::fragments::{Composition, Encapsulation, Fragment, SingleToken, Statement};
use crate::fragments::{
    bracket_of, comp_wf, comp_wf_from, frags_view, lemma_comp_wf_concat, FragmentV,
};

verus! {

/// A context the composer can be inside while iterating over the stream:
/// a bracketed region of the given kind.
#[derive(Debug, Clone, Copy, PartialEq, Eq, Structural)]
pub enum ComposerContext {
    Closure(BracketType),
}

/// The kind of a bracket: square, curly or parenthetical.
#[derive(Debug, Clone, Copy, PartialEq, Eq, Structural)]
pub enum BracketType {
    Square,
    Curly,
    Parenthetical,
}

/// The struct used to access the composing functions.
#[derive(Debug, Clone, Copy)]
pub struct Composer;

// ------------------------------------------------------------------
// The composer as a specification-level recursion
// ------------------------------------------------------------------

/// An opening bracket token.
pub open spec fn is_opener(t: TokenTypeV) -> bool {
    t == TokenTypeV::Punctuator('{') || t == TokenTypeV::Punctuator('(') || t
        == TokenTypeV::Punctuator('[')
}

/// A closing bracket token.
pub open spec fn is_closer(t: TokenTypeV) -> bool {
    t == TokenTypeV::Punctuator('}') || t == TokenTypeV::Punctuator(')') || t
        == TokenTypeV::Punctuator(']')
}

/// The bracket kind of a bracket character.
pub open spec fn bracket_kind(c: char) -> BracketType {
    if c == '{' || c == '}' {
        BracketType::Curly
    } else if c == '(' || c == ')' {
        BracketType::Parenthetical
    } else {
        BracketType::Square
    }
}

/// The bracket kind of a bracket token.
pub open spec fn token_bracket(t: TokenTypeV) -> BracketType {
    match t {
        TokenTypeV::Punctuator(c) => bracket_kind(c),
        _ => BracketType::Square,
    }
}

/// The position of the closing bracket that ends the region being scanned
/// from position `j` at nesting depth `depth`: brackets are depth-counted,
/// not shape-matched against the specific bracket character.
pub open spec fn find_close(s: Seq<TokenTypeV>, j: int, depth: nat) -> Option<int>
    decreases s.len() - j,
{
    if j < 0 || j >= s.len() {
        None
    } else if is_closer(s[j]) && depth == 0 {
        Some(j)
    } else if is_opener(s[j]) {
        find_close(s, j + 1, depth + 1)
    } else if is_closer(s[j]) {
        find_close(s, j + 1, (depth - 1) as nat)
    } else {
        find_close(s, j + 1, depth)
    }
}

pub proof fn lemma_find_close_range(s: Seq<TokenTypeV>, j: int, depth: nat, m: int)
    requires
        find_close(s, j, depth) == Some(m),
    ensures
        j <= m < s.len(),
        is_closer(s[m]),
    decreases s.len() - j,
{
    if 0 <= j < s.len() {
        if is_closer(s[j]) && depth == 0 {
        } else if is_opener(s[j]) {
            lemma_find_close_range(s, j + 1, depth + 1, m);
        } else if is_closer(s[j]) {
            lemma_find_close_range(s, j + 1, (depth - 1) as nat, m);
        } else {
            lemma_find_close_range(s, j + 1, depth, m);
        }
    }
}

/// How a flushed token buffer becomes fragments: nothing for an empty
/// buffer, a lone token, or a statement of two or more tokens.
pub open spec fn flush_frag(buf: Seq<TokenTypeV>) -> Seq<FragmentV> {
    if buf.len() == 0 {
        Seq::empty()
    } else if buf.len() == 1 {
        seq![FragmentV::SingleToken(buf[0])]
    } else {
        seq![FragmentV::Statement(buf)]
    }
}

/// The composition produced for a whole token sequence.
pub open spec fn spec_compose(s: Seq<TokenTypeV>) -> Seq<FragmentV>
    decreases s.len(), s.len() + 1int,
{
    compose_from(s, 0, Seq::empty())
}

/// The composition produced from position `i` onwards, with `buf` already
/// accumulated at the top of the current nesting layer.
pub open spec fn compose_from(s: Seq<TokenTypeV>, i: int, buf: Seq<TokenTypeV>) -> Seq<FragmentV>
    decreases s.len(), s.len() - i,
    via compose_from_decreases
{
    if i < 0 || i >= s.len() {
        flush_frag(buf)
    } else {
        let t = s[i];
        if t == TokenTypeV::Punctuator(';') {
            flush_frag(buf) + compose_from(s, i + 1, Seq::empty())
        } else if is_opener(t) {
            match find_close(s, i + 1, 0) {
                Some(m) => flush_frag(buf) + seq![
                    FragmentV::Encapsulation(token_bracket(t), spec_compose(s.subrange(i + 1, m))),
                ] + compose_from(s, m + 1, Seq::empty()),
                None => flush_frag(buf) + flush_frag(s.subrange(i + 1, s.len() as int)),
            }
        } else {
            compose_from(s, i + 1, buf.push(t))
        }
    }
}

#[via_fn]
proof fn compose_from_decreases(s: Seq<TokenTypeV>, i: int, buf: Seq<TokenTypeV>) {
    if 0 <= i < s.len() && is_opener(s[i]) {
        match find_close(s, i + 1, 0) {
            Some(m) => {
                lemma_find_close_range(s, i + 1, 0, m);
            },
            None => {},
        }
    }
}

/// What still follows in the enclosing layer once an opener at position
/// `p` has switched the composer into a bracket context: the encapsulation
/// itself and the rest of the layer if the region is closed, or the raw
/// tail flushed as a trailing fragment if it never is.
pub open spec fn encap_cont(s: Seq<TokenTypeV>, p: int) -> Seq<FragmentV> {
    match find_close(s, p + 1, 0) {
        Some(m) => seq![
            FragmentV::Encapsulation(token_bracket(s[p]), spec_compose(s.subrange(p + 1, m))),
        ] + compose_from(s, m + 1, Seq::empty()),
        None => flush_frag(s.subrange(p + 1, s.len() as int)),
    }
}

pub proof fn lemma_stream_view_index(s: Seq<Token>, i: int)
    requires
        0 <= i < s.len(),
    ensures
        stream_view(s).len() == s.len(),
        stream_view(s)[i] == s[i]@,
{
}

// ------------------------------------------------------------------
// Laws of the composer
// ------------------------------------------------------------------

/// A structural token: a terminator or a bracket. In depth-balanced input
/// these are consumed by the tree's structure; every other token is
/// payload.
pub open spec fn is_structural(t: TokenTypeV) -> bool {
    t == TokenTypeV::Punctuator(';') || is_opener(t) || is_closer(t)
}

/// The bracket count change of one token.
pub open spec fn bracket_delta(t: TokenTypeV) -> int {
    if is_opener(t) {
        1
    } else if is_closer(t) {
        -1
    } else {
        0
    }
}

/// The sum of bracket count changes over positions `[i, j)`.
pub open spec fn depth_sum(s: Seq<TokenTypeV>, i: int, j: int) -> int
    decreases j - i,
{
    if i >= j || i < 0 || i >= s.len() {
        0
    } else {
        bracket_delta(s[i]) + depth_sum(s, i + 1, j)
    }
}

/// Depth-balanced input from position `i` on: the running bracket count
/// never goes negative and ends at zero. Brackets are depth-counted, never
/// shape-matched, so `(x]` is balanced here just as the composer treats it.
pub open spec fn depth_balanced_from(s: Seq<TokenTypeV>, i: int) -> bool {
    &&& forall|j: int| i <= j <= s.len() ==> depth_sum(s, i, j) >= 0
    &&& depth_sum(s, i, s.len() as int) == 0
}

/// Depth-balanced input.
pub open spec fn depth_balanced(s: Seq<TokenTypeV>) -> bool {
    depth_balanced_from(s, 0)
}

/// The payload of one fragment: a statement's tokens, a lone token, or
/// everything an encapsulation's body carries.
pub open spec fn frag_payload(f: FragmentV) -> Seq<TokenTypeV>
    decreases f, 0nat,
{
    match f {
        FragmentV::Statement(ts) => ts,
        FragmentV::SingleToken(t) => seq![t],
        FragmentV::Encapsulation(_, body) => tree_payload(body),
    }
}

/// Every token carried by a composed tree, depth first, in order.
pub open spec fn tree_payload(frags: Seq<FragmentV>) -> Seq<TokenTypeV>
    decreases frags, frags.len() + 1int,
{
    payload_from(frags, 0)
}

/// The payload of the fragments of `frags` from position `i` onwards.
pub open spec fn payload_from(frags: Seq<FragmentV>, i: int) -> Seq<TokenTypeV>
    decreases frags, frags.len() - i,
{
    if i < 0 || i >= frags.len() {
        Seq::empty()
    } else {
        frag_payload(frags[i]) + payload_from(frags, i + 1)
    }
}

proof fn lemma_payload_from_shift(a: Seq<FragmentV>, b: Seq<FragmentV>, k: int)
    requires
        0 <= k <= b.len(),
    ensures
        payload_from(a + b, a.len() + k) == payload_from(b, k),
    decreases b.len() - k,
{
    if k < b.len() {
        assert((a + b)[a.len() + k] == b[k]);
        lemma_payload_from_shift(a, b, k + 1);
    }
}

proof fn lemma_payload_concat_from(a: Seq<FragmentV>, b: Seq<FragmentV>, i: int)
    requires
        0 <= i <= a.len(),
    ensures
        payload_from(a + b, i) == payload_from(a, i) + payload_from(b, 0),
    decreases a.len() - i,
{
    if i < a.len() {
        assert((a + b)[i] == a[i]);
        lemma_payload_concat_from(a, b, i + 1);
        assert(frag_payload(a[i]) + (payload_from(a, i + 1) + payload_from(b, 0)) =~= (frag_payload(
            a[i],
        ) + payload_from(a, i + 1)) + payload_from(b, 0));
    } else {
        lemma_payload_from_shift(a, b, 0);
        assert(payload_from(a, i) + payload_from(b, 0) =~= payload_from(b, 0));
    }
}

/// The payload of a concatenation is the concatenation of the payloads.
pub proof fn lemma_payload_concat(a: Seq<FragmentV>, b: Seq<FragmentV>)
    ensures
        tree_payload(a + b) == tree_payload(a) + tree_payload(b),
{
    lemma_payload_concat_from(a, b, 0);
}

/// A flushed buffer carries exactly its tokens, whichever fragment shape
/// the flush produced.
pub proof fn lemma_payload_flush(buf: Seq<TokenTypeV>)
    ensures
        tree_payload(flush_frag(buf)) == buf,
{
    if buf.len() == 0 {
        assert(tree_payload(flush_frag(buf)) =~= buf);
    } else if buf.len() == 1 {
        assert(payload_from(flush_frag(buf), 0) == frag_payload(FragmentV::SingleToken(buf[0]))
            + payload_from(flush_frag(buf), 1));
        assert(tree_payload(flush_frag(buf)) =~= buf);
    } else {
        assert(payload_from(flush_frag(buf), 0) == frag_payload(FragmentV::Statement(buf))
            + payload_from(flush_frag(buf), 1));
        assert(tree_payload(flush_frag(buf)) =~= buf);
    }
}

proof fn lemma_depth_sum_split(s: Seq<TokenTypeV>, i: int, j: int, k: int)
    requires
        0 <= i <= j <= k,
    ensures
        depth_sum(s, i, k) == depth_sum(s, i, j) + depth_sum(s, j, k),
    decreases j - i,
{
    if i < j {
        lemma_depth_sum_split(s, i + 1, j, k);
    } else {
        // i == j
        if i >= s.len() {
            lemma_depth_sum_out(s, i, k);
        }
    }
}

proof fn lemma_depth_sum_out(s: Seq<TokenTypeV>, i: int, j: int)
    requires
        i >= s.len() || i < 0,
    ensures
        depth_sum(s, i, j) == 0,
    decreases j - i,
{
    if i < j && i >= s.len() {
        lemma_depth_sum_out(s, i + 1, j);
    }
}

proof fn lemma_depth_sum_subrange(s: Seq<TokenTypeV>, a: int, b: int, i: int, j: int)
    requires
        0 <= a <= b <= s.len(),
        0 <= i <= j <= b - a,
    ensures
        depth_sum(s.subrange(a, b), i, j) == depth_sum(s, a + i, a + j),
    decreases j - i,
{
    if i < j {
        assert(s.subrange(a, b)[i] == s[a + i]);
        lemma_depth_sum_subrange(s, a, b, i + 1, j);
    }
}

/// Where the running depth eventually crosses below zero, the search for
/// the closing bracket succeeds: it lands on a closer at depth zero, with
/// the depth nonnegative everywhere on the way.
proof fn lemma_find_close_some(s: Seq<TokenTypeV>, j0: int, d: nat)
    requires
        0 <= j0 <= s.len(),
        d + depth_sum(s, j0, s.len() as int) < 0,
    ensures
        ({
            let r = find_close(s, j0, d);
            &&& r is Some
            &&& j0 <= r->Some_0 < s.len()
            &&& is_closer(s[r->Some_0])
            &&& d + depth_sum(s, j0, r->Some_0) == 0
            &&& forall|j: int| j0 <= j <= r->Some_0 ==> d + depth_sum(s, j0, j) >= 0
        }),
    decreases s.len() - j0,
{
    if j0 < s.len() {
        let t = s[j0];
        if is_closer(t) && d == 0 {
            assert(depth_sum(s, j0, j0) == 0);
        } else if is_opener(t) {
            lemma_find_close_some(s, j0 + 1, d + 1);
            let m = find_close(s, j0 + 1, (d + 1) as nat)->Some_0;
            assert forall|j: int| j0 <= j <= m implies d + #[trigger] depth_sum(s, j0, j) >= 0 by {
                if j > j0 {
                    assert(d + 1 + depth_sum(s, j0 + 1, j) >= 0);
                }
            }
        } else if is_closer(t) {
            lemma_find_close_some(s, j0 + 1, (d - 1) as nat);
            let m = find_close(s, j0 + 1, (d - 1) as nat)->Some_0;
            assert forall|j: int| j0 <= j <= m implies d + #[trigger] depth_sum(s, j0, j) >= 0 by {
                if j > j0 {
                    assert((d - 1) + depth_sum(s, j0 + 1, j) >= 0);
                }
            }
        } else {
            lemma_find_close_some(s, j0 + 1, d);
            let m = find_close(s, j0 + 1, d)->Some_0;
            assert forall|j: int| j0 <= j <= m implies d + #[trigger] depth_sum(s, j0, j) >= 0 by {
                if j > j0 {
                    assert(d + depth_sum(s, j0 + 1, j) >= 0);
                }
            }
        }
    }
}

proof fn lemma_filter_one(t: TokenTypeV, pred: spec_fn(TokenTypeV) -> bool)
    ensures
        seq![t].filter(pred) == (if pred(t) {
            seq![t]
        } else {
            Seq::<TokenTypeV>::empty()
        }),
{
    reveal_with_fuel(Seq::filter, 2);
    assert(seq![t].drop_last() =~= Seq::<TokenTypeV>::empty());
    if pred(t) {
        assert(seq![t].filter(pred) =~= seq![t]);
    } else {
        assert(seq![t].filter(pred) =~= Seq::<TokenTypeV>::empty());
    }
}

/// The predicate selecting payload tokens.
pub open spec fn non_structural() -> spec_fn(TokenTypeV) -> bool {
    |t: TokenTypeV| !is_structural(t)
}

proof fn lemma_compose_from_payload(s: Seq<TokenTypeV>, i: int, buf: Seq<TokenTypeV>)
    requires
        0 <= i <= s.len(),
        depth_balanced_from(s, i),
    ensures
        tree_payload(compose_from(s, i, buf)) == buf + s.subrange(i, s.len() as int).filter(
            non_structural(),
        ),
    decreases s.len(), s.len() - i,
{
    let len = s.len() as int;
    let pred = non_structural();
    if i >= len {
        lemma_payload_flush(buf);
        assert(compose_from(s, i, buf) == flush_frag(buf));
        assert(s.subrange(i, len) =~= Seq::<TokenTypeV>::empty());
        reveal_with_fuel(Seq::filter, 1);
        assert(buf + s.subrange(i, len).filter(pred) =~= buf);
    } else {
        let t = s[i];
        assert(depth_sum(s, i, i + 1) == bracket_delta(t)) by {
            lemma_depth_sum_split(s, i + 1, i + 1, i + 1);
        }
        assert(bracket_delta(t) >= 0);
        assert(s.subrange(i, len) =~= seq![t] + s.subrange(i + 1, len));
        lemma_filter_one(t, pred);
        if t == TokenTypeV::Punctuator(';') {
            assert forall|j: int| i + 1 <= j <= len implies #[trigger] depth_sum(s, i + 1, j) >= 0 by {
                assert(depth_sum(s, i, j) == bracket_delta(t) + depth_sum(s, i + 1, j));
            }
            lemma_compose_from_payload(s, i + 1, Seq::empty());
            lemma_payload_concat(flush_frag(buf), compose_from(s, i + 1, Seq::empty()));
            lemma_payload_flush(buf);
            assert(seq![t].filter(pred) + s.subrange(i + 1, len).filter(pred) =~= s.subrange(
                i + 1,
                len,
            ).filter(pred));
            assert(buf + (Seq::<TokenTypeV>::empty() + s.subrange(i + 1, len).filter(pred)) =~= buf
                + s.subrange(i, len).filter(pred));
        } else if is_opener(t) {
            assert(depth_sum(s, i, len) == 1 + depth_sum(s, i + 1, len));
            lemma_find_close_some(s, i + 1, 0);
            let m = find_close(s, i + 1, 0)->Some_0;
            let sub = s.subrange(i + 1, m);
            // The inner region is depth-balanced.
            assert forall|j: int| 0 <= j <= sub.len() implies #[trigger] depth_sum(sub, 0, j) >= 0 by {
                lemma_depth_sum_subrange(s, i + 1, m, 0, j);
            }
            assert(depth_sum(sub, 0, sub.len() as int) == 0) by {
                lemma_depth_sum_subrange(s, i + 1, m, 0, sub.len() as int);
            }
            lemma_compose_from_payload(sub, 0, Seq::empty());
            assert(tree_payload(spec_compose(sub)) == sub.filter(pred)) by {
                assert(sub.subrange(0, sub.len() as int) =~= sub);
                assert(Seq::<TokenTypeV>::empty() + sub.filter(pred) =~= sub.filter(pred));
            }
            // The region after the closer is depth-balanced.
            assert forall|j: int| m + 1 <= j <= len implies #[trigger] depth_sum(s, m + 1, j) >= 0 by {
                assert(depth_sum(s, i, j) >= 0);
                assert(depth_sum(s, i, j) == bracket_delta(t) + depth_sum(s, i + 1, j));
                lemma_depth_sum_split(s, i + 1, m, j);
                assert(depth_sum(s, m, j) == bracket_delta(s[m]) + depth_sum(s, m + 1, j));
            }
            assert(depth_sum(s, m + 1, len) == 0) by {
                lemma_depth_sum_split(s, i + 1, m, len);
                lemma_depth_sum_split(s, m, m + 1, len);
                assert(depth_sum(s, m, len) == bracket_delta(s[m]) + depth_sum(s, m + 1, len));
                assert(depth_sum(s, i, len) == 1 + depth_sum(s, i + 1, len));
                assert(depth_sum(s, i + 1, len) == depth_sum(s, i + 1, m) + depth_sum(s, m, len));
            }
            lemma_compose_from_payload(s, m + 1, Seq::empty());
            // Assemble the payload of the three parts.
            let enc = seq![
                FragmentV::Encapsulation(token_bracket(t), spec_compose(sub)),
            ];
            let rest = compose_from(s, m + 1, Seq::<TokenTypeV>::empty());
            assert(compose_from(s, i, buf) == flush_frag(buf) + enc + rest);
            lemma_payload_concat(flush_frag(buf) + enc, rest);
            lemma_payload_concat(flush_frag(buf), enc);
            lemma_payload_flush(buf);
            assert(tree_payload(enc) == frag_payload(enc[0]) + payload_from(enc, 1));
            assert(tree_payload(enc) =~= sub.filter(pred));
            // The filtered input splits the same way.
            assert(s.subrange(i, len) =~= seq![t] + sub + seq![s[m]] + s.subrange(m + 1, len));
            lemma_filter_one(s[m], pred);
            assert(s.subrange(i, len).filter(pred) =~= sub.filter(pred) + s.subrange(
                m + 1,
                len,
            ).filter(pred));
            assert(tree_payload(compose_from(s, i, buf)) =~= buf + s.subrange(i, len).filter(
                pred,
            ));
        } else {
            assert(!is_closer(t));
            assert(!is_structural(t));
            assert forall|j: int| i + 1 <= j <= len implies #[trigger] depth_sum(s, i + 1, j) >= 0 by {
                assert(depth_sum(s, i, j) == bracket_delta(t) + depth_sum(s, i + 1, j));
            }
            lemma_compose_from_payload(s, i + 1, buf.push(t));
            assert(buf.push(t) + s.subrange(i + 1, len).filter(pred) =~= buf + s.subrange(
                i,
                len,
            ).filter(pred));
        }
    }
}

proof fn lemma_compose_from_wf(s: Seq<TokenTypeV>, i: int, buf: Seq<TokenTypeV>)
    requires
        0 <= i,
    ensures
        comp_wf(compose_from(s, i, buf)),
    decreases s.len(), s.len() - i,
{
    if i >= s.len() {
        lemma_flush_frag_wf(buf);
    } else {
        let t = s[i];
        if t == TokenTypeV::Punctuator(';') {
            lemma_flush_frag_wf(buf);
            lemma_compose_from_wf(s, i + 1, Seq::empty());
            lemma_comp_wf_concat(flush_frag(buf), compose_from(s, i + 1, Seq::empty()));
        } else if is_opener(t) {
            match find_close(s, i + 1, 0) {
                Some(m) => {
                    lemma_find_close_range(s, i + 1, 0, m);
                    let sub = s.subrange(i + 1, m);
                    lemma_compose_from_wf(sub, 0, Seq::empty());
                    let enc = seq![
                        FragmentV::Encapsulation(token_bracket(t), spec_compose(sub)),
                    ];
                    assert(comp_wf(enc)) by {
                        assert(comp_wf_from(enc, 1));
                    }
                    lemma_flush_frag_wf(buf);
                    lemma_comp_wf_concat(flush_frag(buf), enc);
                    lemma_compose_from_wf(s, m + 1, Seq::empty());
                    lemma_comp_wf_concat(
                        flush_frag(buf) + enc,
                        compose_from(s, m + 1, Seq::empty()),
                    );
                },
                None => {
                    lemma_flush_frag_wf(buf);
                    lemma_flush_frag_wf(s.subrange(i + 1, s.len() as int));
                    lemma_comp_wf_concat(
                        flush_frag(buf),
                        flush_frag(s.subrange(i + 1, s.len() as int)),
                    );
                },
            }
        } else {
            lemma_compose_from_wf(s, i + 1, buf.push(t));
        }
    }
}

proof fn lemma_flush_frag_wf(buf: Seq<TokenTypeV>)
    ensures
        comp_wf(flush_frag(buf)),
{
    if buf.len() == 1 {
        assert(comp_wf_from(flush_frag(buf), 1));
    } else if buf.len() >= 2 {
        assert(comp_wf_from(flush_frag(buf), 1));
    }
}

/// Every composition the composer produces is well-formed: each statement
/// in the tree holds two or more tokens, a lone token stands as a
/// `SingleToken`, and every nested body is well-formed in turn.
pub proof fn lemma_compose_well_formed(s: Seq<TokenTypeV>)
    ensures
        comp_wf(spec_compose(s)),
{
    lemma_compose_from_wf(s, 0, Seq::empty());
}

/// For fully bracket-balanced input, every input token is accounted for
/// exactly once across the composed tree, in order: the tree's payload is
/// exactly the input with its structural tokens (terminators and
/// brackets, all of which the structure consumes) removed — no drops, no
/// duplicates.
pub proof fn lemma_balanced_compose_accounts_tokens(s: Seq<TokenTypeV>)
    requires
        depth_balanced(s),
    ensures
        tree_payload(spec_compose(s)) == s.filter(non_structural()),
{
    lemma_compose_from_payload(s, 0, Seq::empty());
    assert(s.subrange(0, s.len() as int) =~= s);
    assert(Seq::<TokenTypeV>::empty() + s.filter(non_structural()) =~= s.filter(non_structural()));
}

// ------------------------------------------------------------------
// The executable composer
// ------------------------------------------------------------------

impl Composer {
    /// Take a `LanguageDefinition` and a `TokenStream` and return a
    /// `Composition` holding the hierarchical structure of the code,
    /// broken into statements, lone tokens and encapsulations.
    pub fn compose(langdef: &LanguageDefinition, stream: &TokenStream) -> (result: Composition)
        ensures
            frags_view(result@) == spec_compose(stream_view(stream@)),
    {
        Self::process(langdef, stream)
    }

    /// The `ComposerContext` of a bracket punctuator: `{...}` punctuators
    /// map to the `Curly` kind, and so on. Only bracket punctuators reach
    /// this function; anything else would be an internal-invariant
    /// violation, made unreachable by construction.
    fn get_context(punctuator: &TokenType) -> (result: ComposerContext)
        requires
            is_opener(punctuator@) || is_closer(punctuator@),
        ensures
            result == ComposerContext::Closure(token_bracket(punctuator@)),
    {
        match punctuator {
            TokenType::Punctuator('{') | TokenType::Punctuator('}') => ComposerContext::Closure(
                BracketType::Curly,
            ),
            TokenType::Punctuator('(') | TokenType::Punctuator(')') => ComposerContext::Closure(
                BracketType::Parenthetical,
            ),
            TokenType::Punctuator('[') | TokenType::Punctuator(']') => ComposerContext::Closure(
                BracketType::Square,
            ),
            _ => unreached(),
        }
    }

    /// Break a token stream into statements and encapsulations: one pass
    /// over the tokens, flushing on terminators, recursively composing
    /// bracketed regions, and flushing any residue at the end.
    fn process(langdef: &LanguageDefinition, stream: &TokenStream) -> (result: Composition)
        ensures
            frags_view(result@) == spec_compose(stream_view(stream@)),
        decreases stream@.len(),
    {
        let ghost sv = stream_view(stream@);

        let mut composition: Composition = Vec::new();
        let mut context: Option<ComposerContext> = None;
        let mut buffer: TokenStream = Vec::new();
        let mut indentations: Vec<ComposerContext> = Vec::new();
        let ghost mut p: int = 0;

        let n = stream.len();
        let mut idx: usize = 0;

        proof {
            assert(stream_view(buffer@) =~= Seq::<TokenTypeV>::empty());
            assert(frags_view(composition@) =~= Seq::<FragmentV>::empty());
            crate::fragments::lemma_frags_view(composition@);
            assert(frags_view(composition@) + compose_from(sv, 0, stream_view(buffer@))
                =~= compose_from(sv, 0, Seq::empty()));
        }

        while idx < n
            invariant
                idx <= n,
                n == stream@.len(),
                sv == stream_view(stream@),
                sv.len() == stream@.len(),
                match context {
                    None => {
                        &&& indentations@.len() == 0
                        &&& frags_view(composition@) + compose_from(
                            sv,
                            idx as int,
                            stream_view(buffer@),
                        ) == spec_compose(sv)
                    },
                    Some(ComposerContext::Closure(k)) => {
                        &&& 0 <= p < idx
                        &&& is_opener(sv[p])
                        &&& k == token_bracket(sv[p])
                        &&& stream_view(buffer@) == sv.subrange(p + 1, idx as int)
                        &&& find_close(sv, p + 1, 0) == find_close(
                            sv,
                            idx as int,
                            indentations@.len() as nat,
                        )
                        &&& frags_view(composition@) + encap_cont(sv, p) == spec_compose(sv)
                    },
                },
            decreases n - idx,
        {
            let token = &stream[idx];
            let ghost comp0 = composition@;
            let ghost buf0 = buffer@;
            let ghost ind0 = indentations@;
            let ghost t = sv[idx as int];
            proof {
                lemma_stream_view_index(stream@, idx as int);
            }

            match (&token.token_type, &context) {
                // A terminator at the top of the layer flushes the buffer.
                (TokenType::Punctuator(';'), None) => {
                    Self::add_stream(&mut composition, &mut buffer);
                    proof {
                        assert(compose_from(sv, idx as int, stream_view(buf0)) == flush_frag(
                            stream_view(buf0),
                        ) + compose_from(sv, idx + 1, Seq::empty()));
                        assert(stream_view(buffer@) =~= Seq::<TokenTypeV>::empty());
                        assert(frags_view(composition@) + compose_from(
                            sv,
                            idx + 1,
                            stream_view(buffer@),
                        ) =~= (frags_view(comp0) + flush_frag(stream_view(buf0))) + compose_from(
                            sv,
                            idx + 1,
                            Seq::empty(),
                        ));
                        assert((frags_view(comp0) + flush_frag(stream_view(buf0))) + compose_from(
                            sv,
                            idx + 1,
                            Seq::empty(),
                        ) =~= frags_view(comp0) + compose_from(sv, idx as int, stream_view(buf0)));
                    }
                },
                // A terminator inside a context is an ordinary token.
                (TokenType::Punctuator(';'), _) => {
                    let tok = token.clone();
                    buffer.push(tok);
                    proof {
                        crate::tokenizer::lemma_stream_view_push(buf0, tok);
                        assert(stream_view(buffer@) =~= sv.subrange(p + 1, idx + 1));
                    }
                },
                // An opening bracket with no open context: flush, then
                // open a new context of the bracket's kind.
                (TokenType::Punctuator('{'), None)
                | (TokenType::Punctuator('('), None)
                | (TokenType::Punctuator('['), None) => {
                    Self::add_stream(&mut composition, &mut buffer);
                    context = Some(Self::get_context(&token.token_type));
                    proof {
                        p = idx as int;
                        assert(compose_from(sv, idx as int, stream_view(buf0)) == flush_frag(
                            stream_view(buf0),
                        ) + encap_cont(sv, idx as int)) by {
                            match find_close(sv, idx + 1, 0) {
                                Some(m) => {
                                    assert(compose_from(sv, idx as int, stream_view(buf0))
                                        =~= flush_frag(stream_view(buf0)) + encap_cont(
                                        sv,
                                        idx as int,
                                    ));
                                },
                                None => {
                                    assert(compose_from(sv, idx as int, stream_view(buf0))
                                        =~= flush_frag(stream_view(buf0)) + encap_cont(
                                        sv,
                                        idx as int,
                                    ));
                                },
                            }
                        }
                        assert(frags_view(composition@) + encap_cont(sv, p) =~= (frags_view(comp0)
                            + flush_frag(stream_view(buf0))) + encap_cont(sv, p));
                        assert((frags_view(comp0) + flush_frag(stream_view(buf0))) + encap_cont(
                            sv,
                            p,
                        ) =~= frags_view(comp0) + (flush_frag(stream_view(buf0)) + encap_cont(
                            sv,
                            p,
                        )));
                        assert(stream_view(buffer@) =~= sv.subrange(idx + 1, idx + 1));
                    }
                },
                // An opening bracket inside a context: buffered verbatim,
                // one depth level deeper.
                (TokenType::Punctuator('{'), Some(ComposerContext::Closure(_)))
                | (TokenType::Punctuator('('), Some(ComposerContext::Closure(_)))
                | (TokenType::Punctuator('['), Some(ComposerContext::Closure(_))) => {
                    let tok = token.clone();
                    buffer.push(tok);
                    indentations.push(context.unwrap());
                    proof {
                        crate::tokenizer::lemma_stream_view_push(buf0, tok);
                        assert(stream_view(buffer@) =~= sv.subrange(p + 1, idx + 1));
                        assert(find_close(sv, idx as int, ind0.len() as nat) == find_close(
                            sv,
                            idx + 1,
                            (ind0.len() + 1) as nat,
                        ));
                    }
                },
                // A closing bracket: pop one depth level, or, at depth
                // zero, close the context into an encapsulation.
                (TokenType::Punctuator('}'), Some(ComposerContext::Closure(_)))
                | (TokenType::Punctuator(')'), Some(ComposerContext::Closure(_)))
                | (TokenType::Punctuator(']'), Some(ComposerContext::Closure(_))) => {
                    if indentations.len() > 0 {
                        let tok = token.clone();
                        buffer.push(tok);
                        let _ = indentations.pop();
                        proof {
                            crate::tokenizer::lemma_stream_view_push(buf0, tok);
                            assert(stream_view(buffer@) =~= sv.subrange(p + 1, idx + 1));
                            assert(find_close(sv, idx as int, ind0.len() as nat) == find_close(
                                sv,
                                idx + 1,
                                (ind0.len() - 1) as nat,
                            ));
                        }
                    } else {
                        proof {
                            assert(find_close(sv, idx as int, 0) == Some(idx as int));
                        }
                        Self::add_encapsulation(
                            langdef,
                            &mut composition,
                            &mut buffer,
                            &mut context,
                        );
                        proof {
                            assert(encap_cont(sv, p) =~= seq![
                                FragmentV::Encapsulation(
                                    token_bracket(sv[p]),
                                    spec_compose(sv.subrange(p + 1, idx as int)),
                                ),
                            ] + compose_from(sv, idx + 1, Seq::empty()));
                            assert(frags_view(composition@) =~= frags_view(comp0).push(
                                FragmentV::Encapsulation(
                                    token_bracket(sv[p]),
                                    spec_compose(sv.subrange(p + 1, idx as int)),
                                ),
                            ));
                            assert(stream_view(buffer@) =~= Seq::<TokenTypeV>::empty());
                            assert(frags_view(composition@) + compose_from(
                                sv,
                                idx + 1,
                                stream_view(buffer@),
                            ) =~= frags_view(comp0) + encap_cont(sv, p));
                        }
                    }
                },
                // Anything else accumulates in the buffer.
                _ => {
                    let tok = token.clone();
                    buffer.push(tok);
                    proof {
                        crate::tokenizer::lemma_stream_view_push(buf0, tok);
                        match context {
                            None => {
                                assert(compose_from(sv, idx as int, stream_view(buf0))
                                    == compose_from(sv, idx + 1, stream_view(buf0).push(t)));
                            },
                            Some(ComposerContext::Closure(_)) => {
                                assert(stream_view(buffer@) =~= sv.subrange(p + 1, idx + 1));
                                assert(find_close(sv, idx as int, ind0.len() as nat) == find_close(
                                    sv,
                                    idx + 1,
                                    ind0.len() as nat,
                                ));
                            },
                        }
                    }
                },
            }

            idx = idx + 1;
        }

        // Residual buffered tokens are flushed as a trailing fragment:
        // this covers inputs with no final terminator, and bracket
        // contexts left open at the end of the stream.
        let ghost comp0 = composition@;
        let ghost buf0 = buffer@;
        proof {
            match context {
                None => {
                    assert(compose_from(sv, n as int, stream_view(buf0)) == flush_frag(
                        stream_view(buf0),
                    ));
                },
                Some(ComposerContext::Closure(_)) => {
                    assert(find_close(sv, n as int, indentations@.len() as nat) is None);
                    assert(encap_cont(sv, p) == flush_frag(sv.subrange(p + 1, sv.len() as int)));
                    assert(sv.subrange(p + 1, sv.len() as int) == stream_view(buf0));
                },
            }
        }
        if buffer.len() > 0 {
            Self::add_stream(&mut composition, &mut buffer);
            proof {
                assert(frags_view(composition@) =~= frags_view(comp0) + flush_frag(
                    stream_view(buf0),
                ));
            }
        } else {
            proof {
                assert(stream_view(buf0) =~= Seq::<TokenTypeV>::empty());
                assert(frags_view(composition@) =~= frags_view(comp0) + flush_frag(
                    stream_view(buf0),
                ));
            }
        }

        composition
    }

    /// Close the open bracket context: recursively compose the buffered
    /// tokens into a nested composition, emit one encapsulation fragment
    /// carrying the bracket kind and that composition, and reset the
    /// buffer and the context.
    fn add_encapsulation(
        langdef: &LanguageDefinition,
        composition: &mut Composition,
        buffer: &mut TokenStream,
        context: &mut Option<ComposerContext>,
    )
        requires
            (*old(context)) is Some,
        ensures
            frags_view(final(composition)@) == frags_view(old(composition)@).push(
                FragmentV::Encapsulation(
                    bracket_of((*old(context))->Some_0),
                    spec_compose(stream_view(old(buffer)@)),
                ),
            ),
            final(buffer)@ == Seq::<Token>::empty(),
            (*final(context)) is None,
        decreases old(buffer)@.len() + 1int,
    {
        let ctx = context.unwrap();
        let inner = Self::process(langdef, buffer);
        let frag = Fragment::Encapsulation(Encapsulation { context: ctx, composition: inner });
        let ghost pre = composition@;
        composition.push(frag);
        proof {
            crate::fragments::lemma_frags_view_push(pre, frag);
        }
        *buffer = Vec::new();
        *context = None;
    }

    /// Add the current token buffer (granted it has at least one item) to
    /// the composition, and clear it.
    fn add_stream(composition: &mut Composition, stream: &mut TokenStream)
        ensures
            frags_view(final(composition)@) == frags_view(old(composition)@) + flush_frag(
                stream_view(old(stream)@),
            ),
            final(stream)@ == Seq::<Token>::empty(),
    {
        let ghost pre = composition@;
        if stream.len() > 0 {
            let frag = Self::create_fragment(stream);
            composition.push(frag);
            proof {
                crate::fragments::lemma_frags_view_push(pre, frag);
                assert(frags_view(pre).push(frag@) =~= frags_view(pre) + flush_frag(
                    stream_view(stream@),
                ));
            }
        } else {
            proof {
                assert(stream_view(stream@) =~= Seq::<TokenTypeV>::empty());
                assert(frags_view(composition@) =~= frags_view(pre) + flush_frag(
                    stream_view(stream@),
                ));
            }
        }
        *stream = Vec::new();
    }

    /// The fragment for a flushed buffer: a lone token for exactly one
    /// element, a statement otherwise.
    fn create_fragment(stream: &TokenStream) -> (result: Fragment)
        requires
            stream@.len() >= 1,
        ensures
            seq![result@] == flush_frag(stream_view(stream@)),
    {
        proof {
            lemma_stream_view_index(stream@, 0);
        }
        match stream.len() {
            1 => {
                let tok = stream[0].clone();
                let frag = Fragment::SingleToken(SingleToken { token: tok });
                proof {
                    assert(seq![frag@] =~= flush_frag(stream_view(stream@)));
                }
                frag
            },
            _ => {
                let copied = crate::fragments::clone_stream(stream);
                let frag = Fragment::Statement(Statement { token_stream: copied });
                proof {
                    assert(seq![frag@] =~= flush_frag(stream_view(stream@)));
                }
                frag
            },
        }
    }
}

} // verus!
