//! Facts about the parser and the delimited walk, proved over the spec
//! functions that their contracts use.

use vstd::prelude::*;
use crate::tt::{Leaf, Punct, TokenId, TokenTree, is_punct_char};
use crate::parser::{
    capture,
    DelimitedElem, Mode, OpDelimitedIter, OpView, RepeatKind, Separator, SeparatorView, is_repeat_char,
    lemma_child_decreases, next_op_spec, no_sep, parse_from, parse_measure, parse_seq, prepend,
    punct_chars, repeat_kind_of, repeat_tail, separator_view, tail_add,
};
use crate::ParseErrorView;
use vstd::std_specs::cmp::PartialEqSpec;

verus! {

/// Whether no `$` appears in `tts` from position `i` on, nested subtrees
/// included.
pub open spec fn no_dollar_from(tts: Seq<TokenTree>, i: int) -> bool
    decreases tts, parse_measure(tts, i),
{
    if i < 0 || i >= tts.len() {
        true
    } else {
        &&& match tts[i] {
            TokenTree::Leaf(_) => !is_punct_char(tts[i], '$'),
            TokenTree::Subtree(s) => no_dollar_from(s.token_trees@, 0),
        }
        &&& no_dollar_from(tts, i + 1)
    }
}

pub open spec fn no_dollar(tts: Seq<TokenTree>) -> bool {
    no_dollar_from(tts, 0)
}

proof fn lemma_modes_agree_from(tts: Seq<TokenTree>, i: int)
    requires
        no_dollar_from(tts, i),
    ensures
        parse_from(tts, i, Mode::Pattern) == parse_from(tts, i, Mode::Template),
    decreases tts, parse_measure(tts, i),
{
    if 0 <= i < tts.len() {
        if let TokenTree::Subtree(s) = tts[i] {
            lemma_child_decreases(tts, i, s);
            lemma_modes_agree_from(s.token_trees@, 0);
        }
        assert(next_op_spec(tts, i, Mode::Pattern) == next_op_spec(tts, i, Mode::Template));
        lemma_modes_agree_from(tts, i + 1);
    }
}

/// Without any `$`, a token sequence parses to the same ops (or the same
/// error) as a pattern and as a template.
pub proof fn lemma_modes_agree_without_dollar(tts: Seq<TokenTree>)
    requires
        no_dollar(tts),
    ensures
        parse_seq(tts, Mode::Pattern) == parse_seq(tts, Mode::Template),
{
    lemma_modes_agree_from(tts, 0);
}

/// The name and id of a token that can follow `$` as a capture name: an
/// identifier other than `crate`, or the literal `true` or `false`.
pub open spec fn capture_name(t: TokenTree) -> Option<(Seq<char>, TokenId)> {
    match t {
        TokenTree::Leaf(Leaf::Ident(id)) => if id.text@ != "crate"@ {
            Some((id.text@, id.id))
        } else {
            None
        },
        TokenTree::Leaf(Leaf::Literal(lit)) => if lit.text@ == "true"@ || lit.text@ == "false"@ {
            Some((lit.text@, lit.id))
        } else {
            None
        },
        _ => None,
    }
}

/// The fragment kind spelled by a `: ident` suffix at position `j`, if one
/// is there.
pub open spec fn kind_suffix(tts: Seq<TokenTree>, j: int) -> Option<Seq<char>> {
    if 0 <= j && j + 1 < tts.len() && is_punct_char(tts[j], ':') {
        match tts[j + 1] {
            TokenTree::Leaf(Leaf::Ident(k)) => Some(k.text@),
            _ => None,
        }
    } else {
        None
    }
}

/// In a pattern, `$name` followed by `: ident` is a capture whose fragment
/// kind is that identifier, and parsing goes on after it; without that
/// suffix the pattern is rejected with `Expected`.
pub proof fn lemma_pattern_capture(tts: Seq<TokenTree>, i: int)
    requires
        0 <= i,
        i + 1 < tts.len(),
        is_punct_char(tts[i], '$'),
        capture_name(tts[i + 1]) is Some,
    ensures
        ({
            let (name, id) = capture_name(tts[i + 1])->0;
            match kind_suffix(tts, i + 2) {
                Some(kind) => parse_from(tts, i, Mode::Pattern) == prepend(
                    seq![OpView::Var { name, kind: Some(kind), id }],
                    parse_from(tts, i + 4, Mode::Pattern),
                ),
                None => parse_from(tts, i, Mode::Pattern) == Err::<Seq<OpView>, _>(
                    ParseErrorView::Expected("fragment specifier"@),
                ),
            }
        }),
{
    let (name, id) = capture_name(tts[i + 1])->0;
    assert(next_op_spec(tts, i, Mode::Pattern) == capture(name, id, tts, i + 2, Mode::Pattern));
}

/// In a template, `$name` is a capture with no fragment kind; whatever
/// follows it, a `: ident` included, is parsed as the next siblings.
pub proof fn lemma_template_capture(tts: Seq<TokenTree>, i: int)
    requires
        0 <= i,
        i + 1 < tts.len(),
        is_punct_char(tts[i], '$'),
        capture_name(tts[i + 1]) is Some,
    ensures
        ({
            let (name, id) = capture_name(tts[i + 1])->0;
            parse_from(tts, i, Mode::Template) == prepend(
                seq![OpView::Var { name, kind: None, id }],
                parse_from(tts, i + 2, Mode::Template),
            )
        }),
{
    let (name, id) = capture_name(tts[i + 1])->0;
    assert(next_op_spec(tts, i, Mode::Template) == capture(name, id, tts, i + 2, Mode::Template));
}

/// The text of a separator, without source ids or spacing.
pub enum SeparatorText {
    Literal(Seq<char>),
    Ident(Seq<char>),
    Puncts(Seq<char>),
}

pub open spec fn separator_text(s: SeparatorView) -> SeparatorText {
    match s {
        SeparatorView::Literal(t, _) => SeparatorText::Literal(t),
        SeparatorView::Ident(t, _) => SeparatorText::Ident(t),
        SeparatorView::Puncts(p) => SeparatorText::Puncts(punct_chars(p)),
    }
}

/// Two separators are equal exactly when they are of the same kind and
/// have the same text: identifiers and literals by spelling, punctuation
/// runs by length and characters in order, whatever their source ids.
pub proof fn lemma_separator_eq_by_text(a: Separator, b: Separator)
    ensures
        a.eq_spec(&b) <==> separator_text(separator_view(a)) == separator_text(separator_view(b)),
        separator_view(a) is Puncts && separator_view(b) is Puncts ==> (a.eq_spec(&b) <==> (
        separator_view(a)->Puncts_0.len() == separator_view(b)->Puncts_0.len() && forall|k: int|
            0 <= k < separator_view(a)->Puncts_0.len() ==> #[trigger] separator_view(a)->Puncts_0[k].char
                == separator_view(b)->Puncts_0[k].char)),
{
    if let (SeparatorView::Puncts(x), SeparatorView::Puncts(y)) = (separator_view(a), separator_view(b)) {
        if x.len() == y.len() && forall|k: int| 0 <= k < x.len() ==> #[trigger] x[k].char == y[k].char {
            assert(punct_chars(x) =~= punct_chars(y));
        }
        if punct_chars(x) == punct_chars(y) {
            assert(punct_chars(x).len() == x.len());
            assert(punct_chars(y).len() == y.len());
            assert forall|k: int| 0 <= k < x.len() implies #[trigger] x[k].char == y[k].char by {
                assert(punct_chars(x)[k] == x[k].char);
                assert(punct_chars(y)[k] == y[k].char);
            }
        }
    }
}

/// The punctuation token at position `k`, if there is one.
pub open spec fn punct_at(tts: Seq<TokenTree>, k: int) -> Option<Punct> {
    if 0 <= k < tts.len() {
        match tts[k] {
            TokenTree::Leaf(Leaf::Punct(p)) => Some(p),
            _ => None,
        }
    } else {
        None
    }
}

pub open spec fn plain_punct_at(tts: Seq<TokenTree>, k: int) -> bool {
    punct_at(tts, k) is Some && !is_repeat_char(punct_at(tts, k)->0.char)
}

/// A repetition tail that is just `*`, `+` or `?` has no separator; one
/// punctuation character before the operator is the separator; four
/// punctuation characters before it are rejected.
pub proof fn lemma_repeat_tails(tts: Seq<TokenTree>, j: int)
    requires
        0 <= j,
    ensures
        punct_at(tts, j) is Some && is_repeat_char(punct_at(tts, j)->0.char) ==> repeat_tail(
            tts,
            j,
            no_sep(),
        ) == Ok::<_, ParseErrorView>((None::<SeparatorView>, repeat_kind_of(punct_at(tts, j)->0.char), 1nat)),
        plain_punct_at(tts, j) && punct_at(tts, j + 1) is Some && is_repeat_char(
            punct_at(tts, j + 1)->0.char,
        ) ==> repeat_tail(tts, j, no_sep()) == Ok::<_, ParseErrorView>(
            (
                Some(SeparatorView::Puncts(seq![punct_at(tts, j)->0])),
                repeat_kind_of(punct_at(tts, j + 1)->0.char),
                2nat,
            ),
        ),
        plain_punct_at(tts, j) && plain_punct_at(tts, j + 1) && plain_punct_at(tts, j + 2)
            && plain_punct_at(tts, j + 3) ==> repeat_tail(tts, j, no_sep()) == Err::<
            (Option<SeparatorView>, RepeatKind, nat),
            _,
        >(ParseErrorView::InvalidRepeat),
{
    if plain_punct_at(tts, j) {
        let p0 = punct_at(tts, j)->0;
        let s1 = SeparatorView::Puncts(Seq::<Punct>::empty().push(p0));
        assert(repeat_tail(tts, j, no_sep()) == tail_add(repeat_tail(tts, j + 1, s1), 1));
        if plain_punct_at(tts, j + 1) && plain_punct_at(tts, j + 2) && plain_punct_at(tts, j + 3) {
            let p1 = punct_at(tts, j + 1)->0;
            let p2 = punct_at(tts, j + 2)->0;
            let s2 = SeparatorView::Puncts(seq![p0].push(p1));
            let s3 = SeparatorView::Puncts(seq![p0].push(p1).push(p2));
            assert(repeat_tail(tts, j + 1, s1) == tail_add(repeat_tail(tts, j + 2, s2), 1));
            assert(repeat_tail(tts, j + 2, s2) == tail_add(repeat_tail(tts, j + 3, s3), 1));
            assert(repeat_tail(tts, j + 3, s3) == Err::<(Option<SeparatorView>, RepeatKind, nat), _>(
                ParseErrorView::InvalidRepeat));
        }
        if punct_at(tts, j + 1) is Some && is_repeat_char(punct_at(tts, j + 1)->0.char) {
            assert(Seq::<Punct>::empty().push(p0) =~= seq![p0]);
        }
    }
}

/// Without a delimiter a walk over `k` ops has `k` elements, the ops in
/// order; with one it has `k + 2`: `Open`, the ops in order, `Close`.
/// Past those it yields nothing.
pub proof fn lemma_delimited_walk(it: OpDelimitedIter)
    ensures
        it.delimiter() is None ==> {
            &&& it.len_spec() == it.ops().len()
            &&& forall|i: int| 0 <= i < it.ops().len() ==> #[trigger] it.at(i) == Some(DelimitedElem::Op(it.ops()[i]))
            &&& forall|i: int| i >= it.ops().len() ==> #[trigger] it.at(i) is None
        },
        it.delimiter() is Some ==> {
            &&& it.len_spec() == it.ops().len() + 2
            &&& it.at(0) == Some(DelimitedElem::Open)
            &&& forall|i: int| 0 <= i < it.ops().len() ==> #[trigger] it.at(i + 1) == Some(DelimitedElem::Op(it.ops()[i]))
            &&& it.at(it.ops().len() + 1int) == Some(DelimitedElem::Close)
            &&& forall|i: int| i >= it.ops().len() + 2 ==> #[trigger] it.at(i) is None
        },
{
}

} // verus!
