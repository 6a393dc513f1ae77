//! Recognises the special macro syntax, `$var` and `$(repeat)*`, in token
//! trees and builds the `Op` representation of a pattern or template.

use vstd::prelude::*;
use crate::tt::{Delimiter, Ident, Leaf, Literal, Punct, Subtree, TokenId, TokenTree, is_punct_char};
use crate::punct_vec::{PunctVec, puncts_of, puncts_new, puncts_push, puncts_len, puncts_get};
use crate::{ParseError, ParseErrorView};
use vstd::std_specs::iter::IteratorSpec;

verus! {

#[derive(Debug, PartialEq, Eq)]
pub struct MetaTemplate(pub Vec<Op>);

#[derive(Debug, PartialEq, Eq)]
pub enum Op {
    Var { name: String, kind: Option<String>, id: TokenId },
    Repeat { tokens: MetaTemplate, kind: RepeatKind, separator: Option<Separator> },
    Leaf(Leaf),
    Subtree { tokens: MetaTemplate, delimiter: Option<Delimiter> },
}

#[derive(Copy, Clone, Debug, PartialEq, Eq, Structural)]
pub enum RepeatKind {
    ZeroOrMore,
    OneOrMore,
    ZeroOrOne,
}

#[derive(Debug, Eq)]
pub enum Separator {
    Literal(Literal),
    Ident(Ident),
    Puncts(PunctVec),
}

/// A leaf with its text as a sequence of characters.
pub enum LeafView {
    Literal(Seq<char>, TokenId),
    Punct(Punct),
    Ident(Seq<char>, TokenId),
}

pub enum SeparatorView {
    Literal(Seq<char>, TokenId),
    Ident(Seq<char>, TokenId),
    Puncts(Seq<Punct>),
}

/// The abstract value of an `Op`: strings as character sequences, nested
/// templates as sequences of views.
pub enum OpView {
    Var { name: Seq<char>, kind: Option<Seq<char>>, id: TokenId },
    Repeat { tokens: Seq<OpView>, kind: RepeatKind, separator: Option<SeparatorView> },
    Leaf(LeafView),
    Subtree { tokens: Seq<OpView>, delimiter: Option<Delimiter> },
}

pub open spec fn leaf_view(l: Leaf) -> LeafView {
    match l {
        Leaf::Literal(lit) => LeafView::Literal(lit.text@, lit.id),
        Leaf::Punct(p) => LeafView::Punct(p),
        Leaf::Ident(id) => LeafView::Ident(id.text@, id.id),
    }
}

pub open spec fn separator_view(s: Separator) -> SeparatorView {
    match s {
        Separator::Literal(lit) => SeparatorView::Literal(lit.text@, lit.id),
        Separator::Ident(id) => SeparatorView::Ident(id.text@, id.id),
        Separator::Puncts(p) => SeparatorView::Puncts(puncts_of(p)),
    }
}

pub open spec fn string_opt_view(s: Option<String>) -> Option<Seq<char>> {
    match s {
        Some(t) => Some(t@),
        None => None,
    }
}

pub open spec fn op_view(op: Op) -> OpView
    decreases op, 0int,
{
    match op {
        Op::Var { name, kind, id } => OpView::Var { name: name@, kind: string_opt_view(kind), id },
        Op::Repeat { tokens, kind, separator } => OpView::Repeat {
            tokens: ops_view(tokens.0@),
            kind,
            separator: match separator {
                Some(s) => Some(separator_view(s)),
                None => None,
            },
        },
        Op::Leaf(l) => OpView::Leaf(leaf_view(l)),
        Op::Subtree { tokens, delimiter } => OpView::Subtree { tokens: ops_view(tokens.0@), delimiter },
    }
}

pub open spec fn ops_view(s: Seq<Op>) -> Seq<OpView>
    decreases s, s.len(),
{
    if s.len() == 0 {
        Seq::empty()
    } else {
        ops_view(s.subrange(0, s.len() - 1)).push(op_view(s[s.len() - 1]))
    }
}

/// The characters of a run of punctuation, in order.
pub open spec fn punct_chars(ps: Seq<Punct>) -> Seq<char> {
    ps.map_values(|p: Punct| p.char)
}

/// Separators are equal when their text is: identifiers and literals by
/// their spelling, punctuation runs by their characters in order. Source
/// ids and spacing play no part.
pub open spec fn separator_eq(a: SeparatorView, b: SeparatorView) -> bool {
    match a {
        SeparatorView::Ident(x, _) => match b {
            SeparatorView::Ident(y, _) => x == y,
            _ => false,
        },
        SeparatorView::Literal(x, _) => match b {
            SeparatorView::Literal(y, _) => x == y,
            _ => false,
        },
        SeparatorView::Puncts(x) => match b {
            SeparatorView::Puncts(y) => punct_chars(x) == punct_chars(y),
            _ => false,
        },
    }
}

/// The number of source tokens that a separator stands for.
pub open spec fn separator_tt_count(s: SeparatorView) -> nat {
    match s {
        SeparatorView::Literal(..) => 1,
        SeparatorView::Ident(..) => 1,
        SeparatorView::Puncts(p) => p.len(),
    }
}

impl PartialEq for Separator {
    fn eq(&self, other: &Separator) -> (r: bool) {
        match self {
            Separator::Ident(a) => match other {
                Separator::Ident(b) => a.text == b.text,
                _ => false,
            },
            Separator::Literal(a) => match other {
                Separator::Literal(b) => a.text == b.text,
                _ => false,
            },
            Separator::Puncts(a) => match other {
                Separator::Puncts(b) => {
                    let n = puncts_len(a);
                    if n != puncts_len(b) {
                        assert(punct_chars(puncts_of(*a)).len() != punct_chars(puncts_of(*b)).len());
                        return false;
                    }
                    let mut i: usize = 0;
                    while i < n
                        invariant
                            separator_view(*self) == SeparatorView::Puncts(puncts_of(*a)),
                            separator_view(*other) == SeparatorView::Puncts(puncts_of(*b)),
                            n == puncts_of(*a).len(),
                            n == puncts_of(*b).len(),
                            i <= n,
                            punct_chars(puncts_of(*a)).subrange(0, i as int)
                                == punct_chars(puncts_of(*b)).subrange(0, i as int),
                        decreases n - i,
                    {
                        if puncts_get(a, i).char != puncts_get(b, i).char {
                            assert(punct_chars(puncts_of(*a))[i as int] == puncts_of(*a)[i as int].char);
                            assert(punct_chars(puncts_of(*b))[i as int] == puncts_of(*b)[i as int].char);
                            assert(punct_chars(puncts_of(*a))[i as int] != punct_chars(puncts_of(*b))[i as int]);
                            return false;
                        }
                        assert(punct_chars(puncts_of(*a)).subrange(0, i + 1)
                            =~= punct_chars(puncts_of(*b)).subrange(0, i + 1));
                        i += 1;
                    }
                    assert(punct_chars(puncts_of(*a)) =~= punct_chars(puncts_of(*a)).subrange(0, n as int));
                    assert(punct_chars(puncts_of(*b)) =~= punct_chars(puncts_of(*b)).subrange(0, n as int));
                    true
                },
                _ => false,
            },
        }
    }
}

impl vstd::std_specs::cmp::PartialEqSpecImpl for Separator {
    open spec fn obeys_eq_spec() -> bool {
        true
    }

    open spec fn eq_spec(&self, other: &Separator) -> bool {
        separator_eq(separator_view(*self), separator_view(*other))
    }
}

impl Separator {
    pub fn tt_count(&self) -> (r: usize)
        ensures
            r == separator_tt_count(separator_view(*self)),
    {
        match self {
            Separator::Literal(_) => 1,
            Separator::Ident(_) => 1,
            Separator::Puncts(it) => puncts_len(it),
        }
    }
}

impl View for Op {
    type V = OpView;

    open spec fn view(&self) -> OpView {
        op_view(*self)
    }
}

impl View for MetaTemplate {
    type V = Seq<OpView>;

    open spec fn view(&self) -> Seq<OpView> {
        ops_view(self.0@)
    }
}

/// Whether `$name` captures are read with a `:kind` suffix (patterns) or
/// without one (templates).
#[derive(Clone, Copy, Debug, PartialEq, Eq, Structural)]
pub enum Mode {
    Pattern,
    Template,
}

pub open spec fn is_repeat_char(c: char) -> bool {
    c == '*' || c == '+' || c == '?'
}

pub open spec fn repeat_kind_of(c: char) -> RepeatKind {
    if c == '*' {
        RepeatKind::ZeroOrMore
    } else if c == '+' {
        RepeatKind::OneOrMore
    } else {
        RepeatKind::ZeroOrOne
    }
}

/// Whether a separator has been chosen: an identifier or literal, or at
/// least one punctuation character.
pub open spec fn has_sep(sep: SeparatorView) -> bool {
    match sep {
        SeparatorView::Puncts(p) => p.len() > 0,
        _ => true,
    }
}

pub open spec fn no_sep() -> SeparatorView {
    SeparatorView::Puncts(Seq::empty())
}

/// A repetition tail's result with `k` more tokens counted as consumed.
pub open spec fn tail_add(
    r: Result<(Option<SeparatorView>, RepeatKind, nat), ParseErrorView>,
    k: nat,
) -> Result<(Option<SeparatorView>, RepeatKind, nat), ParseErrorView> {
    match r {
        Ok((s, kind, n)) => Ok((s, kind, n + k)),
        Err(e) => Err(e),
    }
}

/// The tail `sep? op` of a repetition, read from position `j` with `sep`
/// gathered so far: the separator (if any), the repeat kind, and how many
/// tokens were consumed, up to and including the repeat operator.
pub open spec fn repeat_tail(tts: Seq<TokenTree>, j: int, sep: SeparatorView) -> Result<
    (Option<SeparatorView>, RepeatKind, nat),
    ParseErrorView,
>
    decreases tts.len() - j,
{
    if j < 0 || j >= tts.len() {
        Err(ParseErrorView::InvalidRepeat)
    } else {
        match tts[j] {
            TokenTree::Subtree(_) => Err(ParseErrorView::InvalidRepeat),
            TokenTree::Leaf(Leaf::Ident(id)) => if has_sep(sep) {
                Err(ParseErrorView::InvalidRepeat)
            } else {
                tail_add(repeat_tail(tts, j + 1, SeparatorView::Ident(id.text@, id.id)), 1)
            },
            TokenTree::Leaf(Leaf::Literal(lit)) => if has_sep(sep) {
                Err(ParseErrorView::InvalidRepeat)
            } else {
                tail_add(repeat_tail(tts, j + 1, SeparatorView::Literal(lit.text@, lit.id)), 1)
            },
            TokenTree::Leaf(Leaf::Punct(p)) => if is_repeat_char(p.char) {
                Ok((
                    if has_sep(sep) {
                        Some(sep)
                    } else {
                        None
                    },
                    repeat_kind_of(p.char),
                    1,
                ))
            } else {
                match sep {
                    SeparatorView::Puncts(ps) => if ps.len() == 3 {
                        Err(ParseErrorView::InvalidRepeat)
                    } else {
                        tail_add(repeat_tail(tts, j + 1, SeparatorView::Puncts(ps.push(p))), 1)
                    },
                    _ => Err(ParseErrorView::InvalidRepeat),
                }
            },
        }
    }
}

/// The `:kind` suffix of a capture, read from position `j`: in a pattern
/// it must be `:` and an identifier; a template reads nothing.
pub open spec fn fragment_kind(tts: Seq<TokenTree>, j: int, mode: Mode) -> Result<
    (Option<Seq<char>>, nat),
    ParseErrorView,
> {
    match mode {
        Mode::Template => Ok((None, 0)),
        Mode::Pattern => if 0 <= j && j + 1 < tts.len() && is_punct_char(tts[j], ':') {
            match tts[j + 1] {
                TokenTree::Leaf(Leaf::Ident(k)) => Ok((Some(k.text@), 2)),
                _ => Err(ParseErrorView::Expected("fragment specifier"@)),
            }
        } else {
            Err(ParseErrorView::Expected("fragment specifier"@))
        },
    }
}

/// A capture named `name`, with its fragment kind read from position `j`.
pub open spec fn capture(name: Seq<char>, id: TokenId, tts: Seq<TokenTree>, j: int, mode: Mode) -> Result<
    (OpView, nat),
    ParseErrorView,
> {
    match fragment_kind(tts, j, mode) {
        Ok((kind, n)) => Ok((OpView::Var { name, kind, id }, n + 1)),
        Err(e) => Err(e),
    }
}

pub open spec fn prepend(ops: Seq<OpView>, r: Result<Seq<OpView>, ParseErrorView>) -> Result<
    Seq<OpView>,
    ParseErrorView,
> {
    match r {
        Ok(rest) => Ok(ops + rest),
        Err(e) => Err(e),
    }
}

pub open spec fn parse_measure(tts: Seq<TokenTree>, i: int) -> int {
    if i < tts.len() {
        tts.len() - i
    } else {
        0
    }
}

/// The op that starts at position `i` and how many tokens after the first
/// it takes.
pub open spec fn next_op_spec(tts: Seq<TokenTree>, i: int, mode: Mode) -> Result<
    (OpView, nat),
    ParseErrorView,
>
    decreases tts, 0int, 0int,
{
    if i < 0 || i >= tts.len() {
        Err(ParseErrorView::InvalidRepeat)
    } else {
        match tts[i] {
            TokenTree::Leaf(l) => if !is_punct_char(tts[i], '$') || i + 1 >= tts.len() {
                Ok((OpView::Leaf(leaf_view(l)), 0))
            } else {
                match tts[i + 1] {
                    TokenTree::Subtree(s) => match parse_from(s.token_trees@, 0, mode) {
                        Err(e) => Err(e),
                        Ok(body) => match repeat_tail(tts, i + 2, no_sep()) {
                            Err(e) => Err(e),
                            Ok((separator, kind, n)) => Ok(
                                (OpView::Repeat { tokens: body, kind, separator }, n + 1),
                            ),
                        },
                    },
                    TokenTree::Leaf(Leaf::Punct(_)) => Err(ParseErrorView::Expected("identifier"@)),
                    TokenTree::Leaf(Leaf::Ident(id)) => if id.text@ == "crate"@ {
                        Ok((OpView::Leaf(LeafView::Ident("$crate"@, id.id)), 1))
                    } else {
                        capture(id.text@, id.id, tts, i + 2, mode)
                    },
                    TokenTree::Leaf(Leaf::Literal(lit)) => if lit.text@ == "true"@ || lit.text@
                        == "false"@ {
                        capture(lit.text@, lit.id, tts, i + 2, mode)
                    } else {
                        Err(ParseErrorView::UnexpectedToken("invalid capture name"@))
                    },
                }
            },
            TokenTree::Subtree(s) => match parse_from(s.token_trees@, 0, mode) {
                Ok(body) => Ok((OpView::Subtree { tokens: body, delimiter: s.delimiter }, 0)),
                Err(e) => Err(e),
            },
        }
    }
}

/// The ops of the sibling sequence `tts` from position `i` on, or the first
/// error met.
pub open spec fn parse_from(tts: Seq<TokenTree>, i: int, mode: Mode) -> Result<
    Seq<OpView>,
    ParseErrorView,
>
    decreases tts, 1int, parse_measure(tts, i),
{
    if i < 0 || i >= tts.len() {
        Ok(Seq::empty())
    } else {
        match next_op_spec(tts, i, mode) {
            Err(e) => Err(e),
            Ok((op, n)) => prepend(seq![op], parse_from(tts, i + 1 + n, mode)),
        }
    }
}

/// The ops of a whole sibling sequence.
pub open spec fn parse_seq(tts: Seq<TokenTree>, mode: Mode) -> Result<Seq<OpView>, ParseErrorView> {
    parse_from(tts, 0, mode)
}

pub open spec fn ops_result_view(r: Result<Vec<Op>, ParseError>) -> Result<Seq<OpView>, ParseErrorView> {
    match r {
        Ok(ops) => Ok(ops_view(ops@)),
        Err(e) => Err(e@),
    }
}

pub open spec fn separator_opt_view(s: Option<Separator>) -> Option<SeparatorView> {
    match s {
        Some(x) => Some(separator_view(x)),
        None => None,
    }
}

/// Parses a macro template: captures are `$name`, without a fragment kind.
pub fn parse_template(template: &Subtree) -> (r: Result<Vec<Op>, ParseError>)
    ensures
        ops_result_view(r) == parse_seq(template.token_trees@, Mode::Template),
{
    parse_inner(template, Mode::Template)
}

/// Parses a macro pattern: captures are `$name:kind`.
pub fn parse_pattern(pattern: &Subtree) -> (r: Result<Vec<Op>, ParseError>)
    ensures
        ops_result_view(r) == parse_seq(pattern.token_trees@, Mode::Pattern),
{
    parse_inner(pattern, Mode::Pattern)
}

proof fn lemma_ops_view_push(s: Seq<Op>, op: Op)
    ensures
        ops_view(s.push(op)) == ops_view(s).push(op_view(op)),
{
    assert(s.push(op).subrange(0, s.len() as int) =~= s);
}

proof fn lemma_prepend_push(ops: Seq<OpView>, op: OpView, r: Result<Seq<OpView>, ParseErrorView>)
    ensures
        prepend(ops, prepend(seq![op], r)) == prepend(ops.push(op), r),
{
    if let Ok(rest) = r {
        assert(ops + (seq![op] + rest) =~= ops.push(op) + rest);
    }
}

pub proof fn lemma_child_decreases(tts: Seq<TokenTree>, k: int, s: Subtree)
    requires
        0 <= k < tts.len(),
        tts[k] == TokenTree::Subtree(s),
    ensures
        decreases_to!(tts => s.token_trees@),
{
    assert(decreases_to!(tts => tts[k]));
    assert(decreases_to!(tts[k] => tts[k]->Subtree_0));
    assert(decreases_to!(s => s.token_trees));
    assert(decreases_to!(s.token_trees => s.token_trees@));
}

fn parse_inner(tt: &Subtree, mode: Mode) -> (r: Result<Vec<Op>, ParseError>)
    ensures
        ops_result_view(r) == parse_from(tt.token_trees@, 0, mode),
    decreases tt.token_trees@, 1int,
{
    let tts = &tt.token_trees;
    let mut ops: Vec<Op> = Vec::new();
    let mut pos: usize = 0;
    assert(ops_view(ops@) =~= Seq::<OpView>::empty());
    assert(prepend(Seq::empty(), parse_from(tts@, 0, mode)) == parse_from(tts@, 0, mode)) by {
        if let Ok(rest) = parse_from(tts@, 0, mode) {
            assert(Seq::<OpView>::empty() + rest =~= rest);
        }
    }
    while pos < tts.len()
        invariant
            tts == &tt.token_trees,
            pos <= tts.len(),
            parse_from(tts@, 0, mode) == prepend(ops_view(ops@), parse_from(tts@, pos as int, mode)),
        decreases tts.len() - pos,
    {
        let first = &tts[pos];
        let ghost at = pos as int;
        pos += 1;
        match next_op(first, tts, &mut pos, mode) {
            Ok(op) => {
                proof {
                    lemma_prepend_push(ops_view(ops@), op@, parse_from(tts@, pos as int, mode));
                    lemma_ops_view_push(ops@, op);
                }
                ops.push(op);
            },
            Err(e) => {
                assert(parse_from(tts@, at, mode) == Err::<Seq<OpView>, _>(e@));
                return Err(e);
            },
        }
    }
    assert(ops_view(ops@) + Seq::<OpView>::empty() =~= ops_view(ops@));
    Ok(ops)
}

fn text_is(s: &String, lit: &str) -> (r: bool)
    ensures
        r == (s@ == lit@),
{
    let t = lit.to_owned();
    s.eq(&t)
}

fn clone_leaf(l: &Leaf) -> (r: Leaf)
    ensures
        r == *l,
{
    match l {
        Leaf::Literal(lit) => Leaf::Literal(Literal { text: lit.text.clone(), id: lit.id }),
        Leaf::Punct(p) => Leaf::Punct(*p),
        Leaf::Ident(id) => Leaf::Ident(Ident { text: id.text.clone(), id: id.id }),
    }
}

fn next_op(first: &TokenTree, tts: &Vec<TokenTree>, pos: &mut usize, mode: Mode) -> (r: Result<Op, ParseError>)
    requires
        1 <= *old(pos) <= tts.len(),
        tts@[*old(pos) - 1] == *first,
    ensures
        *old(pos) <= *final(pos) <= tts.len(),
        match r {
            Ok(op) => next_op_spec(tts@, *old(pos) - 1, mode) == Ok::<_, ParseErrorView>(
                (op@, (*final(pos) - *old(pos)) as nat),
            ),
            Err(e) => next_op_spec(tts@, *old(pos) - 1, mode) == Err::<(OpView, nat), _>(e@),
        },
    decreases tts@, 0int,
{
    let ghost i = *old(pos) - 1;
    match first {
        TokenTree::Leaf(leaf) => {
            let is_dollar = match leaf {
                Leaf::Punct(p) => p.char == '$',
                _ => false,
            };
            if !is_dollar || *pos >= tts.len() {
                // A `$` with nothing after it stands for itself.
                return Ok(Op::Leaf(clone_leaf(leaf)));
            }
            let second = &tts[*pos];
            *pos += 1;
            match second {
                TokenTree::Subtree(subtree) => {
                    proof {
                        lemma_child_decreases(tts@, i + 1, *subtree);
                    }
                    let tokens = match parse_inner(subtree, mode) {
                        Ok(tokens) => tokens,
                        Err(e) => return Err(e),
                    };
                    let (separator, kind) = match parse_repeat(tts, pos) {
                        Ok(it) => it,
                        Err(e) => return Err(e),
                    };
                    Ok(Op::Repeat { tokens: MetaTemplate(tokens), kind, separator })
                },
                TokenTree::Leaf(Leaf::Punct(_)) => Err(ParseError::Expected("identifier".to_owned())),
                TokenTree::Leaf(Leaf::Ident(ident)) => {
                    if text_is(&ident.text, "crate") {
                        // `$crate` is kept as one identifier and resolved later.
                        Ok(Op::Leaf(Leaf::Ident(Ident { text: "$crate".to_owned(), id: ident.id })))
                    } else {
                        let name = ident.text.clone();
                        let kind = match eat_fragment_kind(tts, pos, mode) {
                            Ok(k) => k,
                            Err(e) => return Err(e),
                        };
                        Ok(Op::Var { name, kind, id: ident.id })
                    }
                },
                TokenTree::Leaf(Leaf::Literal(lit)) => {
                    if is_boolean_literal(lit) {
                        let name = lit.text.clone();
                        let kind = match eat_fragment_kind(tts, pos, mode) {
                            Ok(k) => k,
                            Err(e) => return Err(e),
                        };
                        Ok(Op::Var { name, kind, id: lit.id })
                    } else {
                        Err(ParseError::UnexpectedToken("invalid capture name".to_owned()))
                    }
                },
            }
        },
        TokenTree::Subtree(subtree) => {
            proof {
                lemma_child_decreases(tts@, i, *subtree);
            }
            match parse_inner(subtree, mode) {
                Ok(tokens) => Ok(Op::Subtree { tokens: MetaTemplate(tokens), delimiter: subtree.delimiter }),
                Err(e) => Err(e),
            }
        },
    }
}

fn eat_fragment_kind(tts: &Vec<TokenTree>, pos: &mut usize, mode: Mode) -> (r: Result<Option<String>, ParseError>)
    requires
        *old(pos) <= tts.len(),
    ensures
        *old(pos) <= *final(pos) <= tts.len(),
        match r {
            Ok(k) => fragment_kind(tts@, *old(pos) as int, mode) == Ok::<_, ParseErrorView>(
                (string_opt_view(k), (*final(pos) - *old(pos)) as nat),
            ),
            Err(e) => fragment_kind(tts@, *old(pos) as int, mode) == Err::<(Option<Seq<char>>, nat), _>(e@),
        },
{
    match mode {
        Mode::Template => Ok(None),
        Mode::Pattern => {
            if tts.len() - *pos >= 2 {
                let colon = match &tts[*pos] {
                    TokenTree::Leaf(Leaf::Punct(p)) => p.char == ':',
                    _ => false,
                };
                if colon {
                    match &tts[*pos + 1] {
                        TokenTree::Leaf(Leaf::Ident(ident)) => {
                            *pos += 2;
                            return Ok(Some(ident.text.clone()));
                        },
                        _ => {},
                    }
                }
            }
            Err(ParseError::Expected("fragment specifier".to_owned()))
        },
    }
}

fn is_boolean_literal(lit: &Literal) -> (r: bool)
    ensures
        r == (lit.text@ == "true"@ || lit.text@ == "false"@),
{
    text_is(&lit.text, "true") || text_is(&lit.text, "false")
}

pub open spec fn tail_state(single: Option<Separator>, puncts: PunctVec) -> SeparatorView {
    match single {
        Some(s) => separator_view(s),
        None => SeparatorView::Puncts(puncts_of(puncts)),
    }
}

fn parse_repeat(tts: &Vec<TokenTree>, pos: &mut usize) -> (r: Result<(Option<Separator>, RepeatKind), ParseError>)
    requires
        *old(pos) <= tts.len(),
    ensures
        *old(pos) <= *final(pos) <= tts.len(),
        match r {
            Ok((sep, kind)) => repeat_tail(tts@, *old(pos) as int, no_sep()) == Ok::<_, ParseErrorView>(
                (separator_opt_view(sep), kind, (*final(pos) - *old(pos)) as nat),
            ),
            Err(e) => repeat_tail(tts@, *old(pos) as int, no_sep()) == Err::<
                (Option<SeparatorView>, RepeatKind, nat),
                _,
            >(e@),
        },
{
    let ghost start = *old(pos) as int;
    // The separator so far: an identifier or literal, else a run of punctuation.
    let mut single: Option<Separator> = None;
    let mut puncts = puncts_new();
    assert(tail_state(single, puncts) == no_sep());
    while *pos < tts.len()
        invariant
            start == *old(pos),
            start <= *pos <= tts.len(),
            repeat_tail(tts@, start, no_sep()) == tail_add(
                repeat_tail(tts@, *pos as int, tail_state(single, puncts)),
                (*pos - start) as nat,
            ),
            single is Some ==> puncts_of(puncts).len() == 0 && !(separator_view(single->0) is Puncts),
            puncts_of(puncts).len() <= 3,
        decreases tts.len() - *pos,
    {
        let tt = &tts[*pos];
        *pos += 1;
        let leaf = match tt {
            TokenTree::Leaf(leaf) => leaf,
            TokenTree::Subtree(_) => return Err(ParseError::InvalidRepeat),
        };
        let has_sep = single.is_some() || puncts_len(&puncts) > 0;
        match leaf {
            Leaf::Ident(ident) => {
                if has_sep {
                    return Err(ParseError::InvalidRepeat);
                }
                single = Some(Separator::Ident(Ident { text: ident.text.clone(), id: ident.id }));
            },
            Leaf::Literal(lit) => {
                if has_sep {
                    return Err(ParseError::InvalidRepeat);
                }
                single = Some(Separator::Literal(Literal { text: lit.text.clone(), id: lit.id }));
            },
            Leaf::Punct(punct) => {
                let kind = if punct.char == '*' {
                    RepeatKind::ZeroOrMore
                } else if punct.char == '+' {
                    RepeatKind::OneOrMore
                } else if punct.char == '?' {
                    RepeatKind::ZeroOrOne
                } else {
                    if single.is_some() || puncts_len(&puncts) == 3 {
                        return Err(ParseError::InvalidRepeat);
                    }
                    puncts_push(&mut puncts, *punct);
                    continue;
                };
                let separator = if !has_sep {
                    None
                } else {
                    match single {
                        Some(s) => Some(s),
                        None => Some(Separator::Puncts(puncts)),
                    }
                };
                return Ok((separator, kind));
            },
        }
    }
    Err(ParseError::InvalidRepeat)
}

/// One element of a delimited walk over a template: an op, or the virtual
/// open or close delimiter around them.
#[derive(Debug, Clone, Copy)]
pub enum OpDelimited<'a> {
    Op(&'a Op),
    Open,
    Close,
}

/// The abstract value of an `OpDelimited`.
pub enum DelimitedElem {
    Op(Op),
    Open,
    Close,
}

pub open spec fn delimited_elem(d: OpDelimited) -> DelimitedElem {
    match d {
        OpDelimited::Op(op) => DelimitedElem::Op(*op),
        OpDelimited::Open => DelimitedElem::Open,
        OpDelimited::Close => DelimitedElem::Close,
    }
}

pub open spec fn delimited_opt(d: Option<OpDelimited>) -> Option<DelimitedElem> {
    match d {
        Some(x) => Some(delimited_elem(x)),
        None => None,
    }
}

/// How many elements a delimited walk over `n` ops has.
pub open spec fn delimited_len(n: nat, delimited: bool) -> nat {
    if delimited {
        n + 2
    } else {
        n
    }
}

/// The element at position `i` of a walk over `ops`: with a delimiter,
/// `Open` first, then the ops in order, then `Close`.
pub open spec fn delimited_at(ops: Seq<Op>, delimited: bool, i: int) -> Option<DelimitedElem> {
    if !delimited {
        if 0 <= i < ops.len() {
            Some(DelimitedElem::Op(ops[i]))
        } else {
            None
        }
    } else if i == 0 {
        Some(DelimitedElem::Open)
    } else if i == ops.len() + 1 {
        Some(DelimitedElem::Close)
    } else if 1 <= i <= ops.len() {
        Some(DelimitedElem::Op(ops[i - 1]))
    } else {
        None
    }
}

/// A walk over a template's ops that, given a delimiter, also yields a
/// virtual open element before them and a close element after them.
#[derive(Debug, Clone, Copy)]
pub struct OpDelimitedIter<'a> {
    inner: &'a Vec<Op>,
    delimited: Option<&'a Delimiter>,
    idx: usize,
}

impl<'a> OpDelimitedIter<'a> {
    /// The ops walked over.
    pub closed spec fn ops(&self) -> Seq<Op> {
        self.inner@
    }

    /// The delimiter around the ops, if any.
    pub closed spec fn delimiter(&self) -> Option<Delimiter> {
        match self.delimited {
            Some(d) => Some(*d),
            None => None,
        }
    }

    /// The position of the next element.
    pub closed spec fn index(&self) -> nat {
        self.idx as nat
    }

    pub open spec fn len_spec(&self) -> nat {
        delimited_len(self.ops().len(), self.delimiter() is Some)
    }

    pub open spec fn at(&self, i: int) -> Option<DelimitedElem> {
        delimited_at(self.ops(), self.delimiter() is Some, i)
    }

    pub fn is_eof(&self) -> (r: bool)
        ensures
            r == (self.index() >= self.len_spec()),
    {
        let n = self.inner.len();
        if self.delimited.is_some() {
            self.idx >= n && self.idx - n >= 2
        } else {
            self.idx >= n
        }
    }

    pub fn peek(&self) -> (r: Option<OpDelimited<'a>>)
        ensures
            delimited_opt(r) == self.at(self.index() as int),
    {
        match self.delimited {
            None => {
                if self.idx < self.inner.len() {
                    Some(OpDelimited::Op(&self.inner[self.idx]))
                } else {
                    None
                }
            },
            Some(_) => {
                if self.idx == 0 {
                    Some(OpDelimited::Open)
                } else if self.idx - 1 == self.inner.len() {
                    Some(OpDelimited::Close)
                } else if self.idx - 1 < self.inner.len() {
                    Some(OpDelimited::Op(&self.inner[self.idx - 1]))
                } else {
                    None
                }
            },
        }
    }

    /// A walk over the same ops and delimiter, from the start.
    pub fn reset(&self) -> (r: Self)
        ensures
            r.ops() == self.ops(),
            r.delimiter() == self.delimiter(),
            r.index() == 0,
    {
        OpDelimitedIter { inner: self.inner, idx: 0, delimited: self.delimited }
    }

    /// Yields the element at the current position and moves past it; at the
    /// end it yields `None` and stays there.
    pub fn next(&mut self) -> (r: Option<OpDelimited<'a>>)
        requires
            old(self).len_spec() <= usize::MAX,
        ensures
            delimited_opt(r) == old(self).at(old(self).index() as int),
            final(self).ops() == old(self).ops(),
            final(self).delimiter() == old(self).delimiter(),
            final(self).index() == if old(self).index() < old(self).len_spec() {
                old(self).index() + 1
            } else {
                old(self).index()
            },
    {
        let res = self.peek();
        if !self.is_eof() {
            self.idx += 1;
        }
        res
    }

    /// The number of elements left, as a lower and an upper bound.
    pub fn size_hint(&self) -> (r: (usize, Option<usize>))
        requires
            self.len_spec() <= usize::MAX,
        ensures
            r.0 == if self.index() < self.len_spec() {
                self.len_spec() - self.index()
            } else {
                0
            },
            r.1 == Some(r.0),
    {
        let len = self.inner.len() + if self.delimited.is_some() { 2 } else { 0 };
        let remain = len.saturating_sub(self.idx);
        (remain, Some(remain))
    }
}

impl MetaTemplate {
    /// The ops in order.
    pub fn iter(&self) -> (r: std::slice::Iter<'_, Op>)
        ensures
            r.remaining() == self.0@.as_ref(),
    {
        self.0.iter()
    }

    /// A walk over the ops, with `delimited`'s open and close elements
    /// around them when it is given.
    pub fn iter_delimited<'a>(&'a self, delimited: Option<&'a Delimiter>) -> (r: OpDelimitedIter<'a>)
        ensures
            r.ops() == self.0@,
            r.delimiter() == match delimited {
                Some(d) => Some(*d),
                None => None::<Delimiter>,
            },
            r.index() == 0,
    {
        OpDelimitedIter { inner: &self.0, idx: 0, delimited }
    }
}

} // verus!
