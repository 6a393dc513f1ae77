//! The token-tree model that the parser reads: leaves (punctuation,
//! identifiers, literals) and delimited subtrees.

use vstd::prelude::*;

verus! {

/// Identifies the source token that a leaf or delimiter came from.
#[derive(Clone, Copy, Debug, PartialEq, Eq, Hash, Structural)]
pub struct TokenId(pub u32);

#[derive(Clone, Copy, Debug, PartialEq, Eq, Hash, Structural)]
pub enum Spacing {
    Alone,
    Joint,
}

#[derive(Clone, Copy, Debug, PartialEq, Eq, Hash, Structural)]
pub struct Punct {
    pub char: char,
    pub spacing: Spacing,
    pub id: TokenId,
}

#[derive(Clone, Debug, PartialEq, Eq, Hash)]
pub struct Ident {
    pub text: String,
    pub id: TokenId,
}

#[derive(Clone, Debug, PartialEq, Eq, Hash)]
pub struct Literal {
    pub text: String,
    pub id: TokenId,
}

#[derive(Clone, Debug, PartialEq, Eq, Hash)]
pub enum Leaf {
    Literal(Literal),
    Punct(Punct),
    Ident(Ident),
}

#[derive(Clone, Copy, Debug, PartialEq, Eq, Hash, Structural)]
pub enum DelimiterKind {
    Parenthesis,
    Brace,
    Bracket,
}

#[derive(Clone, Copy, Debug, PartialEq, Eq, Hash, Structural)]
pub struct Delimiter {
    pub id: TokenId,
    pub kind: DelimiterKind,
}

#[derive(Debug, PartialEq, Eq, Hash)]
pub struct Subtree {
    pub delimiter: Option<Delimiter>,
    pub token_trees: Vec<TokenTree>,
}

#[derive(Debug, PartialEq, Eq, Hash)]
pub enum TokenTree {
    Leaf(Leaf),
    Subtree(Subtree),
}

/// Whether the tree is the punctuation character `c`.
pub open spec fn is_punct_char(t: TokenTree, c: char) -> bool {
    match t {
        TokenTree::Leaf(Leaf::Punct(p)) => p.char == c,
        _ => false,
    }
}

} // verus!
