//! Tokens of the UIS language and their mathematical view.

use vstd::prelude::*;
use crate::units::{Unit, Type};

verus! {

/// A lexical token.
///
/// A floating-point literal is kept as the text it was written with (digits
/// and one `.`, underscores removed); its numeric value is left to the caller.
#[derive(Debug, PartialEq)]
pub enum Token {
    ComponentKey(String),
    PropertyKey(String),
    /// Line number, then indentation depth in tabs.
    NewLineIndent(u32, u32),
    Color(String),
    Text(String),
    Alias(String),
    NumberPositive(u64),
    /// The magnitude of a number written after a `-`.
    NumberNegative(u64),
    NumberFloat(String),
    Unit(Unit),
    TypeSpecifier(Type),
    Condition(Vec<Token>),
    Parenthesees(Vec<Token>),
    /// Asks for everything attached to a component or property.
    HAS,
    At,
    Is,
    Also,
    Comma,
    Factorial,
    Tetrate,
    SquareRoot,
    Exponent,
    Multiply,
    Divide,
    Add,
    Subtract,
    LessThan,
    LessThanOrEqual,
    GreaterThan,
    GreaterThanOrEqual,
    Equal,
    NotEqual,
    Modulo,
    Round,
    RoundUp,
    RoundDown,
    Range,
    All,
    And,
    Or,
    Not,
    Nor,
    Xor,
    Nand,
}

/// The mathematical value of a `Token`.
pub enum TokenView {
    ComponentKey(Seq<char>),
    PropertyKey(Seq<char>),
    NewLineIndent(int, int),
    Color(Seq<char>),
    Text(Seq<char>),
    Alias(Seq<char>),
    NumberPositive(int),
    NumberNegative(int),
    NumberFloat(Seq<char>),
    Unit(Unit),
    TypeSpecifier(Type),
    Condition(Seq<TokenView>),
    Parenthesees(Seq<TokenView>),
    HAS,
    At,
    Is,
    Also,
    Comma,
    Factorial,
    Tetrate,
    SquareRoot,
    Exponent,
    Multiply,
    Divide,
    Add,
    Subtract,
    LessThan,
    LessThanOrEqual,
    GreaterThan,
    GreaterThanOrEqual,
    Equal,
    NotEqual,
    Modulo,
    Round,
    RoundUp,
    RoundDown,
    Range,
    All,
    And,
    Or,
    Not,
    Nor,
    Xor,
    Nand,
}

impl Token {
    pub open spec fn view(&self) -> TokenView
        decreases self,
    {
        match self {
            Token::ComponentKey(s) => TokenView::ComponentKey(s@),
            Token::PropertyKey(s) => TokenView::PropertyKey(s@),
            Token::NewLineIndent(l, i) => TokenView::NewLineIndent(*l as int, *i as int),
            Token::Color(s) => TokenView::Color(s@),
            Token::Text(s) => TokenView::Text(s@),
            Token::Alias(s) => TokenView::Alias(s@),
            Token::NumberPositive(n) => TokenView::NumberPositive(*n as int),
            Token::NumberNegative(n) => TokenView::NumberNegative(*n as int),
            Token::NumberFloat(s) => TokenView::NumberFloat(s@),
            Token::Unit(u) => TokenView::Unit(*u),
            Token::TypeSpecifier(t) => TokenView::TypeSpecifier(*t),
            Token::Condition(v) => TokenView::Condition(
                Seq::new(v@.len(), |i: int| if 0 <= i < v@.len() { v@[i].view() } else { TokenView::HAS }),
            ),
            Token::Parenthesees(v) => TokenView::Parenthesees(
                Seq::new(v@.len(), |i: int| if 0 <= i < v@.len() { v@[i].view() } else { TokenView::HAS }),
            ),
            Token::HAS => TokenView::HAS,
            Token::At => TokenView::At,
            Token::Is => TokenView::Is,
            Token::Also => TokenView::Also,
            Token::Comma => TokenView::Comma,
            Token::Factorial => TokenView::Factorial,
            Token::Tetrate => TokenView::Tetrate,
            Token::SquareRoot => TokenView::SquareRoot,
            Token::Exponent => TokenView::Exponent,
            Token::Multiply => TokenView::Multiply,
            Token::Divide => TokenView::Divide,
            Token::Add => TokenView::Add,
            Token::Subtract => TokenView::Subtract,
            Token::LessThan => TokenView::LessThan,
            Token::LessThanOrEqual => TokenView::LessThanOrEqual,
            Token::GreaterThan => TokenView::GreaterThan,
            Token::GreaterThanOrEqual => TokenView::GreaterThanOrEqual,
            Token::Equal => TokenView::Equal,
            Token::NotEqual => TokenView::NotEqual,
            Token::Modulo => TokenView::Modulo,
            Token::Round => TokenView::Round,
            Token::RoundUp => TokenView::RoundUp,
            Token::RoundDown => TokenView::RoundDown,
            Token::Range => TokenView::Range,
            Token::All => TokenView::All,
            Token::And => TokenView::And,
            Token::Or => TokenView::Or,
            Token::Not => TokenView::Not,
            Token::Nor => TokenView::Nor,
            Token::Xor => TokenView::Xor,
            Token::Nand => TokenView::Nand,
        }
    }
}

/// The views of a sequence of tokens.
pub open spec fn view_seq(ts: Seq<Token>) -> Seq<TokenView> {
    Seq::new(ts.len(), |i: int| ts[i]@)
}

pub proof fn lemma_view_seq_push(ts: Seq<Token>, t: Token)
    ensures
        view_seq(ts.push(t)) == view_seq(ts).push(t@),
{
    assert(view_seq(ts.push(t)) =~= view_seq(ts).push(t@));
}

pub proof fn lemma_group_views(v: Vec<Token>)
    ensures
        Token::Condition(v)@ == TokenView::Condition(view_seq(v@)),
        Token::Parenthesees(v)@ == TokenView::Parenthesees(view_seq(v@)),
{
    let c = Token::Condition(v)@;
    let p = Token::Parenthesees(v)@;
    assert(c->Condition_0 =~= view_seq(v@));
    assert(p->Parenthesees_0 =~= view_seq(v@));
}

impl Token {
    /// A copy of the token.
    pub fn duplicate(&self) -> (r: Token)
        ensures
            r@ == self@,
        decreases self,
    {
        match self {
            Token::ComponentKey(s) => Token::ComponentKey(s.clone()),
            Token::PropertyKey(s) => Token::PropertyKey(s.clone()),
            Token::NewLineIndent(l, i) => Token::NewLineIndent(*l, *i),
            Token::Color(s) => Token::Color(s.clone()),
            Token::Text(s) => Token::Text(s.clone()),
            Token::Alias(s) => Token::Alias(s.clone()),
            Token::NumberPositive(n) => Token::NumberPositive(*n),
            Token::NumberNegative(n) => Token::NumberNegative(*n),
            Token::NumberFloat(s) => Token::NumberFloat(s.clone()),
            Token::Unit(u) => Token::Unit(*u),
            Token::TypeSpecifier(t) => Token::TypeSpecifier(*t),
            Token::Condition(v) => {
                let mut r: Vec<Token> = Vec::new();
                let mut i: usize = 0;
                while i < v.len()
                    invariant
                        i <= v@.len(),
                        *self == Token::Condition(*v),
                        view_seq(r@) == view_seq(v@.take(i as int)),
                    decreases v@.len() - i,
                {
                    assert(decreases_to!(*self => (*self)->Condition_0));
                    assert(decreases_to!(*v => v@));
                    assert(decreases_to!(v@ => v@[i as int]));
                    let t = v[i].duplicate();
                    proof {
                        lemma_view_seq_push(r@, t);
                        assert(view_seq(v@.take(i + 1)) =~= view_seq(v@.take(i as int)).push(v@[i as int]@));
                    }
                    r.push(t);
                    i = i + 1;
                }
                assert(v@.take(v@.len() as int) =~= v@);
                proof { lemma_group_views(r); lemma_group_views(*v); }
                Token::Condition(r)
            },
            Token::Parenthesees(v) => {
                let mut r: Vec<Token> = Vec::new();
                let mut i: usize = 0;
                while i < v.len()
                    invariant
                        i <= v@.len(),
                        *self == Token::Parenthesees(*v),
                        view_seq(r@) == view_seq(v@.take(i as int)),
                    decreases v@.len() - i,
                {
                    assert(decreases_to!(*self => (*self)->Parenthesees_0));
                    assert(decreases_to!(*v => v@));
                    assert(decreases_to!(v@ => v@[i as int]));
                    let t = v[i].duplicate();
                    proof {
                        lemma_view_seq_push(r@, t);
                        assert(view_seq(v@.take(i + 1)) =~= view_seq(v@.take(i as int)).push(v@[i as int]@));
                    }
                    r.push(t);
                    i = i + 1;
                }
                assert(v@.take(v@.len() as int) =~= v@);
                proof { lemma_group_views(r); lemma_group_views(*v); }
                Token::Parenthesees(r)
            },
            Token::HAS => Token::HAS,
            Token::At => Token::At,
            Token::Is => Token::Is,
            Token::Also => Token::Also,
            Token::Comma => Token::Comma,
            Token::Factorial => Token::Factorial,
            Token::Tetrate => Token::Tetrate,
            Token::SquareRoot => Token::SquareRoot,
            Token::Exponent => Token::Exponent,
            Token::Multiply => Token::Multiply,
            Token::Divide => Token::Divide,
            Token::Add => Token::Add,
            Token::Subtract => Token::Subtract,
            Token::LessThan => Token::LessThan,
            Token::LessThanOrEqual => Token::LessThanOrEqual,
            Token::GreaterThan => Token::GreaterThan,
            Token::GreaterThanOrEqual => Token::GreaterThanOrEqual,
            Token::Equal => Token::Equal,
            Token::NotEqual => Token::NotEqual,
            Token::Modulo => Token::Modulo,
            Token::Round => Token::Round,
            Token::RoundUp => Token::RoundUp,
            Token::RoundDown => Token::RoundDown,
            Token::Range => Token::Range,
            Token::All => Token::All,
            Token::And => Token::And,
            Token::Or => Token::Or,
            Token::Not => Token::Not,
            Token::Nor => Token::Nor,
            Token::Xor => Token::Xor,
            Token::Nand => Token::Nand,
        }
    }
}

} // verus!
