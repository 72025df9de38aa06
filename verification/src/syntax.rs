//! The expression tree that the rewriting pass works on, and its mathematical
//! view.

use vstd::prelude::*;
use crate::type_str::TypeStr;

verus! {

/// A unary operator.
#[derive(Clone, Copy, Debug, PartialEq, Eq, Structural)]
pub enum UnOp {
    Deref,
    Not,
    Neg,
}

/// The kind of an expression that is neither a literal, nor a unary operation,
/// nor a literal call.
#[derive(Clone, Copy, Debug, PartialEq, Eq, Structural)]
pub enum ExprKind {
    Array,
    Assign,
    Async,
    Await,
    Binary,
    Block,
    Break,
    Call,
    Cast,
    Closure,
    Const,
    Continue,
    Field,
    ForLoop,
    Group,
    If,
    Index,
    Infer,
    Let,
    Loop,
    Macro,
    Match,
    MethodCall,
    Paren,
    Path,
    Range,
    Reference,
    Repeat,
    Return,
    Struct,
    Try,
    TryBlock,
    Tuple,
    Unsafe,
    Verbatim,
    While,
    Yield,
}

/// An attribute written on an expression, kept as its source text.
#[derive(Clone, Debug, PartialEq, Eq)]
pub struct Attribute {
    pub text: String,
}

impl View for Attribute {
    type V = Seq<char>;

    open spec fn view(&self) -> Seq<char> {
        self.text@
    }
}

/// The views of a list of attributes, in order.
pub open spec fn attrs_view(attrs: Seq<Attribute>) -> Seq<Seq<char>> {
    attrs.map_values(|a: Attribute| a@)
}

/// A literal as written in source.
#[derive(Clone, Debug, PartialEq, Eq)]
pub enum Lit {
    /// An integer literal, by its value.
    Int(u128),
    /// A string literal, by its source token: quotes, escapes and all.
    Str(String),
    /// `true` or `false`.
    Bool(bool),
    /// Any other literal (character, byte string, float), by its source text.
    Other(String),
}

/// A literal, with its texts as sequences of characters.
pub enum LitView {
    Int(u128),
    Str(Seq<char>),
    Bool(bool),
    Other(Seq<char>),
}

impl View for Lit {
    type V = LitView;

    open spec fn view(&self) -> LitView {
        match self {
            Lit::Int(n) => LitView::Int(*n),
            Lit::Str(s) => LitView::Str(s@),
            Lit::Bool(b) => LitView::Bool(*b),
            Lit::Other(t) => LitView::Other(t@),
        }
    }
}

/// A literal expression: a literal and the attributes written on it.
#[derive(Clone, Debug, PartialEq, Eq)]
pub struct ExprLit {
    pub attrs: Vec<Attribute>,
    pub lit: Lit,
}

/// A literal expression, with its texts as sequences of characters.
pub struct ExprLitView {
    pub attrs: Seq<Seq<char>>,
    pub lit: LitView,
}

impl View for ExprLit {
    type V = ExprLitView;

    open spec fn view(&self) -> ExprLitView {
        ExprLitView { attrs: attrs_view(self.attrs@), lit: self.lit@ }
    }
}

/// A call of a literal protocol's materialize operation. The literal's value is
/// the call's parameter; the call takes no runtime argument.
#[derive(Clone, Debug, PartialEq, Eq)]
pub enum LiteralCall {
    /// The unsigned-integer protocol, for the literal `N`.
    Unsigned(u128),
    /// The signed-integer protocol, for the literal `-N`; `magnitude` is `N`.
    Signed { magnitude: u128 },
    /// The boolean protocol.
    Bool(bool),
    /// The string protocol, for the chain of the literal's bytes.
    Str(TypeStr),
}

/// A literal call, with its chain as the sequence of the chain's bytes.
pub enum LiteralCallView {
    Unsigned(u128),
    Signed { magnitude: u128 },
    Bool(bool),
    Str(Seq<u8>),
}

impl View for LiteralCall {
    type V = LiteralCallView;

    open spec fn view(&self) -> LiteralCallView {
        match self {
            LiteralCall::Unsigned(n) => LiteralCallView::Unsigned(*n),
            LiteralCall::Signed { magnitude } => LiteralCallView::Signed { magnitude: *magnitude },
            LiteralCall::Bool(b) => LiteralCallView::Bool(*b),
            LiteralCall::Str(chain) => LiteralCallView::Str(chain@),
        }
    }
}

/// The number that the literal `-N` writes, where `magnitude` is `N`.
pub open spec fn negation(magnitude: u128) -> int {
    -(magnitude as int)
}

impl LiteralCall {
    /// The parameter of the signed protocol for the literal `-N`: the negation of
    /// `N`, where the protocol's parameter type holds it.
    pub fn negated(magnitude: u128) -> (r: Option<i128>)
        ensures
            r == (if i128::MIN as int <= negation(magnitude) {
                Some(negation(magnitude) as i128)
            } else {
                None
            }),
    {
        if magnitude <= i128::MAX as u128 {
            Some(-(magnitude as i128))
        } else if magnitude == i128::MAX as u128 + 1 {
            Some(i128::MIN)
        } else {
            None
        }
    }
}

/// An expression.
#[derive(Debug, PartialEq, Eq)]
pub enum Expr {
    /// A literal expression.
    Lit(ExprLit),
    /// A unary operation on an operand.
    Unary { attrs: Vec<Attribute>, op: UnOp, expr: Box<Expr> },
    /// A literal call, which stands where a literal stood.
    Overloaded(LiteralCall),
    /// Any other expression: `text` is what of it is no expression (a path, an
    /// operator, a method's name, a type), as source text; `children` are the
    /// expressions directly below it, in source order.
    Other { kind: ExprKind, text: String, children: Vec<Expr> },
}

/// An expression as a mathematical tree.
pub enum ExprView {
    Lit(ExprLitView),
    Unary { attrs: Seq<Seq<char>>, op: UnOp, expr: Box<ExprView> },
    Overloaded(LiteralCallView),
    Other { kind: ExprKind, text: Seq<char>, children: Seq<ExprView> },
}

/// The tree that an expression stands for.
pub open spec fn expr_view(e: Expr) -> ExprView
    decreases e,
{
    match e {
        Expr::Lit(l) => ExprView::Lit(l@),
        Expr::Unary { attrs, op, expr } => ExprView::Unary {
            attrs: attrs_view(attrs@),
            op,
            expr: Box::new(expr_view(*expr)),
        },
        Expr::Overloaded(call) => ExprView::Overloaded(call@),
        Expr::Other { kind, text, children } => ExprView::Other {
            kind,
            text: text@,
            children: Seq::new(
                children@.len(),
                |i: int|
                    if 0 <= i < children@.len() {
                        expr_view(children@[i])
                    } else {
                        ExprView::Other { kind, text: text@, children: Seq::empty() }
                    },
            ),
        },
    }
}

impl View for Expr {
    type V = ExprView;

    open spec fn view(&self) -> ExprView {
        expr_view(*self)
    }
}

/// The views of a list of expressions, in order.
pub open spec fn exprs_view(exprs: Seq<Expr>) -> Seq<ExprView> {
    Seq::new(exprs.len(), |i: int| expr_view(exprs[i]))
}

/// A function declaration: its signature, kept as source text, and the
/// expressions of its body, in source order.
#[derive(Debug, PartialEq, Eq)]
pub struct ItemFn {
    pub sig: String,
    pub body: Vec<Expr>,
}

/// A function declaration, with its body as mathematical trees.
pub struct ItemFnView {
    pub sig: Seq<char>,
    pub body: Seq<ExprView>,
}

impl View for ItemFn {
    type V = ItemFnView;

    open spec fn view(&self) -> ItemFnView {
        ItemFnView { sig: self.sig@, body: exprs_view(self.body@) }
    }
}

} // verus!
