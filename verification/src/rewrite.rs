//! The rewriting pass: every plain literal in an expression tree becomes a call
//! of the literal protocol that fits it; everything else keeps its shape.

use core::str::FromStr;
use vstd::prelude::*;
use vstd::string::*;
use vstd::utf8::*;
use crate::syntax::{
    Expr, ExprKind, ExprLit, ExprLitView, ExprView, ItemFn, ItemFnView, Lit, LitView,
    LiteralCall, LiteralCallView, UnOp, expr_view, exprs_view,
};
use crate::type_str::{Byte, TypeStr, MAX_STR_LIT_LEN};

verus! {

/// What a negation and the literal under it become together: a call of the
/// signed protocol, if the literal is a plain integer; nothing otherwise, and the
/// negation then stays above what the literal becomes by itself.
pub open spec fn signed_wrapping(l: ExprLitView) -> Option<ExprView> {
    match l.lit {
        LitView::Int(n) if l.attrs.len() == 0 => Some(
            ExprView::Overloaded(LiteralCallView::Signed { magnitude: n }),
        ),
        _ => None,
    }
}

/// The text that a string literal token denotes; nothing for a text that is not
/// exactly one string literal.
pub uninterp spec fn str_literal_value(token: Seq<char>) -> Option<Seq<char>>;

/// `proc_macro2::Literal::from_str`, then `syn::Lit::new` and
/// `syn::LitStr::value`: the text is read as exactly one literal, with nothing
/// before or after it, and where that literal is a string literal the text it
/// denotes is handed back, with escapes resolved and without the quotes. Nothing
/// is claimed of that text but its name.
#[verifier::external_body]
fn lit_str_value(token: &str) -> (r: Option<String>)
    ensures
        match r {
            Some(value) => str_literal_value(token@) == Some(value@),
            None => str_literal_value(token@) is None,
        },
{
    match proc_macro2::Literal::from_str(token) {
        Ok(literal) => match syn::Lit::new(literal) {
            syn::Lit::Str(lit_str) => Some(lit_str.value()),
            _ => None,
        },
        Err(_) => None,
    }
}

/// What a plain string literal becomes, given the text it denotes: a call of the
/// string protocol on the bytes of that text, if they fit the decoding buffer;
/// the literal itself otherwise.
pub open spec fn str_wrapping(l: ExprLitView, value: Option<Seq<char>>) -> ExprView {
    match value {
        Some(text) if encode_utf8(text).len() <= MAX_STR_LIT_LEN => ExprView::Overloaded(
            LiteralCallView::Str(encode_utf8(text)),
        ),
        _ => ExprView::Lit(l),
    }
}

/// What a literal that is not negated becomes: a call of the unsigned, string or
/// boolean protocol, if the literal is plain; the literal itself otherwise.
pub open spec fn literal_wrapping(l: ExprLitView) -> ExprView {
    if l.attrs.len() != 0 {
        ExprView::Lit(l)
    } else {
        match l.lit {
            LitView::Int(n) => ExprView::Overloaded(LiteralCallView::Unsigned(n)),
            LitView::Str(token) => str_wrapping(l, str_literal_value(token)),
            LitView::Bool(b) => ExprView::Overloaded(LiteralCallView::Bool(b)),
            LitView::Other(_) => ExprView::Lit(l),
        }
    }
}

/// The tree after the pass.
pub open spec fn rewritten(e: ExprView) -> ExprView
    decreases e,
{
    match e {
        ExprView::Lit(l) => literal_wrapping(l),
        ExprView::Unary { attrs, op, expr } => match (op, *expr) {
            (UnOp::Neg, ExprView::Lit(l)) => match signed_wrapping(l) {
                Some(call) => call,
                None => ExprView::Unary { attrs, op, expr: Box::new(literal_wrapping(l)) },
            },
            _ => ExprView::Unary { attrs, op, expr: Box::new(rewritten(*expr)) },
        },
        ExprView::Overloaded(_) => e,
        ExprView::Other { kind, text, children } => if kind == ExprKind::Verbatim {
            e
        } else {
            ExprView::Other {
                kind,
                text,
                children: Seq::new(
                    children.len(),
                    |i: int|
                        if 0 <= i < children.len() {
                            rewritten(children[i])
                        } else {
                            e
                        },
                ),
            }
        },
    }
}

/// Each tree of a list after the pass, in order.
pub open spec fn rewritten_all(es: Seq<ExprView>) -> Seq<ExprView> {
    Seq::new(es.len(), |i: int| rewritten(es[i]))
}

/// The call that stands for the negation of `unsigned_expr_lit`, where that
/// literal is a plain integer.
pub fn wrap_signed(unsigned_expr_lit: &ExprLit) -> (r: Option<Expr>)
    ensures
        match r {
            Some(call) => signed_wrapping(unsigned_expr_lit@) == Some(call@),
            None => signed_wrapping(unsigned_expr_lit@) is None,
        },
{
    match &unsigned_expr_lit.lit {
        Lit::Int(n) => {
            if unsigned_expr_lit.attrs.len() != 0 {
                return None;
            }
            Some(Expr::Overloaded(LiteralCall::Signed { magnitude: *n }))
        },
        _ => None,
    }
}

/// The call that stands for the string literal denoting `string`: the string
/// protocol on the chain of the string's bytes, in order.
pub fn build_typestr(string: &str) -> (r: Expr)
    ensures
        r@ == ExprView::Overloaded(LiteralCallView::Str(string.spec_bytes())),
{
    let bytes = string.as_bytes();
    let mut res = TypeStr::nil();
    let mut i: usize = bytes.len();
    while i > 0
        invariant
            i <= bytes@.len(),
            res@ == bytes@.subrange(i as int, bytes@.len() as int),
        decreases i,
    {
        i -= 1;
        res = TypeStr::cons(Byte { val: bytes[i] }, res);
        assert(res@ =~= bytes@.subrange(i as int, bytes@.len() as int));
    }
    assert(res@ =~= bytes@);
    Expr::Overloaded(LiteralCall::Str(res))
}

/// What stands in place of the plain string literal `expr_lit`, where `value` is
/// the text that it denotes.
pub fn wrap_str(expr_lit: ExprLit, value: Option<String>) -> (r: Expr)
    ensures
        r@ == str_wrapping(
            expr_lit@,
            match value {
                Some(text) => Some(text@),
                None => None,
            },
        ),
{
    match value {
        Some(text) => {
            if text.as_str().as_bytes().len() > MAX_STR_LIT_LEN {
                return Expr::Lit(expr_lit);
            }
            build_typestr(text.as_str())
        },
        None => Expr::Lit(expr_lit),
    }
}

/// What stands in place of a literal that is not negated.
pub fn wrap_unsigned_or_str(expr_lit: ExprLit) -> (r: Expr)
    ensures
        r@ == literal_wrapping(expr_lit@),
{
    if expr_lit.attrs.len() != 0 {
        return Expr::Lit(expr_lit);
    }
    match &expr_lit.lit {
        Lit::Int(n) => Expr::Overloaded(LiteralCall::Unsigned(*n)),
        Lit::Str(lit_str) => {
            let value = lit_str_value(lit_str.as_str());
            wrap_str(expr_lit, value)
        },
        Lit::Bool(b) => Expr::Overloaded(LiteralCall::Bool(*b)),
        Lit::Other(_) => Expr::Lit(expr_lit),
    }
}

/// The pass itself. It carries no state.
pub struct Args;

impl Args {
    /// Rewrites one expression tree: a plain integer literal under a negation
    /// becomes, with the negation, a call of the signed protocol; every other
    /// literal becomes what `wrap_unsigned_or_str` makes of it, a negation above
    /// it staying in place; every other node is rebuilt around its rewritten
    /// children.
    pub fn fold_expr(&mut self, i: Expr) -> (r: Expr)
        ensures
            r@ == rewritten(i@),
        decreases i,
    {
        match i {
            Expr::Unary { attrs, op, expr } => {
                let operand: Expr = *expr;
                match (op, operand) {
                    (UnOp::Neg, Expr::Lit(expr_lit)) => {
                        match wrap_signed(&expr_lit) {
                            Some(call) => call,
                            None => Expr::Unary {
                                attrs,
                                op,
                                expr: Box::new(wrap_unsigned_or_str(expr_lit)),
                            },
                        }
                    },
                    (_, other) => {
                        let expr = Box::new(self.fold_expr(other));
                        Expr::Unary { attrs, op, expr }
                    },
                }
            },
            Expr::Lit(expr_lit) => wrap_unsigned_or_str(expr_lit),
            Expr::Overloaded(call) => Expr::Overloaded(call),
            Expr::Other { kind, text, children } => {
                match kind {
                    ExprKind::Verbatim => Expr::Other { kind, text, children },
                    _ => {
                        let ghost before = children@;
                        let children = self.fold_exprs(children);
                        assert forall|k: int| 0 <= k < before.len() implies expr_view(
                            children@[k],
                        ) == rewritten(expr_view(before[k])) by {
                            assert(exprs_view(children@)[k] == rewritten_all(
                                exprs_view(before),
                            )[k]);
                        }
                        let r = Expr::Other { kind, text, children };
                        assert(expr_view(r)->Other_children =~= rewritten(
                            expr_view(i),
                        )->Other_children);
                        r
                    },
                }
            },
        }
    }

    /// Rewrites each expression of a list, first to last.
    pub fn fold_exprs(&mut self, exprs: Vec<Expr>) -> (r: Vec<Expr>)
        ensures
            r@.len() == exprs@.len(),
            exprs_view(r@) == rewritten_all(exprs_view(exprs@)),
        decreases exprs,
    {
        let ghost orig = exprs@;
        let mut rest = exprs;
        let mut stack: Vec<Expr> = Vec::new();
        while rest.len() > 0
            invariant
                rest@.len() <= orig.len(),
                rest@ == orig.subrange(0, rest@.len() as int),
                stack@.len() == orig.len() - rest@.len(),
                forall|k: int|
                    0 <= k < stack@.len() ==> #[trigger] stack@[k] == orig[orig.len() - 1 - k],
            decreases rest@.len(),
        {
            let e = rest.pop().unwrap();
            stack.push(e);
        }
        let ghost reversed = stack@;
        let mut r: Vec<Expr> = Vec::new();
        while stack.len() > 0
            invariant
                orig == exprs@,
                reversed.len() == orig.len(),
                forall|k: int|
                    0 <= k < reversed.len() ==> #[trigger] reversed[k] == orig[orig.len() - 1 - k],
                stack@.len() <= reversed.len(),
                stack@ == reversed.subrange(0, stack@.len() as int),
                r@.len() == reversed.len() - stack@.len(),
                forall|k: int| 0 <= k < r@.len() ==> (#[trigger] r@[k])@ == rewritten(orig[k]@),
            decreases stack@.len(),
        {
            let e = stack.pop().unwrap();
            assert(e == exprs[r@.len() as int]);
            assert(decreases_to!(exprs => exprs[r@.len() as int]));
            let f = self.fold_expr(e);
            r.push(f);
        }
        assert(exprs_view(r@) =~= rewritten_all(exprs_view(orig)));
        r
    }

    /// Rewrites the body of a function declaration and leaves its signature as
    /// it is.
    pub fn fold_item_fn(&mut self, i: ItemFn) -> (r: ItemFn)
        ensures
            r@ == (ItemFnView { sig: i@.sig, body: rewritten_all(i@.body) }),
    {
        let ItemFn { sig, body } = i;
        let body = self.fold_exprs(body);
        ItemFn { sig, body }
    }
}

/// The declaration of `input` with every plain literal of its body overloaded.
pub fn overloaded_literals(input: ItemFn) -> (output: ItemFn)
    ensures
        output@ == (ItemFnView { sig: input@.sig, body: rewritten_all(input@.body) }),
{
    let mut args = Args;
    args.fold_item_fn(input)
}

/// What of a tree is not a literal: every place where a literal, a negated plain
/// integer literal or a literal call stands is a hole.
pub enum Skeleton {
    Hole,
    Unary { attrs: Seq<Seq<char>>, op: UnOp, expr: Box<Skeleton> },
    Other { kind: ExprKind, text: Seq<char>, children: Seq<Skeleton> },
}

/// The skeleton of a tree.
pub open spec fn skeleton(e: ExprView) -> Skeleton
    decreases e,
{
    match e {
        ExprView::Lit(_) => Skeleton::Hole,
        ExprView::Overloaded(_) => Skeleton::Hole,
        ExprView::Unary { attrs, op, expr } => match (op, *expr) {
            (UnOp::Neg, ExprView::Lit(l)) if signed_wrapping(l) is Some => Skeleton::Hole,
            _ => Skeleton::Unary { attrs, op, expr: Box::new(skeleton(*expr)) },
        },
        ExprView::Other { kind, text, children } => Skeleton::Other {
            kind,
            text,
            children: Seq::new(
                children.len(),
                |i: int|
                    if 0 <= i < children.len() {
                        skeleton(children[i])
                    } else {
                        Skeleton::Hole
                    },
            ),
        },
    }
}

/// No literal expression occurs anywhere in the tree.
pub open spec fn literal_free(e: ExprView) -> bool
    decreases e,
{
    match e {
        ExprView::Lit(_) => false,
        ExprView::Unary { attrs, op, expr } => literal_free(*expr),
        ExprView::Overloaded(_) => true,
        ExprView::Other { kind, text, children } => forall|i: int|
            0 <= i < children.len() ==> literal_free(#[trigger] children[i]),
    }
}

/// A plain integer literal becomes a call of the unsigned protocol with the
/// literal's value; under a negation, the two together become a call of the
/// signed protocol for the negated value, whatever attributes the negation has.
pub proof fn lemma_integer_literal_dispatch(attrs: Seq<Seq<char>>, n: u128)
    ensures
        rewritten(ExprView::Lit(ExprLitView { attrs: Seq::empty(), lit: LitView::Int(n) }))
            == ExprView::Overloaded(LiteralCallView::Unsigned(n)),
        rewritten(
            ExprView::Unary {
                attrs,
                op: UnOp::Neg,
                expr: Box::new(
                    ExprView::Lit(ExprLitView { attrs: Seq::empty(), lit: LitView::Int(n) }),
                ),
            },
        ) == ExprView::Overloaded(LiteralCallView::Signed { magnitude: n }),
{
}

/// A chain that the pass puts in place of a string literal can be read back: its
/// bytes fit the decoding buffer and are well-formed UTF-8.
pub proof fn lemma_wrapped_string_is_text(l: ExprLitView)
    ensures
        literal_wrapping(l) matches ExprView::Overloaded(LiteralCallView::Str(bytes))
            ==> bytes.len() <= MAX_STR_LIT_LEN && valid_utf8(bytes),
{
    if l.attrs.len() == 0 {
        if let LitView::Str(token) = l.lit {
            if let Some(text) = str_literal_value(token) {
                encode_utf8_valid_utf8(text);
            }
        }
    }
}

/// Under a negation, a literal that is no plain integer is rewritten as it is
/// elsewhere, and the negation stays above it.
pub proof fn lemma_negation_stays_above_other_literal(attrs: Seq<Seq<char>>, l: ExprLitView)
    requires
        signed_wrapping(l) is None,
    ensures
        rewritten(ExprView::Unary { attrs, op: UnOp::Neg, expr: Box::new(ExprView::Lit(l)) })
            == (ExprView::Unary { attrs, op: UnOp::Neg, expr: Box::new(literal_wrapping(l)) }),
{
}

/// A string literal that denotes a text whose bytes do not fit the decoding
/// buffer passes through the pass as it is.
pub proof fn lemma_oversized_string_passes(l: ExprLitView, text: Seq<char>)
    requires
        l.lit is Str,
        str_literal_value(l.lit->Str_0) == Some(text),
        encode_utf8(text).len() > MAX_STR_LIT_LEN,
    ensures
        str_wrapping(l, Some(text)) == ExprView::Lit(l),
        rewritten(ExprView::Lit(l)) == ExprView::Lit(l),
{
}

/// A tree without literal expressions passes through the pass as it is.
pub proof fn lemma_literal_free_is_kept(e: ExprView)
    requires
        literal_free(e),
    ensures
        rewritten(e) == e,
    decreases e,
{
    match e {
        ExprView::Unary { attrs, op, expr } => {
            lemma_literal_free_is_kept(*expr);
        },
        ExprView::Other { kind, text, children } => {
            assert forall|i: int| 0 <= i < children.len() implies rewritten(children[i])
                == children[i] by {
                lemma_literal_free_is_kept(children[i]);
            }
            assert(rewritten(e)->Other_children =~= children);
        },
        _ => {},
    }
}

/// The pass never puts a literal expression where none stood.
pub proof fn lemma_rewritten_literal_was_literal(e: ExprView)
    requires
        rewritten(e) is Lit,
    ensures
        e is Lit,
        rewritten(e) == e,
{
}

/// The pass keeps the skeleton: it changes a tree only where a literal or a
/// negated plain integer literal stands.
pub proof fn lemma_rewrite_keeps_skeleton(e: ExprView)
    ensures
        skeleton(rewritten(e)) == skeleton(e),
    decreases e,
{
    match e {
        ExprView::Unary { attrs, op, expr } => {
            lemma_rewrite_keeps_skeleton(*expr);
            if rewritten(*expr) is Lit {
                lemma_rewritten_literal_was_literal(*expr);
            }
        },
        ExprView::Other { kind, text, children } => {
            if kind != ExprKind::Verbatim {
                assert forall|i: int| 0 <= i < children.len() implies skeleton(
                    rewritten(children[i]),
                ) == skeleton(children[i]) by {
                    lemma_rewrite_keeps_skeleton(children[i]);
                }
                assert(skeleton(rewritten(e))->Other_children =~= skeleton(e)->Other_children);
            }
        },
        _ => {},
    }
}

/// Running the pass on its own result changes nothing.
pub proof fn lemma_rewrite_idempotent(e: ExprView)
    ensures
        rewritten(rewritten(e)) == rewritten(e),
    decreases e,
{
    match e {
        ExprView::Unary { attrs, op, expr } => {
            lemma_rewrite_idempotent(*expr);
            if rewritten(*expr) is Lit {
                lemma_rewritten_literal_was_literal(*expr);
            }
        },
        ExprView::Other { kind, text, children } => {
            if kind != ExprKind::Verbatim {
                assert forall|i: int| 0 <= i < children.len() implies rewritten(
                    rewritten(children[i]),
                ) == rewritten(children[i]) by {
                    lemma_rewrite_idempotent(children[i]);
                }
                assert(rewritten(rewritten(e))->Other_children =~= rewritten(e)->Other_children);
            }
        },
        _ => {},
    }
}

/// Running the pass twice over a function's body gives what one run gives.
pub proof fn lemma_rewrite_all_idempotent(es: Seq<ExprView>)
    ensures
        rewritten_all(rewritten_all(es)) == rewritten_all(es),
{
    assert forall|i: int| 0 <= i < es.len() implies rewritten(rewritten(es[i])) == rewritten(
        es[i],
    ) by {
        lemma_rewrite_idempotent(es[i]);
    }
    assert(rewritten_all(rewritten_all(es)) =~= rewritten_all(es));
}

} // verus!
