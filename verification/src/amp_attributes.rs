//! The attribute rewriter: on a tag whose name starts with `amp-`, every
//! attribute named `className` is renamed to `class`.
//!
//! The rewriter visits every markup element that stands in expression or
//! child position. It does not look into the attribute list of a tag beyond
//! the attribute names, so an element written inside an attribute value is
//! carried through as it is.

use vstd::prelude::*;
use crate::ast::{
    expr_views, Expr, ExprView, IdentView, JSXAttrName, JSXAttrNameView, JSXAttrOrSpread,
    JSXAttrOrSpreadView, JSXAttrView, JSXElement, JSXElementName, JSXElementNameView,
    JSXElementView, JSXOpeningElement, JSXOpeningElementView, MemberExpr, MemberExprView,
    MemberProp, MemberPropView, Module, ModuleView,
};
use crate::text::{begins_with, same_text, starts_with};

verus! {

/// Whether `name` is a bare identifier that starts with `amp-`.
pub open spec fn is_amp_name(name: JSXElementNameView) -> bool {
    name matches JSXElementNameView::Ident(id) && begins_with(id.sym, "amp-"@)
}

/// `entry` as it stands on a rewritten tag: an attribute whose name is the
/// bare identifier `className` is named `class`, with its span, its value and
/// the span and optional mark of its name kept; any other entry is kept whole.
pub open spec fn renamed(entry: JSXAttrOrSpreadView) -> JSXAttrOrSpreadView {
    match entry {
        JSXAttrOrSpreadView::JSXAttr(attr) => match attr.name {
            JSXAttrNameView::Ident(id) if id.sym == "className"@ => JSXAttrOrSpreadView::JSXAttr(
                JSXAttrView {
                    name: JSXAttrNameView::Ident(IdentView { sym: "class"@, ..id }),
                    ..attr
                },
            ),
            _ => entry,
        },
        _ => entry,
    }
}

/// What the rewriter makes of one opening tag: under an `amp-` name every
/// entry of the attribute list is [`renamed`], in place; any other tag is
/// kept whole.
pub open spec fn rewritten_opening(node: JSXOpeningElementView) -> JSXOpeningElementView {
    if is_amp_name(node.name) {
        JSXOpeningElementView { attrs: node.attrs.map_values(|entry| renamed(entry)), ..node }
    } else {
        node
    }
}

/// What the rewriter makes of a member access: its object and a computed
/// property are rewritten.
pub open spec fn rewritten_member(member: MemberExprView) -> MemberExprView
    decreases member,
{
    MemberExprView {
        span: member.span,
        obj: Box::new(rewritten_expr(*member.obj)),
        prop: match member.prop {
            MemberPropView::Computed(expr) => MemberPropView::Computed(
                Box::new(rewritten_expr(*expr)),
            ),
            _ => member.prop,
        },
    }
}

/// What the rewriter makes of an element: its opening tag is rewritten, and
/// so is each child.
pub open spec fn rewritten_element(element: JSXElementView) -> JSXElementView
    decreases element,
{
    JSXElementView {
        span: element.span,
        opening: rewritten_opening(element.opening),
        children: rewritten_exprs(element.children),
    }
}

/// What the rewriter makes of an expression.
pub open spec fn rewritten_expr(expr: ExprView) -> ExprView
    decreases expr,
{
    match expr {
        ExprView::Ident(_) => expr,
        ExprView::Lit(_) => expr,
        ExprView::Member(member) => ExprView::Member(rewritten_member(member)),
        ExprView::JSXElement(element) => ExprView::JSXElement(
            Box::new(rewritten_element(*element)),
        ),
        ExprView::Other(span, parts) => ExprView::Other(span, rewritten_exprs(parts)),
    }
}

/// What the rewriter makes of a list of expressions: each is rewritten, in place.
pub open spec fn rewritten_exprs(exprs: Seq<ExprView>) -> Seq<ExprView>
    decreases exprs,
{
    Seq::new(
        exprs.len(),
        |i: int|
            if 0 <= i < exprs.len() {
                rewritten_expr(exprs[i])
            } else {
                arbitrary()
            },
    )
}

/// What the rewriter makes of a module.
pub open spec fn rewritten_module(module: ModuleView) -> ModuleView {
    ModuleView { span: module.span, body: rewritten_exprs(module.body) }
}

/// The attribute rewriter. It keeps nothing from one tree to the next.
#[derive(Debug, Default)]
pub struct AmpAttributePatcher {}

/// The attribute rewriter, ready to be applied.
pub fn amp_attributes() -> (patcher: AmpAttributePatcher)
    ensures
        patcher == (AmpAttributePatcher {  }),
{
    AmpAttributePatcher {  }
}

impl AmpAttributePatcher {
    /// Rewrites one opening tag.
    pub fn fold_jsx_opening_element(&mut self, node: JSXOpeningElement) -> (out: JSXOpeningElement)
        ensures
            out@ == rewritten_opening(node@),
    {
        let ghost given = node;
        let mut node = node;
        let amp = match &node.name {
            JSXElementName::Ident(id) => starts_with(id.sym.as_str(), "amp-"),
            _ => false,
        };
        if amp {
            let mut i: usize = 0;
            while i < node.attrs.len()
                invariant
                    i <= node.attrs.len(),
                    node.attrs.len() == given.attrs.len(),
                    node.name == given.name,
                    node.span == given.span,
                    node.self_closing == given.self_closing,
                    node.type_args == given.type_args,
                    forall|j: int| 0 <= j < i ==> node.attrs@[j]@ == renamed(given.attrs@[j]@),
                    forall|j: int| i <= j < node.attrs.len() ==> node.attrs@[j] == given.attrs@[j],
                decreases node.attrs.len() - i,
            {
                match &mut node.attrs[i] {
                    JSXAttrOrSpread::JSXAttr(attr) => match &mut attr.name {
                        JSXAttrName::Ident(id) => {
                            if same_text(id.sym.as_str(), "className") {
                                id.sym = "class".to_string();
                            }
                        },
                        _ => {},
                    },
                    _ => {},
                }
                i += 1;
            }
            assert(node@.attrs =~= given@.attrs.map_values(|entry| renamed(entry)));
        }
        node
    }

    /// Rewrites a member access.
    pub fn fold_member_expr(&mut self, member: MemberExpr) -> (out: MemberExpr)
        ensures
            out@ == rewritten_member(member@),
        decreases member,
    {
        let MemberExpr { span, obj, prop } = member;
        let obj = self.fold_expr(*obj);
        let prop = match prop {
            MemberProp::Computed(expr) => MemberProp::Computed(Box::new(self.fold_expr(*expr))),
            MemberProp::Ident(id) => MemberProp::Ident(id),
            MemberProp::PrivateName(id) => MemberProp::PrivateName(id),
        };
        MemberExpr { span, obj: Box::new(obj), prop }
    }

    /// Rewrites an element: its opening tag and each of its children.
    pub fn fold_jsx_element(&mut self, element: JSXElement) -> (out: JSXElement)
        ensures
            out@ == rewritten_element(element@),
        decreases element,
    {
        let JSXElement { span, opening, children } = element;
        let opening = self.fold_jsx_opening_element(opening);
        let children = self.fold_exprs(children);
        JSXElement { span, opening, children }
    }

    /// Rewrites an expression.
    pub fn fold_expr(&mut self, expr: Expr) -> (out: Expr)
        ensures
            out@ == rewritten_expr(expr@),
        decreases expr,
    {
        match expr {
            Expr::Ident(id) => Expr::Ident(id),
            Expr::Lit(lit) => Expr::Lit(lit),
            Expr::Member(member) => Expr::Member(self.fold_member_expr(member)),
            Expr::JSXElement(element) => Expr::JSXElement(
                Box::new(self.fold_jsx_element(*element)),
            ),
            Expr::Other(span, parts) => Expr::Other(span, self.fold_exprs(parts)),
        }
    }

    /// Rewrites each expression of a list, in place.
    pub fn fold_exprs(&mut self, exprs: Vec<Expr>) -> (out: Vec<Expr>)
        ensures
            expr_views(out@) == rewritten_exprs(expr_views(exprs@)),
        decreases exprs,
    {
        let mut out: Vec<Expr> = Vec::new();
        for expr in it: exprs.into_iter()
            invariant
                it.seq() == exprs@,
                out.len() == it.index(),
                forall|j: int| 0 <= j < out.len() ==> out@[j]@ == rewritten_expr(exprs@[j]@),
        {
            let folded = self.fold_expr(expr);
            out.push(folded);
        }
        assert(expr_views(out@) =~= rewritten_exprs(expr_views(exprs@)));
        out
    }

    /// Rewrites a module.
    pub fn fold_module(&mut self, module: Module) -> (out: Module)
        ensures
            out@ == rewritten_module(module@),
    {
        let Module { span, body } = module;
        Module { span, body: self.fold_exprs(body) }
    }
}

/// Renaming an entry a second time changes nothing: no renamed entry is named
/// `className`.
pub proof fn lemma_renamed_twice(entry: JSXAttrOrSpreadView)
    ensures
        renamed(renamed(entry)) == renamed(entry),
{
    reveal_strlit("class");
    reveal_strlit("className");
    assert("class"@.len() != "className"@.len());
}

/// Rewriting an opening tag a second time changes nothing.
pub proof fn lemma_rewritten_opening_twice(node: JSXOpeningElementView)
    ensures
        rewritten_opening(rewritten_opening(node)) == rewritten_opening(node),
{
    if is_amp_name(node.name) {
        let once = node.attrs.map_values(|entry| renamed(entry));
        let twice = once.map_values(|entry| renamed(entry));
        assert forall|i: int| 0 <= i < once.len() implies twice[i] == once[i] by {
            lemma_renamed_twice(node.attrs[i]);
        }
        assert(twice =~= once);
    }
}

/// Rewriting an expression a second time changes nothing.
pub proof fn lemma_rewritten_expr_twice(expr: ExprView)
    ensures
        rewritten_expr(rewritten_expr(expr)) == rewritten_expr(expr),
    decreases expr,
{
    match expr {
        ExprView::Ident(_) => {},
        ExprView::Lit(_) => {},
        ExprView::Member(member) => {
            lemma_rewritten_expr_twice(*member.obj);
            match member.prop {
                MemberPropView::Computed(inner) => {
                    lemma_rewritten_expr_twice(*inner);
                },
                _ => {},
            }
        },
        ExprView::JSXElement(element) => {
            lemma_rewritten_opening_twice(element.opening);
            lemma_rewritten_exprs_twice(element.children);
        },
        ExprView::Other(_, parts) => {
            lemma_rewritten_exprs_twice(parts);
        },
    }
}

/// Rewriting a list of expressions a second time changes nothing.
pub proof fn lemma_rewritten_exprs_twice(exprs: Seq<ExprView>)
    ensures
        rewritten_exprs(rewritten_exprs(exprs)) == rewritten_exprs(exprs),
    decreases exprs,
{
    let once = rewritten_exprs(exprs);
    assert forall|i: int| 0 <= i < exprs.len() implies rewritten_exprs(once)[i] == once[i] by {
        lemma_rewritten_expr_twice(exprs[i]);
    }
    assert(rewritten_exprs(once) =~= once);
}

/// Applying the rewriter twice to any module gives what applying it once gives.
pub proof fn lemma_rewritten_module_twice(module: ModuleView)
    ensures
        rewritten_module(rewritten_module(module)) == rewritten_module(module),
{
    lemma_rewritten_exprs_twice(module.body);
}

/// A tag whose name does not start with `amp-` comes out as it went in,
/// attributes included.
pub proof fn lemma_other_tag_kept(node: JSXOpeningElementView)
    requires
        !is_amp_name(node.name),
    ensures
        rewritten_opening(node) == node,
{
}

/// On any tag the rewriter keeps the name, the span, the self-closing mark,
/// the generic arguments and the number of attributes; every entry that is
/// not an attribute named `className` stays what it was.
pub proof fn lemma_rewritten_opening_frame(node: JSXOpeningElementView)
    ensures
        rewritten_opening(node).name == node.name,
        rewritten_opening(node).span == node.span,
        rewritten_opening(node).self_closing == node.self_closing,
        rewritten_opening(node).type_args == node.type_args,
        rewritten_opening(node).attrs.len() == node.attrs.len(),
        forall|i: int|
            #![trigger rewritten_opening(node).attrs[i]]
            0 <= i < node.attrs.len() && !(node.attrs[i] matches JSXAttrOrSpreadView::JSXAttr(attr)
                && attr.name matches JSXAttrNameView::Ident(id) && id.sym == "className"@)
                ==> rewritten_opening(node).attrs[i] == node.attrs[i],
{
}

} // verus!
