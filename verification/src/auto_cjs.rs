//! The structural test for the `module.exports` convention: a module uses it
//! when some member access in it has the bare identifier `module` as its
//! object and the bare identifier `exports` as its property.

use vstd::prelude::*;
use crate::ast::{
    expr_views, Expr, ExprView, JSXAttrOrSpread, JSXAttrOrSpreadView, JSXElement, JSXElementView,
    JSXOpeningElement, JSXOpeningElementView, MemberExpr, MemberExprView, MemberProp,
    MemberPropView, Module, ModuleView,
};
use crate::text::same_text;

verus! {

/// Whether `member` is `module.exports`, both parts bare identifiers.
pub open spec fn is_module_exports(member: MemberExprView) -> bool {
    &&& *member.obj matches ExprView::Ident(obj) && obj.sym == "module"@
    &&& member.prop matches MemberPropView::Ident(prop) && prop.sym == "exports"@
}

/// Whether `member` is `module.exports` or holds such an access in its object
/// or in a computed property.
pub open spec fn member_uses_cjs(member: MemberExprView) -> bool
    decreases member,
{
    ||| is_module_exports(member)
    ||| expr_uses_cjs(*member.obj)
    ||| (member.prop matches MemberPropView::Computed(inner) && expr_uses_cjs(*inner))
}

/// Whether the value of an attribute, or the expression of a spread, holds a
/// `module.exports`.
pub open spec fn attr_uses_cjs(entry: JSXAttrOrSpreadView) -> bool
    decreases entry,
{
    match entry {
        JSXAttrOrSpreadView::JSXAttr(attr) => attr.value matches Some(value) && expr_uses_cjs(
            value,
        ),
        JSXAttrOrSpreadView::SpreadElement(_, expr) => expr_uses_cjs(expr),
    }
}

/// Whether some entry of an opening tag's attribute list holds a `module.exports`.
pub open spec fn opening_uses_cjs(opening: JSXOpeningElementView) -> bool
    decreases opening,
{
    exists|i: int| 0 <= i < opening.attrs.len() && attr_uses_cjs(opening.attrs[i])
}

/// Whether an element holds a `module.exports`, in its opening tag or in a child.
pub open spec fn element_uses_cjs(element: JSXElementView) -> bool
    decreases element,
{
    opening_uses_cjs(element.opening) || any_uses_cjs(element.children)
}

/// Whether `expr` holds a `module.exports` anywhere in it.
pub open spec fn expr_uses_cjs(expr: ExprView) -> bool
    decreases expr,
{
    match expr {
        ExprView::Ident(_) => false,
        ExprView::Lit(_) => false,
        ExprView::Member(member) => member_uses_cjs(member),
        ExprView::JSXElement(element) => element_uses_cjs(*element),
        ExprView::Other(_, parts) => any_uses_cjs(parts),
    }
}

/// Whether one of `exprs` holds a `module.exports`.
pub open spec fn any_uses_cjs(exprs: Seq<ExprView>) -> bool
    decreases exprs,
{
    exists|i: int| 0 <= i < exprs.len() && expr_uses_cjs(exprs[i])
}

/// Whether `module` holds a `module.exports` anywhere in it.
pub open spec fn module_uses_cjs(module: ModuleView) -> bool {
    any_uses_cjs(module.body)
}

/// A visitor that remembers whether it has met a `module.exports`.
#[derive(Clone, Copy, Debug)]
pub struct CjsFinder {
    pub found: bool,
}

impl Default for CjsFinder {
    /// A finder that has met nothing yet.
    fn default() -> (finder: CjsFinder)
        ensures
            !finder.found,
    {
        CjsFinder { found: false }
    }
}

impl CjsFinder {
    /// A finder that has met nothing yet.
    pub fn new() -> (finder: CjsFinder)
        ensures
            !finder.found,
    {
        CjsFinder { found: false }
    }

    /// Visits a member access. On `module.exports` itself the finder is set
    /// and the access is not descended into; otherwise its object and its
    /// property are visited.
    pub fn visit_member_expr(&mut self, e: &MemberExpr)
        ensures
            final(self).found == (old(self).found || member_uses_cjs(e@)),
        decreases e,
    {
        match &*e.obj {
            Expr::Ident(obj) => match &e.prop {
                MemberProp::Ident(prop) => {
                    if same_text(obj.sym.as_str(), "module") && same_text(
                        prop.sym.as_str(),
                        "exports",
                    ) {
                        self.found = true;
                        return ;
                    }
                },
                _ => {},
            },
            _ => {},
        }
        self.visit_expr(&*e.obj);
        match &e.prop {
            MemberProp::Computed(inner) => {
                self.visit_expr(&**inner);
            },
            _ => {},
        }
    }

    /// Visits the attribute values and spread expressions of an opening tag.
    pub fn visit_jsx_opening_element(&mut self, opening: &JSXOpeningElement)
        ensures
            final(self).found == (old(self).found || opening_uses_cjs(opening@)),
        decreases opening,
    {
        let mut i: usize = 0;
        while i < opening.attrs.len()
            invariant
                i <= opening.attrs.len(),
                self.found == (old(self).found || exists|j: int|
                    0 <= j < i && attr_uses_cjs(opening@.attrs[j])),
            decreases opening.attrs.len() - i,
        {
            match &opening.attrs[i] {
                JSXAttrOrSpread::JSXAttr(attr) => match &attr.value {
                    Some(value) => {
                        self.visit_expr(value);
                    },
                    None => {},
                },
                JSXAttrOrSpread::SpreadElement(_, expr) => {
                    self.visit_expr(expr);
                },
            }
            assert(attr_uses_cjs(opening@.attrs[i as int]) ==> exists|j: int|
                0 <= j < i + 1 && attr_uses_cjs(opening@.attrs[j]));
            i += 1;
        }
    }

    /// Visits an element: its opening tag, then its children.
    pub fn visit_jsx_element(&mut self, element: &JSXElement)
        ensures
            final(self).found == (old(self).found || element_uses_cjs(element@)),
        decreases element,
    {
        self.visit_jsx_opening_element(&element.opening);
        self.visit_exprs(&element.children);
    }

    /// Visits an expression.
    pub fn visit_expr(&mut self, expr: &Expr)
        ensures
            final(self).found == (old(self).found || expr_uses_cjs(expr@)),
        decreases expr,
    {
        match expr {
            Expr::Ident(_) => {},
            Expr::Lit(_) => {},
            Expr::Member(member) => {
                self.visit_member_expr(member);
            },
            Expr::JSXElement(element) => {
                self.visit_jsx_element(&**element);
            },
            Expr::Other(_, parts) => {
                self.visit_exprs(parts);
            },
        }
    }

    /// Visits each expression of a list, in order.
    pub fn visit_exprs(&mut self, exprs: &Vec<Expr>)
        ensures
            final(self).found == (old(self).found || any_uses_cjs(expr_views(exprs@))),
        decreases exprs,
    {
        let mut i: usize = 0;
        while i < exprs.len()
            invariant
                i <= exprs.len(),
                self.found == (old(self).found || exists|j: int|
                    0 <= j < i && expr_uses_cjs(expr_views(exprs@)[j])),
            decreases exprs.len() - i,
        {
            self.visit_expr(&exprs[i]);
            assert(expr_uses_cjs(expr_views(exprs@)[i as int]) ==> exists|j: int|
                0 <= j < i + 1 && expr_uses_cjs(expr_views(exprs@)[j]));
            i += 1;
        }
    }

    /// Visits a module.
    pub fn visit_module(&mut self, module: &Module)
        ensures
            final(self).found == (old(self).found || module_uses_cjs(module@)),
    {
        self.visit_exprs(&module.body);
    }
}

/// Whether `m` holds a `module.exports` anywhere in it.
pub fn contains_cjs(m: &Module) -> (found: bool)
    ensures
        found == module_uses_cjs(m@),
{
    let mut v = CjsFinder::new();
    v.visit_module(m);
    v.found
}

} // verus!
