//! The syntax tree that the passes read and rewrite, and its mathematical view.
//!
//! Every node carries the span of source text it was read from. A node kind
//! that no pass of this crate looks into is kept as `Expr::Other`, with its
//! sub-expressions in source order.

use vstd::prelude::*;

verus! {

/// A half-open range of positions in the source text.
#[derive(Clone, Copy, Debug, PartialEq, Eq, Structural)]
pub struct Span {
    pub lo: u32,
    pub hi: u32,
}

/// An identifier: its name, where it stands, and whether it is marked optional.
#[derive(Clone, Debug, PartialEq, Eq)]
pub struct Ident {
    pub span: Span,
    pub sym: String,
    pub optional: bool,
}

/// A literal, kept as the text it was written with.
#[derive(Clone, Debug, PartialEq, Eq)]
pub struct Lit {
    pub span: Span,
    pub raw: String,
}

/// An expression.
#[derive(Debug, PartialEq, Eq)]
pub enum Expr {
    /// A bare identifier.
    Ident(Ident),
    /// A literal.
    Lit(Lit),
    /// A member access, `obj.prop` or `obj[prop]`.
    Member(MemberExpr),
    /// A markup element.
    JSXElement(Box<JSXElement>),
    /// Any other construct, with its sub-expressions in source order.
    Other(Span, Vec<Expr>),
}

/// A member access.
#[derive(Debug, PartialEq, Eq)]
pub struct MemberExpr {
    pub span: Span,
    pub obj: Box<Expr>,
    pub prop: MemberProp,
}

/// What a member access names on its object.
#[derive(Debug, PartialEq, Eq)]
pub enum MemberProp {
    /// `obj.name`
    Ident(Ident),
    /// `obj.#name`
    PrivateName(Ident),
    /// `obj[expr]`
    Computed(Box<Expr>),
}

/// A markup element: its opening tag and what stands between the tags.
#[derive(Debug, PartialEq, Eq)]
pub struct JSXElement {
    pub span: Span,
    pub opening: JSXOpeningElement,
    pub children: Vec<Expr>,
}

/// The generic arguments written after a tag name.
#[derive(Clone, Copy, Debug, PartialEq, Eq, Structural)]
pub struct TypeArgs {
    pub span: Span,
}

/// The opening tag of a markup element.
#[derive(Debug, PartialEq, Eq)]
pub struct JSXOpeningElement {
    pub name: JSXElementName,
    pub span: Span,
    pub attrs: Vec<JSXAttrOrSpread>,
    pub self_closing: bool,
    pub type_args: Option<TypeArgs>,
}

/// The name of a tag.
#[derive(Clone, Debug, PartialEq, Eq)]
pub enum JSXElementName {
    /// `<name>`
    Ident(Ident),
    /// `<a.b.c>`, as its dotted parts.
    JSXMemberExpr(Vec<Ident>),
    /// `<ns:name>`
    JSXNamespacedName(Ident, Ident),
}

/// One entry of a tag's attribute list.
#[derive(Debug, PartialEq, Eq)]
pub enum JSXAttrOrSpread {
    /// `name=value`
    JSXAttr(JSXAttr),
    /// `{...expr}`, with the span of the three dots.
    SpreadElement(Span, Expr),
}

/// A named attribute.
#[derive(Debug, PartialEq, Eq)]
pub struct JSXAttr {
    pub span: Span,
    pub name: JSXAttrName,
    pub value: Option<Expr>,
}

/// The name of an attribute.
#[derive(Clone, Debug, PartialEq, Eq)]
pub enum JSXAttrName {
    /// `name`
    Ident(Ident),
    /// `ns:name`
    JSXNamespacedName(Ident, Ident),
}

/// One parsed module.
#[derive(Debug, PartialEq, Eq)]
pub struct Module {
    pub span: Span,
    pub body: Vec<Expr>,
}

/// The view of an [`Ident`].
pub ghost struct IdentView {
    pub span: Span,
    pub sym: Seq<char>,
    pub optional: bool,
}

/// The view of a [`Lit`].
pub ghost struct LitView {
    pub span: Span,
    pub raw: Seq<char>,
}

/// The view of an [`Expr`].
pub ghost enum ExprView {
    Ident(IdentView),
    Lit(LitView),
    Member(MemberExprView),
    JSXElement(Box<JSXElementView>),
    Other(Span, Seq<ExprView>),
}

/// The view of a [`MemberExpr`].
pub ghost struct MemberExprView {
    pub span: Span,
    pub obj: Box<ExprView>,
    pub prop: MemberPropView,
}

/// The view of a [`MemberProp`].
pub ghost enum MemberPropView {
    Ident(IdentView),
    PrivateName(IdentView),
    Computed(Box<ExprView>),
}

/// The view of a [`JSXElement`].
pub ghost struct JSXElementView {
    pub span: Span,
    pub opening: JSXOpeningElementView,
    pub children: Seq<ExprView>,
}

/// The view of a [`JSXOpeningElement`].
pub ghost struct JSXOpeningElementView {
    pub name: JSXElementNameView,
    pub span: Span,
    pub attrs: Seq<JSXAttrOrSpreadView>,
    pub self_closing: bool,
    pub type_args: Option<TypeArgs>,
}

/// The view of a [`JSXElementName`].
pub ghost enum JSXElementNameView {
    Ident(IdentView),
    JSXMemberExpr(Seq<IdentView>),
    JSXNamespacedName(IdentView, IdentView),
}

/// The view of a [`JSXAttrOrSpread`].
pub ghost enum JSXAttrOrSpreadView {
    JSXAttr(JSXAttrView),
    SpreadElement(Span, ExprView),
}

/// The view of a [`JSXAttr`].
pub ghost struct JSXAttrView {
    pub span: Span,
    pub name: JSXAttrNameView,
    pub value: Option<ExprView>,
}

/// The view of a [`JSXAttrName`].
pub ghost enum JSXAttrNameView {
    Ident(IdentView),
    JSXNamespacedName(IdentView, IdentView),
}

/// The view of a [`Module`].
pub ghost struct ModuleView {
    pub span: Span,
    pub body: Seq<ExprView>,
}

impl View for Ident {
    type V = IdentView;

    open spec fn view(&self) -> IdentView {
        IdentView { span: self.span, sym: self.sym@, optional: self.optional }
    }
}

impl View for Lit {
    type V = LitView;

    open spec fn view(&self) -> LitView {
        LitView { span: self.span, raw: self.raw@ }
    }
}

/// The views of `idents`, in order.
pub open spec fn ident_views(idents: Seq<Ident>) -> Seq<IdentView> {
    Seq::new(idents.len(), |i: int| idents[i]@)
}

/// The view of `expr`.
pub open spec fn expr_view(expr: Expr) -> ExprView
    decreases expr,
{
    match expr {
        Expr::Ident(id) => ExprView::Ident(id@),
        Expr::Lit(lit) => ExprView::Lit(lit@),
        Expr::Member(member) => ExprView::Member(member_view(member)),
        Expr::JSXElement(element) => ExprView::JSXElement(Box::new(element_view(*element))),
        Expr::Other(span, parts) => ExprView::Other(span, expr_views(parts@)),
    }
}

/// The views of `exprs`, in order.
pub open spec fn expr_views(exprs: Seq<Expr>) -> Seq<ExprView>
    decreases exprs,
{
    Seq::new(
        exprs.len(),
        |i: int|
            if 0 <= i < exprs.len() {
                expr_view(exprs[i])
            } else {
                arbitrary()
            },
    )
}

/// The view of `member`.
pub open spec fn member_view(member: MemberExpr) -> MemberExprView
    decreases member,
{
    MemberExprView {
        span: member.span,
        obj: Box::new(expr_view(*member.obj)),
        prop: match member.prop {
            MemberProp::Ident(id) => MemberPropView::Ident(id@),
            MemberProp::PrivateName(id) => MemberPropView::PrivateName(id@),
            MemberProp::Computed(expr) => MemberPropView::Computed(Box::new(expr_view(*expr))),
        },
    }
}

/// The view of `element`.
pub open spec fn element_view(element: JSXElement) -> JSXElementView
    decreases element,
{
    JSXElementView {
        span: element.span,
        opening: opening_view(element.opening),
        children: expr_views(element.children@),
    }
}

/// The view of `opening`.
pub open spec fn opening_view(opening: JSXOpeningElement) -> JSXOpeningElementView
    decreases opening,
{
    JSXOpeningElementView {
        name: opening.name@,
        span: opening.span,
        attrs: attr_views(opening.attrs@),
        self_closing: opening.self_closing,
        type_args: opening.type_args,
    }
}

/// The views of `attrs`, in order.
pub open spec fn attr_views(attrs: Seq<JSXAttrOrSpread>) -> Seq<JSXAttrOrSpreadView>
    decreases attrs,
{
    Seq::new(
        attrs.len(),
        |i: int|
            if 0 <= i < attrs.len() {
                attr_or_spread_view(attrs[i])
            } else {
                arbitrary()
            },
    )
}

/// The view of `entry`.
pub open spec fn attr_or_spread_view(entry: JSXAttrOrSpread) -> JSXAttrOrSpreadView
    decreases entry,
{
    match entry {
        JSXAttrOrSpread::JSXAttr(attr) => JSXAttrOrSpreadView::JSXAttr(
            JSXAttrView {
                span: attr.span,
                name: attr.name@,
                value: match attr.value {
                    Some(expr) => Some(expr_view(expr)),
                    None => None,
                },
            },
        ),
        JSXAttrOrSpread::SpreadElement(dot3, expr) => JSXAttrOrSpreadView::SpreadElement(
            dot3,
            expr_view(expr),
        ),
    }
}

impl View for JSXElementName {
    type V = JSXElementNameView;

    open spec fn view(&self) -> JSXElementNameView {
        match *self {
            JSXElementName::Ident(id) => JSXElementNameView::Ident(id@),
            JSXElementName::JSXMemberExpr(parts) => JSXElementNameView::JSXMemberExpr(
                ident_views(parts@),
            ),
            JSXElementName::JSXNamespacedName(ns, name) => JSXElementNameView::JSXNamespacedName(
                ns@,
                name@,
            ),
        }
    }
}

impl View for JSXAttrName {
    type V = JSXAttrNameView;

    open spec fn view(&self) -> JSXAttrNameView {
        match *self {
            JSXAttrName::Ident(id) => JSXAttrNameView::Ident(id@),
            JSXAttrName::JSXNamespacedName(ns, name) => JSXAttrNameView::JSXNamespacedName(
                ns@,
                name@,
            ),
        }
    }
}

impl View for Expr {
    type V = ExprView;

    open spec fn view(&self) -> ExprView {
        expr_view(*self)
    }
}

impl View for MemberExpr {
    type V = MemberExprView;

    open spec fn view(&self) -> MemberExprView {
        member_view(*self)
    }
}

impl View for JSXElement {
    type V = JSXElementView;

    open spec fn view(&self) -> JSXElementView {
        element_view(*self)
    }
}

impl View for JSXOpeningElement {
    type V = JSXOpeningElementView;

    open spec fn view(&self) -> JSXOpeningElementView {
        opening_view(*self)
    }
}

impl View for JSXAttrOrSpread {
    type V = JSXAttrOrSpreadView;

    open spec fn view(&self) -> JSXAttrOrSpreadView {
        attr_or_spread_view(*self)
    }
}

impl View for JSXAttr {
    type V = JSXAttrView;

    open spec fn view(&self) -> JSXAttrView {
        JSXAttrView {
            span: self.span,
            name: self.name@,
            value: match self.value {
                Some(expr) => Some(expr@),
                None => None,
            },
        }
    }
}

impl View for Module {
    type V = ModuleView;

    open spec fn view(&self) -> ModuleView {
        ModuleView { span: self.span, body: expr_views(self.body@) }
    }
}

} // verus!
