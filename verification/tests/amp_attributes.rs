use next_swc::amp_attributes::{amp_attributes, AmpAttributePatcher};
use next_swc::ast::{
    Expr, Ident, JSXAttr, JSXAttrName, JSXAttrOrSpread, JSXElement, JSXElementName,
    JSXOpeningElement, Lit, MemberExpr, MemberProp, Module, Span, TypeArgs,
};

fn sp(lo: u32, hi: u32) -> Span {
    Span { lo, hi }
}

fn ident(sym: &str, lo: u32, hi: u32) -> Ident {
    Ident { span: sp(lo, hi), sym: sym.to_string(), optional: false }
}

fn text(raw: &str, lo: u32, hi: u32) -> Expr {
    Expr::Lit(Lit { span: sp(lo, hi), raw: raw.to_string() })
}

fn attr(name: &str, value: &str) -> JSXAttrOrSpread {
    JSXAttrOrSpread::JSXAttr(JSXAttr {
        span: sp(10, 25),
        name: JSXAttrName::Ident(ident(name, 10, 19)),
        value: Some(text(value, 20, 25)),
    })
}

fn tag(name: &str, attrs: Vec<JSXAttrOrSpread>) -> JSXOpeningElement {
    JSXOpeningElement {
        name: JSXElementName::Ident(ident(name, 1, 8)),
        span: sp(0, 30),
        attrs,
        self_closing: true,
        type_args: None,
    }
}

fn element(name: &str, attrs: Vec<JSXAttrOrSpread>, children: Vec<Expr>) -> Expr {
    Expr::JSXElement(Box::new(JSXElement { span: sp(0, 60), opening: tag(name, attrs), children }))
}

fn fold(node: JSXOpeningElement) -> JSXOpeningElement {
    amp_attributes().fold_jsx_opening_element(node)
}

#[test]
fn amp_tag_has_class_name_renamed_to_class() {
    let out = fold(tag("amp-img", vec![attr("className", "\"x\"")]));
    assert_eq!(out, tag("amp-img", vec![attr("class", "\"x\"")]));
}

#[test]
fn plain_tag_is_left_alone() {
    let out = fold(tag("img", vec![attr("className", "\"x\"")]));
    assert_eq!(out, tag("img", vec![attr("className", "\"x\"")]));
}

#[test]
fn ampx_tag_is_left_alone() {
    let out = fold(tag("ampx-img", vec![attr("className", "\"x\"")]));
    assert_eq!(out, tag("ampx-img", vec![attr("className", "\"x\"")]));
}

#[test]
fn bare_amp_tag_is_left_alone() {
    let out = fold(tag("amp", vec![attr("className", "\"x\"")]));
    assert_eq!(out, tag("amp", vec![attr("className", "\"x\"")]));
}

#[test]
fn tag_that_is_only_the_prefix_is_rewritten() {
    let out = fold(tag("amp-", vec![attr("className", "\"x\"")]));
    assert_eq!(out, tag("amp-", vec![attr("class", "\"x\"")]));
}

#[test]
fn prefix_is_matched_with_its_case() {
    let out = fold(tag("AMP-img", vec![attr("className", "\"x\"")]));
    assert_eq!(out, tag("AMP-img", vec![attr("className", "\"x\"")]));
}

#[test]
fn attribute_name_is_matched_whole_and_with_its_case() {
    let given = vec![
        attr("classname", "1"),
        attr("className2", "2"),
        attr("xclassName", "3"),
        attr("class", "4"),
        attr("id", "5"),
    ];
    let same = vec![
        attr("classname", "1"),
        attr("className2", "2"),
        attr("xclassName", "3"),
        attr("class", "4"),
        attr("id", "5"),
    ];
    assert_eq!(fold(tag("amp-img", given)), tag("amp-img", same));
}

#[test]
fn every_class_name_is_renamed_and_nothing_is_merged() {
    let out = fold(tag(
        "amp-img",
        vec![attr("class", "\"a\""), attr("className", "\"b\""), attr("className", "\"c\"")],
    ));
    assert_eq!(
        out,
        tag("amp-img", vec![attr("class", "\"a\""), attr("class", "\"b\""), attr("class", "\"c\"")])
    );
    assert_eq!(out.attrs.len(), 3);
}

#[test]
fn spans_and_optional_mark_of_a_renamed_attribute_are_kept() {
    let given = JSXAttrOrSpread::JSXAttr(JSXAttr {
        span: sp(100, 140),
        name: JSXAttrName::Ident(Ident {
            span: sp(100, 109),
            sym: "className".to_string(),
            optional: true,
        }),
        value: None,
    });
    let out = fold(tag("amp-video", vec![given]));
    assert_eq!(
        out.attrs,
        vec![JSXAttrOrSpread::JSXAttr(JSXAttr {
            span: sp(100, 140),
            name: JSXAttrName::Ident(Ident {
                span: sp(100, 109),
                sym: "class".to_string(),
                optional: true,
            }),
            value: None,
        })]
    );
}

#[test]
fn tag_parts_beside_the_attributes_are_kept() {
    let given = JSXOpeningElement {
        name: JSXElementName::Ident(ident("amp-list", 3, 11)),
        span: sp(2, 50),
        attrs: vec![attr("className", "x")],
        self_closing: false,
        type_args: Some(TypeArgs { span: sp(11, 16) }),
    };
    let out = fold(given);
    assert_eq!(out.name, JSXElementName::Ident(ident("amp-list", 3, 11)));
    assert_eq!(out.span, sp(2, 50));
    assert!(!out.self_closing);
    assert_eq!(out.type_args, Some(TypeArgs { span: sp(11, 16) }));
    assert_eq!(out.attrs, vec![attr("class", "x")]);
}

#[test]
fn namespaced_attribute_and_spread_are_kept() {
    let entries = || {
        vec![
            JSXAttrOrSpread::JSXAttr(JSXAttr {
                span: sp(10, 30),
                name: JSXAttrName::JSXNamespacedName(ident("xml", 10, 13), ident("className", 14, 23)),
                value: None,
            }),
            JSXAttrOrSpread::SpreadElement(sp(31, 34), Expr::Ident(ident("className", 34, 43))),
        ]
    };
    assert_eq!(fold(tag("amp-img", entries())), tag("amp-img", entries()));
}

#[test]
fn tag_named_by_a_path_or_a_namespace_is_left_alone() {
    let path = || JSXOpeningElement {
        name: JSXElementName::JSXMemberExpr(vec![ident("amp-x", 1, 6), ident("y", 7, 8)]),
        span: sp(0, 30),
        attrs: vec![attr("className", "x")],
        self_closing: true,
        type_args: None,
    };
    assert_eq!(fold(path()), path());
    let spaced = || JSXOpeningElement {
        name: JSXElementName::JSXNamespacedName(ident("amp-x", 1, 6), ident("y", 7, 8)),
        span: sp(0, 30),
        attrs: vec![attr("className", "x")],
        self_closing: true,
        type_args: None,
    };
    assert_eq!(fold(spaced()), spaced());
}

#[test]
fn tag_without_attributes_is_kept() {
    assert_eq!(fold(tag("amp-img", vec![])), tag("amp-img", vec![]));
}

#[test]
fn folding_twice_gives_what_folding_once_gives() {
    let given = || {
        tag(
            "amp-img",
            vec![attr("className", "a"), attr("class", "b"), attr("id", "c"), attr("className", "d")],
        )
    };
    let once = fold(given());
    let twice = fold(fold(given()));
    assert_eq!(twice, once);
}

#[test]
fn nested_children_are_each_held_to_the_rule() {
    let given = element(
        "div",
        vec![attr("className", "outer")],
        vec![
            element("amp-img", vec![attr("className", "inner")], vec![]),
            text("hello", 40, 45),
            element(
                "amp-list",
                vec![attr("className", "list")],
                vec![element("span", vec![attr("className", "leaf")], vec![])],
            ),
        ],
    );
    let expected = element(
        "div",
        vec![attr("className", "outer")],
        vec![
            element("amp-img", vec![attr("class", "inner")], vec![]),
            text("hello", 40, 45),
            element(
                "amp-list",
                vec![attr("class", "list")],
                vec![element("span", vec![attr("className", "leaf")], vec![])],
            ),
        ],
    );
    assert_eq!(amp_attributes().fold_expr(given), expected);
}

#[test]
fn element_inside_an_attribute_value_is_carried_through() {
    let inner = || element("amp-img", vec![attr("className", "inner")], vec![]);
    let given = tag(
        "amp-story",
        vec![JSXAttrOrSpread::JSXAttr(JSXAttr {
            span: sp(10, 50),
            name: JSXAttrName::Ident(ident("className", 10, 19)),
            value: Some(inner()),
        })],
    );
    let out = fold(given);
    assert_eq!(
        out.attrs,
        vec![JSXAttrOrSpread::JSXAttr(JSXAttr {
            span: sp(10, 50),
            name: JSXAttrName::Ident(ident("class", 10, 19)),
            value: Some(inner()),
        })]
    );
}

#[test]
fn elements_under_member_accesses_and_other_nodes_are_reached() {
    let amp = |name: &str| element("amp-img", vec![attr(name, "x")], vec![]);
    let given = |name: &str| Module {
        span: sp(0, 200),
        body: vec![
            Expr::Other(sp(0, 100), vec![amp(name), Expr::Ident(ident("a", 90, 91))]),
            Expr::Member(MemberExpr {
                span: sp(100, 150),
                obj: Box::new(amp(name)),
                prop: MemberProp::Computed(Box::new(amp(name))),
            }),
            Expr::Member(MemberExpr {
                span: sp(150, 160),
                obj: Box::new(Expr::Ident(ident("className", 150, 159))),
                prop: MemberProp::Ident(ident("className", 159, 160)),
            }),
        ],
    };
    let mut patcher: AmpAttributePatcher = amp_attributes();
    assert_eq!(patcher.fold_module(given("className")), given("class"));
}

#[test]
fn folding_a_module_twice_gives_what_folding_once_gives() {
    let given = || Module {
        span: sp(0, 100),
        body: vec![
            element(
                "amp-a",
                vec![attr("className", "1"), attr("class", "2")],
                vec![element("amp-b", vec![attr("className", "3")], vec![])],
            ),
            element("b", vec![attr("className", "4")], vec![]),
        ],
    };
    let once = amp_attributes().fold_module(given());
    let twice = amp_attributes().fold_module(amp_attributes().fold_module(given()));
    assert_eq!(twice, once);
}

#[test]
fn module_without_elements_is_kept() {
    let given = || Module {
        span: sp(0, 10),
        body: vec![Expr::Ident(ident("className", 0, 9)), text("\"amp-img\"", 9, 10)],
    };
    assert_eq!(amp_attributes().fold_module(given()), given());
}
