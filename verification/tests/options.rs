use next_swc::ast::{Expr, Ident, MemberExpr, MemberProp, Module, Span};
use next_swc::options::{
    mentions_cjs, Config, EmotionOptions, FileName, ModuleConfig, Options, SourceFile,
};
use next_swc::TransformOptions;

fn base() -> TransformOptions {
    TransformOptions {
        swc: Options { swcrc: true, module: None },
        disable_next_ssg: false,
        disable_page_config: false,
        is_page_file: false,
        is_development: true,
        is_server: false,
        server_components: None,
        styled_jsx: true,
        styled_components: true,
        remove_console: Some(Config::All(true)),
        react_remove_properties: None,
        relay: false,
        shake_exports: false,
        emotion: Some(EmotionOptions { enabled: None }),
        modularize_imports: false,
        font_loaders: false,
    }
}

fn file(src: &str) -> SourceFile {
    SourceFile { name: FileName::Real(Some("/project/pages/index.js".to_string())), src: src.to_string() }
}

fn word(sym: &str) -> Expr {
    Expr::Ident(Ident { span: Span { lo: 0, hi: 1 }, sym: sym.to_string(), optional: false })
}

fn access(obj: Expr, prop: &str) -> Expr {
    Expr::Member(MemberExpr {
        span: Span { lo: 0, hi: 1 },
        obj: Box::new(obj),
        prop: MemberProp::Ident(Ident {
            span: Span { lo: 0, hi: 1 },
            sym: prop.to_string(),
            optional: false,
        }),
    })
}

fn tree(body: Vec<Expr>) -> Module {
    Module { span: Span { lo: 0, hi: 100 }, body }
}

fn exports_foo() -> Module {
    // module.exports.foo = 1;
    tree(vec![Expr::Other(
        Span { lo: 0, hi: 23 },
        vec![access(access(word("module"), "exports"), "foo")],
    )])
}

#[test]
fn text_with_a_marker_word_is_told_from_text_without() {
    assert!(mentions_cjs("module.exports.foo = 1;"));
    assert!(mentions_cjs("Object.defineProperty(exports, \"__esModule\", { value: true });"));
    assert!(mentions_cjs("// module.exports documentation"));
    assert!(!mentions_cjs("// module exports documentation"));
    assert!(!mentions_cjs("export default function Page() {}"));
    assert!(!mentions_cjs("module.export = 1; _esModule"));
    assert!(!mentions_cjs(""));
}

#[test]
fn file_that_assigns_to_module_exports_gets_commonjs() {
    let fm = file("module.exports.foo = 1;");
    assert!(base().wants_parse(&fm));
    let out = base().patch(&fm, Some(&exports_foo()));
    assert_eq!(out.swc.module, Some(ModuleConfig::CommonJs));
    assert!(!out.swc.swcrc);
}

#[test]
fn file_with_the_words_in_a_comment_only_keeps_its_format() {
    let fm = file("// module.exports documentation");
    assert!(base().wants_parse(&fm));
    let out = base().patch(&fm, Some(&tree(vec![])));
    assert_eq!(out.swc.module, None);
    assert!(!out.swc.swcrc);
}

#[test]
fn file_with_the_other_marker_and_no_access_keeps_its_format() {
    let fm = file("exports.__esModule = true;");
    assert!(base().wants_parse(&fm));
    let parsed = tree(vec![access(word("exports"), "__esModule")]);
    assert_eq!(base().patch(&fm, Some(&parsed)).swc.module, None);
}

#[test]
fn file_without_a_marker_word_is_not_parsed() {
    let broken = file("function ( { module exports");
    assert!(!base().wants_parse(&broken));
    let out = base().patch(&broken, None);
    assert_eq!(out.swc.module, None);
    assert!(!out.swc.swcrc);
}

#[test]
fn tree_is_not_looked_at_where_the_text_has_no_marker_word() {
    let fm = file("export const a = 1;");
    let out = base().patch(&fm, Some(&exports_foo()));
    assert_eq!(out.swc.module, None);
}

#[test]
fn file_that_could_not_be_parsed_keeps_its_format() {
    let fm = file("module.exports = {");
    assert!(base().wants_parse(&fm));
    assert_eq!(base().patch(&fm, None).swc.module, None);
}

#[test]
fn format_that_the_caller_fixed_is_kept() {
    let fm = file("module.exports.foo = 1;");
    let formats = [
        ModuleConfig::Es6,
        ModuleConfig::Umd,
        ModuleConfig::Amd,
        ModuleConfig::SystemJs,
        ModuleConfig::NodeNext,
        ModuleConfig::CommonJs,
    ];
    for format in formats {
        let mut opts = base();
        opts.swc.module = Some(format);
        assert!(!opts.wants_parse(&fm));
        assert_eq!(opts.patch(&fm, Some(&exports_foo())).swc.module, Some(format));
    }
}

#[test]
fn patch_touches_the_two_compiler_options_only() {
    let fm = file("module.exports.foo = 1;");
    let out = base().patch(&fm, Some(&exports_foo()));
    let mut expected = base();
    expected.swc = Options { swcrc: false, module: Some(ModuleConfig::CommonJs) };
    assert_eq!(out, expected);
    let kept = base().patch(&file("let a;"), None);
    let mut unchanged = base();
    unchanged.swc.swcrc = false;
    assert_eq!(kept, unchanged);
}

#[test]
fn patching_again_changes_nothing_more() {
    let fm = file("module.exports.foo = 1;");
    let once = base().patch(&fm, Some(&exports_foo()));
    assert_eq!(once.patch(&fm, Some(&exports_foo())), once);
}

#[test]
fn flag_says_itself_whether_a_feature_is_on_and_settings_always_do() {
    assert!(Config::All(true).truthy());
    assert!(!Config::All(false).truthy());
    assert!(Config::WithOptions.truthy());
}

#[test]
fn comment_that_names_the_words_apart_is_neither_parsed_nor_detected() {
    let fm = file("// module exports documentation");
    assert!(!base().wants_parse(&fm));
    assert_eq!(base().patch(&fm, None).swc.module, None);
    assert_eq!(base().patch(&fm, Some(&tree(vec![]))).swc.module, None);
}
