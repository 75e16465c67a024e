use css_parse::diagnostics::DiagnosticSink;
use css_parse::exports::{sorted_exports, ExportName};
use css_parse::names::{generated_name, module_suffix, ModuleTransformConfig};
use css_parse::parse::{
    syntax_diagnostic, parse, parse_content, report_syntax_errors, run_transforms, AssetContent, CssInputTransform,
    CssModuleAssetType, FileContent, ParseResult, TransformContext, TransformError,
};
use std::cell::RefCell;
use swc_core::common::sync::Lrc;
use swc_core::common::{BytePos, SourceMap, Span, DUMMY_SP};
use swc_core::css::ast::Stylesheet;
use swc_core::css::parser::error::{Error as SyntaxError, ErrorKind};

struct NoTransform;

impl CssInputTransform for NoTransform {
    fn apply(&self, _: &mut Stylesheet, _: &TransformContext) -> Result<(), TransformError> {
        Ok(())
    }
}

struct Recorder<'a> {
    id: u32,
    log: &'a RefCell<Vec<u32>>,
    fail: bool,
}

impl CssInputTransform for Recorder<'_> {
    fn apply(&self, _: &mut Stylesheet, _: &TransformContext) -> Result<(), TransformError> {
        self.log.borrow_mut().push(self.id);
        if self.fail {
            Err(TransformError { message: format!("transform {} failed", self.id) })
        } else {
            Ok(())
        }
    }
}

fn file(text: &str) -> AssetContent {
    AssetContent::File(FileContent::Content(text.as_bytes().to_vec()))
}

fn run(text: &str, path: &str, ty: CssModuleAssetType, sink: &mut DiagnosticSink) -> ParseResult {
    let none: [NoTransform; 0] = [];
    parse(file(text), path, "x.css", ty, &none, sink).unwrap()
}

fn local_names(names: &[ExportName]) -> Vec<String> {
    names
        .iter()
        .filter_map(|n| match n {
            ExportName::Local { name } => Some(name.clone()),
            _ => None,
        })
        .collect()
}

fn export_keys(r: &ParseResult) -> Vec<String> {
    match r {
        ParseResult::Parsed { exports, .. } => exports.keys().cloned().collect(),
        _ => panic!("expected a parsed outcome"),
    }
}

#[test]
fn outcomes_compare_by_kind() {
    assert!(ParseResult::Unparseable == ParseResult::Unparseable);
    assert!(ParseResult::NotFound == ParseResult::NotFound);
    assert!(ParseResult::Unparseable != ParseResult::NotFound);
    let mut sink = DiagnosticSink::new();
    let a = run(".a { color: red; }", "/x.css", CssModuleAssetType::Global, &mut sink);
    let b = run(".a { color: red; }", "/x.css", CssModuleAssetType::Global, &mut sink);
    assert!(matches!(a, ParseResult::Parsed { .. }));
    assert!(a != b);
    assert!(a != ParseResult::Unparseable);
    assert!(ParseResult::NotFound != a);
}

#[test]
fn missing_file_is_not_found() {
    let mut sink = DiagnosticSink::new();
    let none: [NoTransform; 0] = [];
    let content = AssetContent::File(FileContent::NotFound);
    let r = parse(content, "/x.css", "x.css", CssModuleAssetType::Module, &none, &mut sink);
    assert!(matches!(r, Ok(ParseResult::NotFound)));
    assert_eq!(sink.len(), 0);
}

#[test]
fn redirect_is_unparseable() {
    let mut sink = DiagnosticSink::new();
    let none: [NoTransform; 0] = [];
    let r = parse(AssetContent::Redirect, "/x.css", "x.css", CssModuleAssetType::Module, &none, &mut sink);
    assert!(matches!(r, Ok(ParseResult::Unparseable)));
    assert_eq!(sink.len(), 0);
}

#[test]
fn invalid_utf8_is_unparseable_without_diagnostics() {
    let mut sink = DiagnosticSink::new();
    let none: [NoTransform; 0] = [];
    let content = AssetContent::File(FileContent::Content(vec![b'.', b'a', 0xff, 0xfe, b'{', b'}']));
    let r = parse(content, "/x.css", "x.css", CssModuleAssetType::Module, &none, &mut sink);
    assert!(matches!(r, Ok(ParseResult::Unparseable)));
    assert_eq!(sink.len(), 0);
}

#[test]
fn syntax_error_is_unparseable_and_reported() {
    let mut sink = DiagnosticSink::new();
    let r = run(".a { color: \"open\n }", "/x.css", CssModuleAssetType::Global, &mut sink);
    assert!(matches!(r, ParseResult::Unparseable));
    assert!(sink.len() >= 1);
    for d in &sink.diagnostics {
        assert_eq!(d.category, "Parsing css source code failed");
        assert!(!d.message.is_empty());
    }
}

#[test]
fn one_recoverable_error_gives_one_diagnostic() {
    let mut sink = DiagnosticSink::new();
    let stylesheet = Stylesheet { span: DUMMY_SP, rules: vec![] };
    let errors = vec![SyntaxError::new(DUMMY_SP, ErrorKind::InvalidSelector)];
    let r = report_syntax_errors(Ok(stylesheet), errors, &mut sink);
    assert!(r.is_none());
    assert_eq!(sink.len(), 1);
    assert_eq!(sink.diagnostics[0].category, "Parsing css source code failed");
    assert_eq!(sink.diagnostics[0].message, "Invalid selector");
}

#[test]
fn fatal_error_is_reported_alone() {
    let mut sink = DiagnosticSink::new();
    let fatal = SyntaxError::new(DUMMY_SP, ErrorKind::Eof);
    let errors = vec![
        SyntaxError::new(DUMMY_SP, ErrorKind::InvalidSelector),
        SyntaxError::new(DUMMY_SP, ErrorKind::InvalidMediaQuery),
    ];
    let r = report_syntax_errors(Err(fatal), errors, &mut sink);
    assert!(r.is_none());
    assert_eq!(sink.len(), 1);
    assert_eq!(sink.diagnostics[0].message, "Unexpected end of file");
}

#[test]
fn clean_parse_keeps_the_stylesheet() {
    let mut sink = DiagnosticSink::new();
    let stylesheet = Stylesheet { span: DUMMY_SP, rules: vec![] };
    let r = report_syntax_errors(Ok(stylesheet), vec![], &mut sink);
    assert!(r.is_some());
    assert_eq!(sink.len(), 0);
}

#[test]
fn global_stylesheet_has_empty_tables() {
    let mut sink = DiagnosticSink::new();
    let r = run(".card { color: red; }", "/a/x.css", CssModuleAssetType::Global, &mut sink);
    match r {
        ParseResult::Parsed { imports, exports, .. } => {
            assert!(imports.is_empty());
            assert!(exports.is_empty());
        }
        _ => panic!("expected a parsed outcome"),
    }
    assert_eq!(sink.len(), 0);
}

#[test]
fn module_exports_renamed_local_classes() {
    let mut sink = DiagnosticSink::new();
    let r = run(".card { color: red; }", "/a/x.css", CssModuleAssetType::Module, &mut sink);
    match r {
        ParseResult::Parsed { exports, .. } => {
            assert_eq!(exports.len(), 1);
            assert_eq!(local_names(&exports["card"]), vec!["card\u{25FD}/a/x.css".to_string()]);
        }
        _ => panic!("expected a parsed outcome"),
    }
    assert_eq!(sink.len(), 0);
}

#[test]
fn same_class_in_two_files_gets_distinct_names() {
    let mut sink = DiagnosticSink::new();
    let a = run(".card { color: red; }", "/a.css", CssModuleAssetType::Module, &mut sink);
    let b = run(".card { color: red; }", "/b.css", CssModuleAssetType::Module, &mut sink);
    let (ParseResult::Parsed { exports: ea, .. }, ParseResult::Parsed { exports: eb, .. }) = (a, b)
    else {
        panic!("expected parsed outcomes")
    };
    let na = local_names(&ea["card"]);
    let nb = local_names(&eb["card"]);
    assert_eq!(na.len(), 1);
    assert_eq!(nb.len(), 1);
    assert_ne!(na, nb);
}

#[test]
fn repeated_parse_gives_identical_exports() {
    let text = ".zeta { color: red; } .alpha { color: blue; } .mid { color: green; }";
    let mut sink = DiagnosticSink::new();
    let a = run(text, "/m.css", CssModuleAssetType::Module, &mut sink);
    let b = run(text, "/m.css", CssModuleAssetType::Module, &mut sink);
    let keys = vec!["alpha".to_string(), "mid".to_string(), "zeta".to_string()];
    assert_eq!(export_keys(&a), keys);
    assert_eq!(export_keys(&b), keys);
    let (ParseResult::Parsed { exports: ea, .. }, ParseResult::Parsed { exports: eb, .. }) = (a, b)
    else {
        panic!("expected parsed outcomes")
    };
    for k in &keys {
        assert_eq!(local_names(&ea[k.as_str()]), local_names(&eb[k.as_str()]));
    }
    assert_eq!(local_names(&ea["mid"]), vec!["mid\u{25FD}/m.css".to_string()]);
}

#[test]
fn composes_imports_in_order() {
    let text = ".a { composes: b from \"x.css\"; } .c { composes: d from \"y.css\"; }";
    let mut sink = DiagnosticSink::new();
    let r = run(text, "/m.css", CssModuleAssetType::Module, &mut sink);
    match r {
        ParseResult::Parsed { imports, .. } => {
            assert_eq!(imports, vec!["x.css".to_string(), "y.css".to_string()]);
        }
        _ => panic!("expected a parsed outcome"),
    }
}

#[test]
fn transforms_run_in_order_and_stop_at_failure() {
    let log = RefCell::new(Vec::new());
    let transforms = [
        Recorder { id: 1, log: &log, fail: false },
        Recorder { id: 2, log: &log, fail: true },
        Recorder { id: 3, log: &log, fail: false },
    ];
    let mut sink = DiagnosticSink::new();
    let r = parse(file(".a {}"), "/x.css", "x.css", CssModuleAssetType::Module, &transforms, &mut sink);
    match r {
        Err(e) => assert_eq!(e.message, "transform 2 failed"),
        Ok(_) => panic!("expected the transform error"),
    }
    assert_eq!(*log.borrow(), vec![1, 2]);
}

#[test]
fn transforms_all_run_on_success() {
    let log = RefCell::new(Vec::new());
    let transforms = [
        Recorder { id: 1, log: &log, fail: false },
        Recorder { id: 2, log: &log, fail: false },
    ];
    let source_map: Lrc<SourceMap> = Lrc::new(SourceMap::default());
    let context = TransformContext { source_map: &source_map, file_name: "x.css" };
    let mut stylesheet = Stylesheet { span: DUMMY_SP, rules: vec![] };
    assert!(run_transforms(&mut stylesheet, &context, &transforms).is_ok());
    assert_eq!(*log.borrow(), vec![1, 2]);
}

#[test]
fn parse_content_of_text() {
    let mut sink = DiagnosticSink::new();
    let none: [NoTransform; 0] = [];
    let r = parse_content(".b {} .a {}".to_string(), "/t.css", "t.css", CssModuleAssetType::Module, &none, &mut sink);
    assert_eq!(export_keys(&r.unwrap()), vec!["a".to_string(), "b".to_string()]);
}

#[test]
fn generated_names_join_local_and_suffix() {
    assert_eq!(module_suffix("/a/b.css"), "\u{25FD}/a/b.css");
    assert_eq!(generated_name("card", "\u{25FD}/a/b.css"), "card\u{25FD}/a/b.css");
    let config = ModuleTransformConfig::for_path("/p.css");
    assert_eq!(config.new_name("x"), "x\u{25FD}/p.css");
}

#[test]
fn sorted_exports_orders_by_key() {
    let entries = vec![
        ("b".to_string(), vec![]),
        ("a".to_string(), vec![]),
        ("ab".to_string(), vec![]),
        ("B".to_string(), vec![]),
    ];
    let table = sorted_exports(entries);
    let keys: Vec<String> = table.keys().cloned().collect();
    assert_eq!(keys, vec!["B".to_string(), "a".to_string(), "ab".to_string(), "b".to_string()]);
}

#[test]
fn syntax_diagnostic_carries_message_and_span() {
    let e = SyntaxError::new(Span::new(BytePos(3), BytePos(7)), ErrorKind::Expected("';'"));
    let d = syntax_diagnostic(&e);
    assert_eq!(d.category, "Parsing css source code failed");
    assert_eq!(d.message, "Expected ';'");
    assert_eq!((d.lo, d.hi), (3, 7));
}

#[test]
fn composed_class_lists_its_sources() {
    let text = ".a { composes: b from \"x.css\"; color: red; }";
    let mut sink = DiagnosticSink::new();
    let r = run(text, "/m.css", CssModuleAssetType::Module, &mut sink);
    let ParseResult::Parsed { exports, .. } = r else { panic!("expected a parsed outcome") };
    let names = &exports["a"];
    assert!(names.contains(&ExportName::Local { name: "a\u{25FD}/m.css".to_string() }));
    assert!(names.contains(&ExportName::Import { name: "b".to_string(), from: "x.css".to_string() }));
}

#[test]
fn keyframes_name_scoped_twice_is_refused() {
    let mut sink = DiagnosticSink::new();
    let r = run("@keyframes :local(:global(x)) {}", "/k.css", CssModuleAssetType::Module, &mut sink);
    assert!(matches!(r, ParseResult::Unparseable));
    assert_eq!(sink.len(), 1);
    assert_eq!(sink.diagnostics[0].category, "Parsing css source code failed");
}

#[test]
fn keyframes_name_scoped_once_is_renamed() {
    let mut sink = DiagnosticSink::new();
    let r = run("@keyframes :local(spin) {}", "/k.css", CssModuleAssetType::Module, &mut sink);
    let ParseResult::Parsed { exports, .. } = r else { panic!("expected a parsed outcome") };
    assert_eq!(local_names(&exports["spin"]), vec!["spin\u{25FD}/k.css".to_string()]);
    assert_eq!(sink.len(), 0);
}
