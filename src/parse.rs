//! From the content of an asset to the outcome of parsing it as CSS.
use crate::diagnostics::{parse_failure_category, parse_failure_title, Diagnostic, DiagnosticSink};
use crate::exports::{entries_view, exports_named_after, holds_local_name, keys_sorted, sorted_exports};
use crate::keyframes::{keyframes_names_flat, names_flat};
use crate::names::{generated_name_of, module_suffix_of};
use crate::names::ModuleTransformConfig;
use crate::swc::{
    add_source_file, analyze_imports, compile_module, export_entries, export_table_of, new_source_map,
    parse_stylesheet, syntax_error_message, syntax_error_span, ExportTable, error_message_of,
    error_span_of, imports_of, parses_cleanly, without_bom, renamed_set_of, keyframes_names, keyframes_names_of,
};
use swc_core::common::sync::Lrc;
use swc_core::common::SourceMap;
use swc_core::css::ast::Stylesheet;
use swc_core::css::parser::error::Error as SyntaxError;
use vstd::prelude::*;
use vstd::std_specs::cmp::PartialEqSpec;
use vstd::utf8::{decode_utf8, valid_utf8};

verus! {

/// Whether a stylesheet is global or a CSS module, whose local classes are
/// renamed and exported.
#[derive(Clone, Copy, Debug, PartialEq, Eq, Structural)]
pub enum CssModuleAssetType {
    Global,
    Module,
}

/// What a file holds.
pub enum FileContent {
    NotFound,
    Content(Vec<u8>),
}

/// What an asset holds: a file, or a pointer to another asset.
pub enum AssetContent {
    Redirect,
    File(FileContent),
}

/// A failure of a transform: the pipeline itself is broken.
#[derive(Clone, Debug)]
pub struct TransformError {
    pub message: String,
}

/// What a transform sees besides the stylesheet.
pub struct TransformContext<'a> {
    pub source_map: &'a Lrc<SourceMap>,
    pub file_name: &'a str,
}

/// A rewriting pass over a parsed stylesheet.
pub trait CssInputTransform {
    fn apply(&self, stylesheet: &mut Stylesheet, context: &TransformContext) -> Result<
        (),
        TransformError,
    >;
}

/// The outcome of parsing one asset.
pub enum ParseResult {
    Parsed {
        stylesheet: Stylesheet,
        source_map: Lrc<SourceMap>,
        imports: Vec<String>,
        exports: ExportTable,
    },
    Unparseable,
    NotFound,
}

/// Successful outcomes are never equal, so that a cache never takes a new
/// parse for an unchanged one; the other outcomes are equal by kind.
impl PartialEq for ParseResult {
    fn eq(&self, other: &ParseResult) -> (r: bool) {
        match self {
            ParseResult::Parsed { .. } => false,
            ParseResult::Unparseable => matches!(other, ParseResult::Unparseable),
            ParseResult::NotFound => matches!(other, ParseResult::NotFound),
        }
    }
}

impl vstd::std_specs::cmp::PartialEqSpecImpl for ParseResult {
    open spec fn obeys_eq_spec() -> bool {
        true
    }

    open spec fn eq_spec(&self, other: &ParseResult) -> bool {
        match self {
            ParseResult::Parsed { .. } => false,
            ParseResult::Unparseable => other is Unparseable,
            ParseResult::NotFound => other is NotFound,
        }
    }
}

/// Two successful outcomes are never equal, even of one input; two
/// unparseable outcomes always are, and so are two not-found ones.
pub proof fn lemma_outcome_equality(a: ParseResult, b: ParseResult)
    ensures
        a is Parsed && b is Parsed ==> !a.eq_spec(&b),
        a is Unparseable && b is Unparseable ==> a.eq_spec(&b),
        a is NotFound && b is NotFound ==> a.eq_spec(&b),
        a.eq_spec(&b) ==> !(a is Parsed),
{
}

/// Relies on `String::from_utf8`: it succeeds exactly on valid UTF-8, and
/// then holds the characters that the bytes encode.
#[verifier::external_body]
fn decode_text(bytes: Vec<u8>) -> (r: Option<String>)
    ensures
        match r {
            Some(s) => valid_utf8(bytes@) && s@ == decode_utf8(bytes@),
            None => !valid_utf8(bytes@),
        },
{
    String::from_utf8(bytes).ok()
}

/// `d` reports the syntax error `e`, under the title of failed parses.
pub open spec fn describes(d: Diagnostic, e: SyntaxError) -> bool {
    &&& d.category@ == parse_failure_category()
    &&& d.message@ == error_message_of(e)
    &&& (d.lo, d.hi) == error_span_of(e)
}

/// The diagnostic of a syntax error: its text and span, under the title of
/// failed parses.
pub fn syntax_diagnostic(e: &SyntaxError) -> (r: Diagnostic)
    ensures
        describes(r, *e),
{
    let (lo, hi) = syntax_error_span(e);
    Diagnostic { category: parse_failure_title(), message: syntax_error_message(e), lo, hi }
}

/// `after` is `before` followed by diagnostics about syntax only.
pub open spec fn syntax_reported(before: Seq<Diagnostic>, after: Seq<Diagnostic>) -> bool {
    &&& before.len() <= after.len()
    &&& after.subrange(0, before.len() as int) == before
    &&& forall|i: int|
        before.len() <= i < after.len() ==> (#[trigger] after[i]).category@
            == parse_failure_category()
}

/// What holds of the outcome of parsing text as the asset at `path` with
/// `n_transforms` transforms, whatever the parser and the transforms made of
/// it: syntax errors give `Unparseable`, exactly when they reached the sink;
/// only a transform can fail the call.
pub open spec fn text_outcome(
    r: Result<ParseResult, TransformError>,
    ty: CssModuleAssetType,
    path: Seq<char>,
    n_transforms: nat,
    before: Seq<Diagnostic>,
    after: Seq<Diagnostic>,
) -> bool {
    &&& !(r matches Ok(ParseResult::NotFound))
    &&& syntax_reported(before, after)
    &&& (r matches Ok(ParseResult::Unparseable) <==> before.len() < after.len())
    &&& (r is Err ==> n_transforms > 0)
    &&& (r matches Ok(ParseResult::Parsed { imports, exports, .. }) ==> {
        &&& keys_sorted(export_entries(exports))
        &&& (ty == CssModuleAssetType::Module ==> exists|s: Stylesheet|
            module_tables_of(s, path, imports@, exports))
        &&& (ty == CssModuleAssetType::Global ==> imports@.len() == 0 && export_entries(
            exports,
        ).len() == 0)
    })
}

/// When the parse succeeds: text with a syntax error is `Unparseable`;
/// clean text with no transforms is `Parsed`, unless a keyframes name of a
/// module is scoped twice.
pub open spec fn text_parse_outcome(
    r: Result<ParseResult, TransformError>,
    text: Seq<char>,
    ty: CssModuleAssetType,
    n_transforms: nat,
) -> bool {
    let clean = parses_cleanly(without_bom(text), ty == CssModuleAssetType::Module, true);
    &&& (!clean ==> r matches Ok(ParseResult::Unparseable))
    &&& (clean && n_transforms == 0 ==> {
        &&& r is Ok
        &&& (r matches Ok(ParseResult::Unparseable) ==> ty == CssModuleAssetType::Module)
    })
}

/// Reports the parser's errors to `sink` and keeps the stylesheet only when
/// there were none. An error that stopped the parser is reported alone.
pub fn report_syntax_errors(
    parsed: Result<Stylesheet, SyntaxError>,
    errors: Vec<SyntaxError>,
    sink: &mut DiagnosticSink,
) -> (r: Option<Stylesheet>)
    ensures
        r is Some <==> (parsed is Ok && errors@.len() == 0),
        r is Some ==> r == Some(parsed->Ok_0),
        syntax_reported(old(sink).diagnostics@, final(sink).diagnostics@),
        final(sink).diagnostics@.len() == old(sink).diagnostics@.len() + if parsed is Err {
            1
        } else {
            errors@.len()
        },
        parsed is Err ==> describes(
            final(sink).diagnostics@[old(sink).diagnostics@.len() as int],
            parsed->Err_0,
        ),
        parsed is Ok ==> forall|i: int|
            0 <= i < errors@.len() ==> describes(
                #[trigger] final(sink).diagnostics@[old(sink).diagnostics@.len() + i],
                errors@[i],
            ),
{
    match parsed {
        Err(e) => {
            sink.emit(syntax_diagnostic(&e));
            assert(sink.diagnostics@.subrange(0, old(sink).diagnostics@.len() as int)
                =~= old(sink).diagnostics@);
            None
        },
        Ok(stylesheet) => {
            let ghost before = sink.diagnostics@;
            let mut i: usize = 0;
            assert(before.subrange(0, before.len() as int) =~= before);
            while i < errors.len()
                invariant
                    i <= errors@.len(),
                    syntax_reported(before, sink.diagnostics@),
                    sink.diagnostics@.len() == before.len() + i,
                    before == old(sink).diagnostics@,
                    forall|k: int|
                        0 <= k < i ==> describes(
                            #[trigger] sink.diagnostics@[before.len() + k],
                            errors@[k],
                        ),
                decreases errors@.len() - i,
            {
                sink.emit(syntax_diagnostic(&errors[i]));
                i = i + 1;
                assert(sink.diagnostics@.subrange(0, before.len() as int) =~= before);
            }
            if errors.len() == 0 {
                Some(stylesheet)
            } else {
                None
            }
        },
    }
}

/// Applies the transforms in order, each to the stylesheet that the one
/// before it left, and stops at the first that fails.
pub fn run_transforms<T: CssInputTransform>(
    stylesheet: &mut Stylesheet,
    context: &TransformContext,
    transforms: &[T],
) -> (r: Result<(), TransformError>)
    ensures
        transforms@.len() == 0 ==> r is Ok && *final(stylesheet) == *old(stylesheet),
{
    let mut i: usize = 0;
    while i < transforms.len()
        invariant
            i <= transforms@.len(),
            transforms@.len() == 0 ==> *stylesheet == *old(stylesheet),
        decreases transforms@.len() - i,
    {
        match transforms[i].apply(stylesheet, context) {
            Err(e) => {
                return Err(e);
            },
            Ok(()) => {},
        }
        i = i + 1;
    }
    Ok(())
}

/// The tables of a CSS module renamed after `path`, from the stylesheet
/// before renaming.
pub open spec fn module_tables_of(
    s: Stylesheet,
    path: Seq<char>,
    imports: Seq<String>,
    exports: ExportTable,
) -> bool {
    &&& imports.map_values(|x: String| x@) == imports_of(s)
    &&& export_entries(exports).to_set() == renamed_set_of(s, module_suffix_of(path))
    &&& exports_named_after(export_entries(exports), path)
}

/// The import and export tables of a stylesheet. A CSS module has its local
/// classes renamed after `path`; a global stylesheet is left as it is, with
/// empty tables. A module with a keyframes name scoped twice, as in
/// `:local(:global(x))`, is refused with `None`, before any renaming.
pub fn module_tables(stylesheet: &mut Stylesheet, ty: CssModuleAssetType, path: &str) -> (r: Option<(
    Vec<String>,
    ExportTable,
)>)
    ensures
        r is None <==> (ty == CssModuleAssetType::Module && !keyframes_names_flat(
            keyframes_names_of(*old(stylesheet)),
        )),
        r is None ==> *final(stylesheet) == *old(stylesheet),
        r matches Some(t) ==> keys_sorted(export_entries(t.1)),
        ty == CssModuleAssetType::Module ==> (r matches Some(t) ==> module_tables_of(
            *old(stylesheet),
            path@,
            t.0@,
            t.1,
        )),
        ty == CssModuleAssetType::Global ==> (r matches Some(t) && {
            &&& t.0@.len() == 0
            &&& export_entries(t.1).len() == 0
            &&& *final(stylesheet) == *old(stylesheet)
        }),
{
    match ty {
        CssModuleAssetType::Global => {
            let table = export_table_of(Vec::new());
            Some((Vec::new(), table))
        },
        CssModuleAssetType::Module => {
            let names = keyframes_names(stylesheet);
            if !names_flat(&names) {
                return None;
            }
            let imports = analyze_imports(stylesheet);
            let renamed = compile_module(stylesheet, ModuleTransformConfig::for_path(path));
            let ghost given = entries_view(renamed@);
            assert(exports_named_after(given, path@)) by {
                assert forall|i: int| 0 <= i < given.len() implies holds_local_name(
                    #[trigger] given[i].1,
                    generated_name_of(given[i].0, module_suffix_of(path@)),
                ) by {
                    assert(given[i] == (renamed@[i].0@, renamed@[i].1@));
                }
            }
            let table = sorted_exports(renamed);
            let ghost out = export_entries(table);
            assert(exports_named_after(out, path@)) by {
                assert forall|i: int| 0 <= i < out.len() implies holds_local_name(
                    #[trigger] out[i].1,
                    generated_name_of(out[i].0, module_suffix_of(path@)),
                ) by {
                    assert(out.to_set().contains(out[i]));
                    assert(given.to_set().contains(out[i]));
                    let j = choose|j: int| 0 <= j < given.len() && given[j] == out[i];
                    assert(holds_local_name(given[j].1, generated_name_of(given[j].0, module_suffix_of(path@))));
                }
            }
            Some((imports, table))
        },
    }
}

/// The diagnostic of a keyframes name scoped twice, which the renamer of
/// CSS modules cannot take.
pub fn nested_scope_diagnostic() -> (r: Diagnostic)
    ensures
        r.category@ == parse_failure_category(),
{
    Diagnostic {
        category: parse_failure_title(),
        message: String::from_str("A keyframes name holds a scope within a scope"),
        lo: 0,
        hi: 0,
    }
}

/// Parses `text`, the content of the asset at `path`, with nested rules of
/// the legacy syntax accepted; then runs the transforms
/// over the stylesheet and builds the module tables. Any syntax error makes
/// the outcome `Unparseable`, after it reached `sink`; a failing transform is
/// an error of the whole call.
pub fn parse_content<T: CssInputTransform>(
    text: String,
    path: &str,
    file_name: &str,
    ty: CssModuleAssetType,
    transforms: &[T],
    sink: &mut DiagnosticSink,
) -> (r: Result<ParseResult, TransformError>)
    ensures
        text_outcome(r, ty, path@, transforms@.len(), old(sink).diagnostics@, final(sink).diagnostics@),
        text_parse_outcome(r, text@, ty, transforms@.len()),
{
    let source_map = new_source_map();
    let file = add_source_file(&source_map, path, text);
    let (parsed, errors) = parse_stylesheet(&file, ty == CssModuleAssetType::Module, true);
    let mut stylesheet = match report_syntax_errors(parsed, errors, sink) {
        Some(s) => s,
        None => {
            return Ok(ParseResult::Unparseable);
        },
    };
    let context = TransformContext { source_map: &source_map, file_name };
    match run_transforms(&mut stylesheet, &context, transforms) {
        Err(e) => {
            return Err(e);
        },
        Ok(()) => {},
    }
    let ghost transformed = stylesheet;
    match module_tables(&mut stylesheet, ty, path) {
        None => {
            sink.emit(nested_scope_diagnostic());
            assert(sink.diagnostics@.subrange(0, old(sink).diagnostics@.len() as int)
                =~= old(sink).diagnostics@);
            Ok(ParseResult::Unparseable)
        },
        Some((imports, exports)) => {
            assert(ty == CssModuleAssetType::Module ==> module_tables_of(
                transformed,
                path@,
                imports@,
                exports,
            ));
            let ghost (imports_view, table) = (imports@, exports);
            let r = Ok(ParseResult::Parsed { stylesheet, source_map, imports, exports });
            assert(r matches Ok(ParseResult::Parsed { imports, exports, .. }) && imports@ == imports_view
                && exports == table);
            r
        },
    }
}

/// Parses the content of the asset at `path` (`file_name` is its last
/// component). A redirect, or bytes that are not UTF-8, are `Unparseable`
/// and a missing file is `NotFound`, all three without a diagnostic; text
/// goes on to `parse_content`.
pub fn parse<T: CssInputTransform>(
    content: AssetContent,
    path: &str,
    file_name: &str,
    ty: CssModuleAssetType,
    transforms: &[T],
    sink: &mut DiagnosticSink,
) -> (r: Result<ParseResult, TransformError>)
    ensures
        content is Redirect ==> {
            &&& r matches Ok(ParseResult::Unparseable)
            &&& final(sink).diagnostics@ == old(sink).diagnostics@
        },
        content matches AssetContent::File(FileContent::NotFound) ==> {
            &&& r matches Ok(ParseResult::NotFound)
            &&& final(sink).diagnostics@ == old(sink).diagnostics@
        },
        content matches AssetContent::File(FileContent::Content(bytes)) ==> if valid_utf8(
            bytes@,
        ) {
            &&& text_outcome(r, ty, path@, transforms@.len(), old(sink).diagnostics@, final(sink).diagnostics@)
            &&& text_parse_outcome(r, decode_utf8(bytes@), ty, transforms@.len())
        } else {
            &&& r matches Ok(ParseResult::Unparseable)
            &&& final(sink).diagnostics@ == old(sink).diagnostics@
        },
{
    match content {
        AssetContent::Redirect => Ok(ParseResult::Unparseable),
        AssetContent::File(FileContent::NotFound) => Ok(ParseResult::NotFound),
        AssetContent::File(FileContent::Content(bytes)) => match decode_text(bytes) {
            None => Ok(ParseResult::Unparseable),
            Some(text) => parse_content(text, path, file_name, ty, transforms, sink),
        },
    }
}

} // verus!
