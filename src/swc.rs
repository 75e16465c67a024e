//! The parts of swc and indexmap that the parser builds on, with what is
//! relied on of each.
use crate::exports::{entries_view, holds_local_name, keys_distinct, keys_sorted, ExportEntries, ExportName};
use crate::keyframes::{keyframes_names_flat, KeyframesNameShape};
use crate::names::generated_name_of;
use swc_core::css::ast::KeyframesName;
use swc_core::css::visit::{VisitWith, Visit};
use swc_core::common::sync::Lrc;
use swc_core::common::{FileName, SourceFile, SourceMap};
use swc_core::css::ast::Stylesheet;
use swc_core::css::parser::error::Error as SyntaxError;
use swc_core::css::parser::parser::ParserConfig;
use vstd::prelude::*;

verus! {

#[verifier::external_type_specification]
#[verifier::external_body]
pub struct ExAtom(swc_atoms::Atom);

#[verifier::external_type_specification]
#[verifier::external_body]
pub struct ExSourceMap(swc_core::common::SourceMap);

#[verifier::external_type_specification]
#[verifier::external_body]
pub struct ExSourceFile(swc_core::common::SourceFile);

#[verifier::external_type_specification]
#[verifier::external_body]
pub struct ExKeyframesName(swc_core::css::ast::KeyframesName);

#[verifier::external_type_specification]
#[verifier::external_body]
pub struct ExStylesheet(swc_core::css::ast::Stylesheet);

#[verifier::external_type_specification]
#[verifier::external_body]
pub struct ExSyntaxError(swc_core::css::parser::error::Error);

#[verifier::external_type_specification]
#[verifier::external_body]
pub struct ExCssClassName(swc_css_modules::CssClassName);

#[verifier::external_type_specification]
#[verifier::external_body]
#[verifier::reject_recursive_types(K)]
#[verifier::reject_recursive_types(V)]
#[verifier::reject_recursive_types(S)]
pub struct ExIndexMap<K, V, S>(indexmap::IndexMap<K, V, S>);

/// The table of exports: local class name to the names it is exported as.
pub type ExportTable = indexmap::IndexMap<String, Vec<ExportName>>;

/// The text that a source file holds.
pub uninterp spec fn source_text_of(f: SourceFile) -> Seq<char>;

/// Whether the parser reads `text` to a stylesheet with no error, fatal or
/// recovered from, in the given modes.
pub uninterp spec fn parses_cleanly(text: Seq<char>, css_modules: bool, legacy_nesting: bool) -> bool;

/// `text` without a leading byte order mark.
pub open spec fn without_bom(text: Seq<char>) -> Seq<char> {
    if text.len() > 0 && text[0] == '\u{FEFF}' {
        text.drop_first()
    } else {
        text
    }
}

/// The names of the modules that a stylesheet imports from.
pub uninterp spec fn imports_of(s: Stylesheet) -> Seq<Seq<char>>;

/// The set of export entries that renaming the local classes of a
/// stylesheet with `suffix` gives.
pub uninterp spec fn renamed_set_of(s: Stylesheet, suffix: Seq<char>) -> Set<(Seq<char>, Seq<ExportName>)>;

/// The shapes of the keyframes names of a stylesheet, in the order of a
/// visit of its tree.
pub uninterp spec fn keyframes_names_of(s: Stylesheet) -> Seq<KeyframesNameShape>;

/// The text of a syntax error.
pub uninterp spec fn error_message_of(e: SyntaxError) -> Seq<char>;

/// The start and the end of the span that a syntax error points at.
pub uninterp spec fn error_span_of(e: SyntaxError) -> (u32, u32);

/// The entries of an export table, in the table's order.
pub uninterp spec fn export_entries(m: ExportTable) -> ExportEntries;

/// Relies on `SourceMap::default`: a source map that holds no file yet.
#[verifier::external_body]
pub(crate) fn new_source_map() -> Lrc<SourceMap> {
    Lrc::new(SourceMap::default())
}

/// Relies on `SourceMap::new_source_file`: adds `text` to the source map as
/// the file named `label`; the file holds the text less a leading byte
/// order mark (`remove_bom`).
#[verifier::external_body]
pub(crate) fn add_source_file(source_map: &Lrc<SourceMap>, label: &str, text: String) -> (r: Lrc<SourceFile>)
    ensures
        source_text_of(*r) == without_bom(text@),
{
    source_map.new_source_file(Lrc::new(FileName::Custom(label.to_string())), text)
}

/// Relies on swc_css_parser::parse_file. The first component is the
/// stylesheet, or the error that stopped the parser; the second holds the
/// errors it recovered from. Whether there is an error depends on the text
/// and the modes alone; the position of the file only moves the spans.
#[verifier::external_body]
pub(crate) fn parse_stylesheet(
    file: &Lrc<SourceFile>,
    css_modules: bool,
    legacy_nesting: bool,
) -> (r: (Result<Stylesheet, SyntaxError>, Vec<SyntaxError>))
    ensures
        (r.0 is Ok && r.1@.len() == 0) == parses_cleanly(
            source_text_of(**file),
            css_modules,
            legacy_nesting,
        ),
{
    let config = ParserConfig { css_modules, legacy_nesting, ..Default::default() };
    let mut errors = Vec::new();
    let parsed = swc_core::css::parser::parse_file::<Stylesheet>(file, None, config, &mut errors);
    (parsed, errors)
}

/// Relies on swc_css_parser's `Error::message`: the text that
/// `Error::to_diagnostics` reports for the error.
#[verifier::external_body]
pub(crate) fn syntax_error_message(e: &SyntaxError) -> (r: String)
    ensures
        r@ == error_message_of(*e),
{
    e.message().into_owned()
}

/// Relies on swc_css_parser's `Error::into_inner`, on a copy of the error:
/// the start and the end of the span that it points at, as byte positions of
/// its source map.
#[verifier::external_body]
pub(crate) fn syntax_error_span(e: &SyntaxError) -> (r: (u32, u32))
    ensures
        r == error_span_of(*e),
{
    let span = e.clone().into_inner().0;
    (span.lo.0, span.hi.0)
}

/// Relies on swc_css_modules::imports::analyze_imports: the module specifiers
/// that the stylesheet imports from, which depend on the stylesheet alone.
#[verifier::external_body]
pub(crate) fn analyze_imports(stylesheet: &Stylesheet) -> (r: Vec<String>)
    ensures
        r@.map_values(|x: String| x@) == imports_of(*stylesheet),
{
    swc_css_modules::imports::analyze_imports(stylesheet).into_iter().map(|a| a.to_string()).collect()
}

/// Converts a descriptor of swc_css_modules into the library's own, field
/// for field.
#[verifier::external_body]
fn export_name_of(c: swc_css_modules::CssClassName) -> ExportName {
    match c {
        swc_css_modules::CssClassName::Local { name } => ExportName::Local { name: name.value.to_string() },
        swc_css_modules::CssClassName::Global { name } => ExportName::Global { name: name.value.to_string() },
        swc_css_modules::CssClassName::Import { name, from } => {
            ExportName::Import { name: name.value.to_string(), from: from.to_string() }
        },
    }
}

/// Relies on swc_css_modules::compile: renames the local classes of the
/// stylesheet by `config` and returns its map of local names to export
/// names. The map's keys are distinct; `rename` files each renamed class
/// under its own name with the `Local` name that `config.new_name_for` gave.
/// The map is an `FxHashMap`, so only its set of entries is relied on, not
/// the order of its walk. It reaches `unreachable!` on a keyframes name
/// scoped by `:local` or `:global` whose inner name is itself scoped, which
/// `requires` leaves out.
#[verifier::external_body]
pub(crate) fn compile_module(
    stylesheet: &mut Stylesheet,
    config: crate::names::ModuleTransformConfig,
) -> (r: Vec<(String, Vec<ExportName>)>)
    requires
        keyframes_names_flat(keyframes_names_of(*old(stylesheet))),
    ensures
        keys_distinct(entries_view(r@)),
        entries_view(r@).to_set() == renamed_set_of(*old(stylesheet), config.suffix@),
        forall|i: int|
            0 <= i < r@.len() ==> holds_local_name(
                #[trigger] r@[i].1@,
                generated_name_of(r@[i].0@, config.suffix@),
            ),
{
    let renamed = swc_css_modules::compile(stylesheet, config).renamed;
    renamed.into_iter().map(|(k, v)| (k.to_string(), v.into_iter().map(export_name_of).collect())).collect()
}

/// Gathers the shape of every keyframes name that a visit of a stylesheet
/// meets.
struct KeyframesNameCollector {
    names: Vec<KeyframesNameShape>,
}

/// The visit of swc_css_visit calls `visit_keyframes_name` on every keyframes
/// name of the tree; the body records its shape and goes on to the names
/// inside it.
impl swc_core::css::visit::Visit for KeyframesNameCollector {
    #[verifier::external_body]
    fn visit_keyframes_name(&mut self, n: &KeyframesName) {
        self.names.push(keyframes_shape_of(n));
        n.visit_children_with(self);
    }
}

/// Converts a keyframes name of swc_css_ast into its shape, variant for
/// variant.
#[verifier::external_body]
fn keyframes_shape_of(n: &KeyframesName) -> KeyframesNameShape {
    match n {
        KeyframesName::CustomIdent(_) => KeyframesNameShape::Name,
        KeyframesName::Str(_) => KeyframesNameShape::Name,
        KeyframesName::PseudoPrefix(p) => KeyframesNameShape::Scoped { inner: Box::new(keyframes_shape_of(&p.name)) },
        KeyframesName::PseudoFunction(p) => KeyframesNameShape::Scoped { inner: Box::new(keyframes_shape_of(&p.name)) },
    }
}

/// Relies on swc_css_visit's `VisitWith::visit_with`, which visits every
/// node of the tree in a fixed order: the shapes of all keyframes names of
/// the stylesheet, which depend on the stylesheet alone.
#[verifier::external_body]
pub(crate) fn keyframes_names(stylesheet: &Stylesheet) -> (r: Vec<KeyframesNameShape>)
    ensures
        r@ == keyframes_names_of(*stylesheet),
{
    let mut collector = KeyframesNameCollector { names: Vec::new() };
    stylesheet.visit_with(&mut collector);
    collector.names
}

/// Relies on `IndexMap`'s `FromIterator`: where the keys are distinct, the
/// table holds the entries in the order given.
#[verifier::external_body]
pub(crate) fn export_table_of(entries: Vec<(String, Vec<ExportName>)>) -> (r: ExportTable)
    ensures
        keys_distinct(entries_view(entries@)) ==> export_entries(r) == entries_view(entries@),
{
    entries.into_iter().collect()
}

/// Relies on `IndexMap::sort_keys`: the same entries, ordered by key. The
/// keys of an `IndexMap` are distinct, and `String`s are ordered as their
/// characters are, one after the other.
#[verifier::external_body]
pub(crate) fn sort_table_keys(m: &mut ExportTable)
    ensures
        export_entries(*final(m)).to_set() == export_entries(*old(m)).to_set(),
        keys_sorted(export_entries(*final(m))),
{
    m.sort_keys()
}

} // verus!
