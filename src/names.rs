//! Names that CSS modules give to local classes.
use vstd::prelude::*;

verus! {

/// The mark placed between a local class name and the module it belongs to.
/// A white medium-small square is seldom part of a class name, so a reader
/// spots the generated names at once.
pub open spec fn module_mark() -> Seq<char> {
    seq!['\u{25FD}']
}

/// The suffix appended to the local class names of the module at `path`.
pub open spec fn module_suffix_of(path: Seq<char>) -> Seq<char> {
    module_mark() + path
}

/// The exported name of local class `local` under `suffix`.
pub open spec fn generated_name_of(local: Seq<char>, suffix: Seq<char>) -> Seq<char> {
    local + suffix
}

/// The suffix for the module at `path`: the mark followed by the path.
pub fn module_suffix(path: &str) -> (r: String)
    ensures
        r@ == module_suffix_of(path@),
{
    let mut r = String::from_str("\u{25FD}");
    proof {
        reveal_strlit("\u{25FD}");
    }
    r.append(path);
    r
}

/// The exported name of `local`: the local name followed by `suffix`.
pub fn generated_name(local: &str, suffix: &str) -> (r: String)
    ensures
        r@ == generated_name_of(local@, suffix@),
{
    let mut r = String::from_str(local);
    r.append(suffix);
    r
}

/// Renaming rule of one module: every local class gets the module's suffix.
pub struct ModuleTransformConfig {
    pub suffix: String,
}

impl ModuleTransformConfig {
    /// The renaming rule of the module at `path`.
    pub fn for_path(path: &str) -> (r: ModuleTransformConfig)
        ensures
            r.suffix@ == module_suffix_of(path@),
    {
        ModuleTransformConfig { suffix: module_suffix(path) }
    }

    /// The exported name of `local` under this rule.
    pub fn new_name(&self, local: &str) -> (r: String)
        ensures
            r@ == generated_name_of(local@, self.suffix@),
    {
        generated_name(local, self.suffix.as_str())
    }
}

/// Hands the renaming rule to swc_css_modules::compile, which asks
/// `TransformConfig::new_name_for` for the new name of each local class.
/// The body only converts between `Atom` and `str` around `new_name`.
impl swc_css_modules::TransformConfig for ModuleTransformConfig {
    #[verifier::external_body]
    fn new_name_for(&self, local: &swc_atoms::Atom) -> swc_atoms::Atom {
        swc_atoms::Atom::from(self.new_name(local.as_str()))
    }
}

/// Modules at two different paths never give the same exported name to a
/// local class: the name ends in the path of its own module.
pub proof fn lemma_names_distinct_across_modules(
    local: Seq<char>,
    path1: Seq<char>,
    path2: Seq<char>,
)
    requires
        path1 != path2,
    ensures
        generated_name_of(local, module_suffix_of(path1)) != generated_name_of(
            local,
            module_suffix_of(path2),
        ),
{
    let n1 = generated_name_of(local, module_suffix_of(path1));
    let n2 = generated_name_of(local, module_suffix_of(path2));
    if n1 == n2 {
        let k = local.len() + 1;
        assert(n1.subrange(k as int, n1.len() as int) =~= path1);
        assert(n2.subrange(k as int, n2.len() as int) =~= path2);
    }
}

} // verus!
