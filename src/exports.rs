//! Export tables of CSS modules, and the order in which they are reported.
use crate::names::{generated_name_of, lemma_names_distinct_across_modules, module_suffix_of};
use swc_core::css::ast::Stylesheet;
use crate::swc::{renamed_set_of, export_entries, export_table_of, sort_table_keys, ExportTable};
use vstd::prelude::*;

verus! {

/// How a local class is exported: under its generated name, under a global
/// name, or as a class of another module.
#[derive(Clone, Debug, PartialEq, Eq)]
pub enum ExportName {
    Local { name: String },
    Global { name: String },
    Import { name: String, from: String },
}

/// `names` exports the local class under the name `n`.
pub open spec fn holds_local_name(names: Seq<ExportName>, n: Seq<char>) -> bool {
    exists|j: int| 0 <= j < names.len() && (#[trigger] names[j] matches ExportName::Local { name } && name@ == n)
}

/// Every class of `entries` is exported under the name that the module at
/// `path` gives it.
pub open spec fn exports_named_after(entries: ExportEntries, path: Seq<char>) -> bool {
    forall|i: int|
        0 <= i < entries.len() ==> holds_local_name(
            #[trigger] entries[i].1,
            generated_name_of(entries[i].0, module_suffix_of(path)),
        )
}

/// The entries of an export table as values: each local class name with the
/// names it is exported as.
pub type ExportEntries = Seq<(Seq<char>, Seq<ExportName>)>;

/// The entries of a list of exports.
pub open spec fn entries_view(v: Seq<(String, Vec<ExportName>)>) -> ExportEntries {
    v.map_values(|e: (String, Vec<ExportName>)| (e.0@, e.1@))
}

/// Lexicographic order of class names, character by character.
pub open spec fn key_lt(a: Seq<char>, b: Seq<char>) -> bool
    decreases a.len(),
{
    if a.len() == 0 {
        b.len() > 0
    } else if b.len() == 0 {
        false
    } else if a[0] != b[0] {
        (a[0] as u32) < (b[0] as u32)
    } else {
        key_lt(a.drop_first(), b.drop_first())
    }
}

/// No two entries share a key.
pub open spec fn keys_distinct(s: ExportEntries) -> bool {
    forall|i: int, j: int| 0 <= i < j < s.len() ==> s[i].0 != s[j].0
}

/// Keys strictly increase along the entries.
pub open spec fn keys_sorted(s: ExportEntries) -> bool {
    forall|i: int, j: int| 0 <= i < j < s.len() ==> key_lt(#[trigger] s[i].0, #[trigger] s[j].0)
}

/// No name comes before a name that comes before it.
pub proof fn lemma_key_lt_asymmetric(a: Seq<char>, b: Seq<char>)
    ensures
        !(key_lt(a, b) && key_lt(b, a)),
    decreases a.len(),
{
    if a.len() > 0 && b.len() > 0 && a[0] == b[0] {
        lemma_key_lt_asymmetric(a.drop_first(), b.drop_first());
    }
}

/// The order of an export table is fixed by its entries alone: two tables
/// sorted by key that hold the same entries are identical, entry for entry.
pub proof fn lemma_sorted_entries_unique(a: ExportEntries, b: ExportEntries)
    requires
        keys_sorted(a),
        keys_sorted(b),
        a.to_set() == b.to_set(),
    ensures
        a == b,
    decreases a.len(),
{
    if a.len() == 0 {
        if b.len() > 0 {
            assert(b.to_set().contains(b[0]));
        }
        assert(a =~= b);
    } else {
        assert(a.to_set().contains(a[0]));
        assert(b.to_set().contains(a[0]));
        assert(b.len() > 0);
        assert(b.to_set().contains(b[0]));
        let j = choose|j: int| 0 <= j < b.len() && b[j] == a[0];
        let i = choose|i: int| 0 <= i < a.len() && a[i] == b[0];
        if j > 0 {
            assert(key_lt(b[0].0, b[j].0));
            if i > 0 {
                assert(key_lt(a[0].0, a[i].0));
                lemma_key_lt_asymmetric(a[0].0, b[0].0);
            }
        }
        assert(a[0] == b[0]);
        let ta = a.drop_first();
        let tb = b.drop_first();
        assert forall|x| ta.to_set().contains(x) implies tb.to_set().contains(x) by {
            let k = choose|k: int| 0 <= k < ta.len() && ta[k] == x;
            assert(a[k + 1] == x);
            assert(key_lt(a[0].0, a[k + 1].0));
            lemma_key_lt_asymmetric(a[0].0, x.0);
            assert(b.to_set().contains(x));
            let m = choose|m: int| 0 <= m < b.len() && b[m] == x;
            assert(m != 0);
            assert(tb[m - 1] == x);
        }
        assert forall|x| tb.to_set().contains(x) implies ta.to_set().contains(x) by {
            let k = choose|k: int| 0 <= k < tb.len() && tb[k] == x;
            assert(b[k + 1] == x);
            assert(key_lt(b[0].0, b[k + 1].0));
            lemma_key_lt_asymmetric(b[0].0, x.0);
            assert(a.to_set().contains(x));
            let m = choose|m: int| 0 <= m < a.len() && a[m] == x;
            assert(m != 0);
            assert(ta[m - 1] == x);
        }
        assert(ta.to_set() =~= tb.to_set());
        assert forall|p: int, q: int| 0 <= p < q < ta.len() implies key_lt(
            #[trigger] ta[p].0,
            #[trigger] ta[q].0,
        ) by {
            assert(ta[p] == a[p + 1] && ta[q] == a[q + 1]);
        }
        assert forall|p: int, q: int| 0 <= p < q < tb.len() implies key_lt(
            #[trigger] tb[p].0,
            #[trigger] tb[q].0,
        ) by {
            assert(tb[p] == b[p + 1] && tb[q] == b[q + 1]);
        }
        lemma_sorted_entries_unique(ta, tb);
        assert(a.len() == b.len());
        assert forall|k: int| 0 <= k < a.len() implies a[k] == b[k] by {
            if k > 0 {
                assert(a[k] == ta[k - 1] && b[k] == tb[k - 1]);
            }
        }
        assert(a =~= b);
    }
}

/// The export table of a module from the renamer's map, ordered by local
/// class name whatever order the map was walked in.
pub fn sorted_exports(renamed: Vec<(String, Vec<ExportName>)>) -> (r: ExportTable)
    ensures
        keys_sorted(export_entries(r)),
        keys_distinct(entries_view(renamed@)) ==> export_entries(r).to_set() == entries_view(
            renamed@,
        ).to_set(),
{
    let mut table = export_table_of(renamed);
    sort_table_keys(&mut table);
    table
}

/// Two modules at different paths that both export a class `k` export it
/// under different local names: each table holds the name that its own path
/// gives, and those names differ.
pub proof fn lemma_exports_distinct_across_modules(
    e1: ExportEntries,
    path_a: Seq<char>,
    i1: int,
    e2: ExportEntries,
    path_b: Seq<char>,
    i2: int,
)
    requires
        exports_named_after(e1, path_a),
        exports_named_after(e2, path_b),
        path_a != path_b,
        0 <= i1 < e1.len(),
        0 <= i2 < e2.len(),
        e1[i1].0 == e2[i2].0,
    ensures
        holds_local_name(e1[i1].1, generated_name_of(e1[i1].0, module_suffix_of(path_a))),
        holds_local_name(e2[i2].1, generated_name_of(e2[i2].0, module_suffix_of(path_b))),
        generated_name_of(e1[i1].0, module_suffix_of(path_a)) != generated_name_of(
            e2[i2].0,
            module_suffix_of(path_b),
        ),
{
    lemma_names_distinct_across_modules(e1[i1].0, path_a, path_b);
}

/// Renaming one stylesheet for one module always reports the same export
/// table: two tables sorted by key that hold the renamer's entries for the
/// same stylesheet and suffix are identical, keys, names and order.
pub proof fn lemma_module_exports_deterministic(
    t1: ExportTable,
    t2: ExportTable,
    s: Stylesheet,
    suffix: Seq<char>,
)
    requires
        keys_sorted(export_entries(t1)),
        keys_sorted(export_entries(t2)),
        export_entries(t1).to_set() == renamed_set_of(s, suffix),
        export_entries(t2).to_set() == renamed_set_of(s, suffix),
    ensures
        export_entries(t1) == export_entries(t2),
{
    lemma_sorted_entries_unique(export_entries(t1), export_entries(t2));
}

} // verus!
