//! The binding of a whole crate: every item bound, the bindings put in an
//! order in which each definition comes after the definitions that it
//! needs, forward declarations added where a type is mentioned before it
//! is defined, and all of it laid into namespaces.

use vstd::prelude::*;
use vstd::string::*;
use itertools::Itertools;
use crate::adt::{format_fwd_decl, format_unsupported_def, fwd_decl, unsupported_def};
use crate::cc_ident::{cc_ident, format_cc_ident};
use crate::error::{outermost_message, Error};
use crate::items::{check_item_layout, format_item, item_binding, item_layout_fits};
use crate::names::{namespace_block, NamespaceQualifier};
use crate::prereqs::{
    includes_tokens, lists_ids, sorted_ids, sorted_keys, ApiSnippets, ApiView, IdSet, IncludeKey,
    IncludeSet,
};
use crate::rs_model::{char_is_u32, Crate, Def};
use crate::text::{decimal, join, join_strings, views};
use crate::thunks::{comment_tokens, deprecated_tag, format_comment, format_deprecated_tag};
use crate::toposort::{id_sets, topo_failed, topo_order, toposort, TopoSortResult};
use crate::type_map::{adt_core, adt_of, format_adt_core, Messages};

verus! {

/// The two documents that binding a crate yields.
#[derive(Debug)]
pub struct Output {
    /// The C++ header.
    pub h_body: String,
    /// The Rust source with the thunks and the assertions.
    pub rs_body: String,
}

/// An item of the crate with its binding.
#[derive(Debug)]
pub struct BoundItem {
    pub def: usize,
    pub api: ApiSnippets,
}

/// The values of a `BoundItem`.
pub struct BoundItemView {
    pub def: usize,
    pub api: ApiView,
}

impl View for BoundItem {
    type V = BoundItemView;

    open spec fn view(&self) -> BoundItemView {
        BoundItemView { def: self.def, api: self.api@ }
    }
}

/// The views of a list of bound items.
pub open spec fn bound_views(v: Seq<BoundItem>) -> Seq<BoundItemView> {
    v.map_values(|b: BoundItem| b@)
}

/// What stands in the output for the definition that `def` names: nothing
/// for a definition of another crate, for one that is no item of a module,
/// and for an item that needs no binding; the binding of an item that has
/// one; and for any other item the comment that says why it has none.
pub open spec fn bound_item(krate: Crate, def: usize) -> Option<ApiView>
    recommends
        def < krate.defs@.len(),
{
    let d = krate.defs@[def as int];
    if !d.is_local || !d.is_item {
        None
    } else {
        match item_binding(krate, def) {
            Ok(None) => None,
            Ok(Some(a)) => Some(a),
            Err(e) => Some(unsupported_def(d, e)),
        }
    }
}

/// The bound items among the first `n` definitions, in the order of the
/// source.
pub open spec fn bound_items(krate: Crate, n: int) -> Seq<BoundItemView>
    decreases n,
{
    if n <= 0 || n > krate.defs@.len() {
        Seq::empty()
    } else {
        match bound_item(krate, (n - 1) as usize) {
            None => bound_items(krate, n - 1),
            Some(api) => bound_items(krate, n - 1).push(
                BoundItemView { def: (n - 1) as usize, api },
            ),
        }
    }
}

/// Whether the indices of the definitions of a list of bound items
/// increase.
pub open spec fn defs_increase(items: Seq<BoundItemView>) -> bool {
    forall|i: int, j: int| 0 <= i < j < items.len() ==> items[i].def < items[j].def
}

/// The bound items stand in the order of the source, each once: the
/// indices of their definitions increase, and the first `n` definitions
/// give items below `n` only.
#[verifier::rlimit(60)]
#[verifier::spinoff_prover]
pub proof fn lemma_bound_items_increase(krate: Crate, n: int)
    requires
        0 <= n <= krate.defs@.len(),
    ensures
        forall|i: int|
            0 <= i < bound_items(krate, n).len() ==> (#[trigger] bound_items(krate, n)[i]).def < n,
        defs_increase(bound_items(krate, n)),
        nodes_of(bound_items(krate, n)).no_duplicates(),
    decreases n,
{
    let items = bound_items(krate, n);
    if n > 0 {
        lemma_bound_items_increase(krate, n - 1);
        let before = bound_items(krate, n - 1);
        match bound_item(krate, (n - 1) as usize) {
            None => {
                assert(items == before);
            },
            Some(api) => {
                assert(krate.defs@.len() == krate.defs.len());
                assert(((n - 1) as usize) as int == n - 1);
                assert(items == before.push(BoundItemView { def: (n - 1) as usize, api }));
                assert forall|i: int, j: int| 0 <= i < j < items.len() implies items[i].def
                    < items[j].def by {
                    assert(items[i] == before[i]);
                    if j < before.len() {
                        assert(items[j] == before[j]);
                    } else {
                        assert(items[j].def == n - 1);
                        assert(before[i].def < n - 1);
                    }
                }
            },
        }
    }
    assert forall|i: int, j: int|
        0 <= i < nodes_of(items).len() && 0 <= j < nodes_of(items).len() && i != j implies nodes_of(
        items,
    )[i] != nodes_of(items)[j] by {
        if i < j {
            assert(items[i].def < items[j].def);
        } else {
            assert(items[j].def < items[i].def);
        }
    }
}

/// Whether the types of the crate that are bound have layouts that a
/// compiler gives.
pub open spec fn layouts_fit(krate: Crate) -> bool {
    forall|def: usize|
        def < krate.defs@.len() && krate.defs@[def as int].is_local
            && krate.defs@[def as int].is_item ==> #[trigger] item_layout_fits(krate, def)
}

/// Tests the layouts of the types of the crate that are bound.
pub fn check_layouts(krate: &Crate) -> (r: bool)
    ensures
        r == layouts_fit(*krate),
{
    let mut def: usize = 0;
    while def < krate.defs.len()
        invariant
            def <= krate.defs.len(),
            forall|d: usize|
                d < def && krate.defs@[d as int].is_local && krate.defs@[d as int].is_item
                    ==> #[trigger] item_layout_fits(*krate, d),
        decreases krate.defs.len() - def,
    {
        if krate.defs[def].is_local && krate.defs[def].is_item && !check_item_layout(krate, def) {
            return false;
        }
        def += 1;
    }
    true
}

/// Binds every item of the crate.
pub fn format_items(krate: &Crate) -> (r: Vec<BoundItem>)
    requires
        layouts_fit(*krate),
    ensures
        bound_views(r@) == bound_items(*krate, krate.defs@.len() as int),
{
    let mut items: Vec<BoundItem> = Vec::new();
    assert(bound_views(items@) =~= Seq::<BoundItemView>::empty());
    let mut def: usize = 0;
    while def < krate.defs.len()
        invariant
            def <= krate.defs.len(),
            layouts_fit(*krate),
            bound_views(items@) == bound_items(*krate, def as int),
        decreases krate.defs.len() - def,
    {
        let ghost before = bound_views(items@);
        if krate.defs[def].is_local && krate.defs[def].is_item {
            let bound = match format_item(krate, def) {
                Ok(None) => None,
                Ok(Some(a)) => Some(a),
                Err(e) => Some(format_unsupported_def(&krate.defs[def], &e)),
            };
            match bound {
                Some(api) => {
                    let item = BoundItem { def, api };
                    items.push(item);
                    assert(bound_views(items@) =~= before.push(item@));
                },
                None => {},
            }
        }
        def += 1;
    }
    items
}

/// The definitions of the items, in their order.
pub open spec fn nodes_of(items: Seq<BoundItemView>) -> Seq<usize> {
    items.map_values(|b: BoundItemView| b.def)
}

/// What the main API of each item needs defined before it.
pub open spec fn needs_of(items: Seq<BoundItemView>) -> Seq<Set<usize>> {
    items.map_values(|b: BoundItemView| b.api.main_prereqs.defs)
}

/// The first position at or after `from` of the item that `def` names.
pub open spec fn item_position(items: Seq<BoundItemView>, def: usize, from: int) -> Option<int>
    decreases items.len() - from,
{
    if from < 0 || from >= items.len() {
        None
    } else if items[from].def == def {
        Some(from)
    } else {
        item_position(items, def, from + 1)
    }
}

/// Finds the item that `def` names.
pub fn find_item(items: &Vec<BoundItem>, def: usize) -> (r: Option<usize>)
    ensures
        match r {
            Some(p) => p < items@.len() && item_position(bound_views(items@), def, 0) == Some(
                p as int,
            ),
            None => item_position(bound_views(items@), def, 0) is None,
        },
{
    let ghost v = bound_views(items@);
    let mut p: usize = 0;
    while p < items.len()
        invariant
            p <= items.len(),
            v == bound_views(items@),
            item_position(v, def, 0) == item_position(v, def, p as int),
        decreases items.len() - p,
    {
        assert(v[p as int] == items@[p as int]@);
        if items[p].def == def {
            return Some(p);
        }
        p += 1;
    }
    None
}

/// The forward declarations that the main API of the item `def` needs.
pub open spec fn fwd_decls_of(items: Seq<BoundItemView>, def: usize) -> Set<usize> {
    match item_position(items, def, 0) {
        Some(p) => items[p].api.main_prereqs.fwd_decls,
        None => Set::empty(),
    }
}

/// The types that are declared or defined once the first `k` items of the
/// order are written: those items themselves, and every type that one of
/// them needs declared.
pub open spec fn declared_after(items: Seq<BoundItemView>, order: Seq<usize>, k: int) -> Set<usize>
    decreases k,
{
    if k <= 0 || k > order.len() {
        Set::empty()
    } else {
        declared_after(items, order, k - 1).insert(order[k - 1]).union(
            fwd_decls_of(items, order[k - 1]),
        )
    }
}

/// The types that need a forward declaration for the first `k` items of
/// the order: a type that one of the items needs declared, unless an item
/// before it has defined the type or has needed it declared already.
pub open spec fn fwd_decls_after(items: Seq<BoundItemView>, order: Seq<usize>, k: int) -> Set<usize>
    decreases k,
{
    if k <= 0 || k > order.len() {
        Set::empty()
    } else {
        fwd_decls_after(items, order, k - 1).union(
            fwd_decls_of(items, order[k - 1]).difference(declared_after(items, order, k - 1)),
        )
    }
}

/// Adds to `target` the members of `from` that `except` does not hold.
pub fn extend_except(target: &mut IdSet, from: &IdSet, except: &IdSet)
    ensures
        final(target)@ == old(target)@.union(from@.difference(except@)),
{
    let ids = from.to_sorted_vec();
    let mut i: usize = 0;
    while i < ids.len()
        invariant
            i <= ids.len(),
            lists_ids(ids@, from@),
            forall|x: usize|
                target@.contains(x) == (old(target)@.contains(x) || (exists|j: int|
                    0 <= j < i && ids@[j] == x && !except@.contains(x))),
        decreases ids.len() - i,
    {
        if !except.contains(ids[i]) {
            target.insert(ids[i]);
        }
        i += 1;
    }
    assert forall|x: usize|
        target@.contains(x) == old(target)@.union(from@.difference(except@)).contains(x) by {
        if from@.contains(x) && !except@.contains(x) {
            assert(ids@.contains(x));
        }
    }
    assert(target@ =~= old(target)@.union(from@.difference(except@)));
}

/// Finds the types that need a forward declaration.
pub fn compute_fwd_decls(items: &Vec<BoundItem>, order: &Vec<usize>) -> (r: IdSet)
    ensures
        r@ == fwd_decls_after(bound_views(items@), order@, order@.len() as int),
{
    let ghost v = bound_views(items@);
    let mut fwd = IdSet::new();
    let mut declared = IdSet::new();
    let mut k: usize = 0;
    while k < order.len()
        invariant
            k <= order.len(),
            v == bound_views(items@),
            fwd@ == fwd_decls_after(v, order@, k as int),
            declared@ == declared_after(v, order@, k as int),
        decreases order.len() - k,
    {
        let def = order[k];
        match find_item(items, def) {
            Some(p) => {
                assert(v[p as int] == items@[p as int]@);
                let inner = &items[p].api.main_api.prereqs.fwd_decls;
                extend_except(&mut fwd, inner, &declared);
                declared.insert(def);
                declared.extend(inner);
            },
            None => {
                declared.insert(def);
                assert(fwd@ =~= fwd_decls_after(v, order@, k + 1));
                assert(declared@ =~= declared_after(v, order@, k + 1));
            },
        }
        k += 1;
    }
    fwd
}

/// The headers that the main APIs of the first `k` items of the order
/// need, together with `start`.
pub open spec fn main_includes_after(
    items: Seq<BoundItemView>,
    order: Seq<usize>,
    k: int,
    start: Set<IncludeKey>,
) -> Set<IncludeKey>
    decreases k,
{
    if k <= 0 || k > order.len() {
        start
    } else {
        match item_position(items, order[k - 1], 0) {
            Some(p) => main_includes_after(items, order, k - 1, start).union(
                items[p].api.main_prereqs.includes,
            ),
            None => main_includes_after(items, order, k - 1, start),
        }
    }
}

/// The headers that the details of the first `n` items need.
pub open spec fn details_includes(items: Seq<BoundItemView>, n: int) -> Set<IncludeKey>
    decreases n,
{
    if n <= 0 || n > items.len() {
        Set::empty()
    } else {
        details_includes(items, n - 1).union(items[n - 1].api.details_prereqs.includes)
    }
}

/// All the headers that the bindings need.
pub open spec fn all_includes(items: Seq<BoundItemView>, order: Seq<usize>) -> Set<IncludeKey> {
    main_includes_after(
        items,
        order,
        order.len() as int,
        details_includes(items, items.len() as int),
    )
}

/// Collects the headers that the bindings need.
pub fn collect_includes(items: &Vec<BoundItem>, order: &Vec<usize>) -> (r: IncludeSet)
    ensures
        r@ == all_includes(bound_views(items@), order@),
{
    let ghost v = bound_views(items@);
    let mut includes = IncludeSet::new();
    let mut i: usize = 0;
    while i < items.len()
        invariant
            i <= items.len(),
            v == bound_views(items@),
            includes@ == details_includes(v, i as int),
        decreases items.len() - i,
    {
        assert(v[i as int] == items@[i as int]@);
        includes.extend(&items[i].api.cc_details.prereqs.includes);
        i += 1;
    }
    let ghost start = includes@;
    let mut k: usize = 0;
    while k < order.len()
        invariant
            k <= order.len(),
            v == bound_views(items@),
            includes@ == main_includes_after(v, order@, k as int, start),
        decreases order.len() - k,
    {
        match find_item(items, order[k]) {
            Some(p) => {
                assert(v[p as int] == items@[p as int]@);
                includes.extend(&items[p].api.main_api.prereqs.includes);
            },
            None => {},
        }
        k += 1;
    }
    includes
}

/// Tokens with the namespace that they belong in.
#[derive(Debug)]
pub struct Entry {
    /// The module that holds the tokens' item; `None` at the crate's root.
    pub parent: Option<usize>,
    /// The namespaces in which the tokens lie.
    pub ns: NamespaceQualifier,
    /// The attributes with which the namespace is opened.
    pub attributes: String,
    pub tokens: String,
}

/// The values of an `Entry`.
pub struct EntryView {
    pub parent: Option<usize>,
    pub ns: Seq<Seq<char>>,
    pub attributes: Seq<char>,
    pub tokens: Seq<char>,
}

impl View for Entry {
    type V = EntryView;

    open spec fn view(&self) -> EntryView {
        EntryView {
            parent: self.parent,
            ns: self.ns.parts(),
            attributes: self.attributes@,
            tokens: self.tokens@,
        }
    }
}

/// The views of a list of entries.
pub open spec fn entry_views(v: Seq<Entry>) -> Seq<EntryView> {
    v.map_values(|e: Entry| e@)
}

/// Whether two entries lie in the same namespace of the same module.
pub open spec fn same_namespace(a: EntryView, b: EntryView) -> bool {
    a.parent == b.parent && a.ns == b.ns
}

/// Two entries of one namespace as one entry.
pub open spec fn merged(a: EntryView, b: EntryView) -> EntryView {
    EntryView { tokens: a.tokens + b.tokens, ..a }
}

/// The first `n` entries with each run of neighbours that lie in one
/// namespace made into one entry.
pub open spec fn coalesced(entries: Seq<EntryView>, n: int) -> Seq<EntryView>
    decreases n,
{
    if n <= 0 || n > entries.len() {
        Seq::empty()
    } else {
        let before = coalesced(entries, n - 1);
        if before.len() > 0 && same_namespace(before.last(), entries[n - 1]) {
            before.drop_last().push(merged(before.last(), entries[n - 1]))
        } else {
            before.push(entries[n - 1])
        }
    }
}

/// Makes one entry of two that lie in the same namespace, and hands both
/// back where they do not.
pub fn merge_entries(a: Entry, b: Entry) -> (r: Result<Entry, (Entry, Entry)>)
    ensures
        match r {
            Ok(e) => same_namespace(a@, b@) && e@ == merged(a@, b@),
            Err(pair) => !same_namespace(a@, b@) && pair.0@ == a@ && pair.1@ == b@,
        },
{
    let same_parent = match (a.parent, b.parent) {
        (Some(x), Some(y)) => x == y,
        (None, None) => true,
        _ => false,
    };
    if same_parent && a.ns.same_as(&b.ns) {
        let Entry { parent, ns, attributes, tokens } = a;
        let mut tokens = tokens;
        tokens.append(b.tokens.as_str());
        Ok(Entry { parent, ns, attributes, tokens })
    } else {
        Err((a, b))
    }
}

/// Calls `Itertools::coalesce` of the crate `itertools`, which hands each
/// element and its successor to `merge_entries` and keeps what that makes
/// of them: the merged element goes on to meet the next one, an element
/// that was not merged is given out.
#[verifier::external_body]
pub(crate) fn coalesce_entries(entries: Vec<Entry>) -> (r: Vec<Entry>)
    ensures
        entry_views(r@) == coalesced(entry_views(entries@), entries@.len() as int),
{
    entries.into_iter().coalesce(|a, b| merge_entries(a, b)).collect()
}

/// The name of a namespace as messages show it.
pub open spec fn namespace_display(ns: Seq<Seq<char>>) -> Seq<char> {
    join(ns, "::"@)
}

/// The tokens of one entry inside its namespace. A namespace whose name
/// C++ cannot spell leaves a comment in place of its contents.
pub open spec fn entry_tokens(e: EntryView) -> Seq<char> {
    match namespace_block(e.ns, e.tokens, e.attributes) {
        Ok(t) => t,
        Err(err) => comment_tokens(
            "Failed to format namespace name `"@ + namespace_display(e.ns) + "`: "@
                + outermost_message(err),
        ),
    }
}

/// The tokens of a list of entries, each inside its namespace; neighbours
/// that lie in one namespace share it.
pub open spec fn namespace_bound_tokens(entries: Seq<EntryView>) -> Seq<char> {
    join(
        coalesced(entries, entries.len() as int).map_values(|e: EntryView| entry_tokens(e)),
        "__NEWLINE__ __NEWLINE__ "@,
    )
}

/// Writes one entry inside its namespace.
pub fn format_entry(e: &Entry) -> (r: String)
    ensures
        r@ == entry_tokens(e@),
{
    match e.ns.format_with_cc_body(e.tokens.as_str(), e.attributes.as_str()) {
        Ok(t) => t,
        Err(err) => {
            let mut msg = String::from_str("Failed to format namespace name `");
            msg.append(join_strings(&e.ns.0, "::").as_str());
            msg.append("`: ");
            msg.append(err.outermost().as_str());
            format_comment(msg.as_str())
        },
    }
}

/// Lays tokens into their namespaces. Entries that follow one another and
/// lie in the same namespace share one block; entries at the top level
/// stand without a block.
pub fn format_namespace_bound_cc_tokens(entries: Vec<Entry>) -> (r: String)
    ensures
        r@ == namespace_bound_tokens(entry_views(entries@)),
{
    let ghost input = entry_views(entries@);
    let groups = coalesce_entries(entries);
    let ghost spec_groups = entry_views(groups@);
    let mut texts: Vec<String> = Vec::new();
    let mut i: usize = 0;
    while i < groups.len()
        invariant
            i <= groups.len(),
            spec_groups == entry_views(groups@),
            views(texts@) == spec_groups.map_values(|e: EntryView| entry_tokens(e)).take(i as int),
        decreases groups.len() - i,
    {
        let ghost before = views(texts@);
        assert(spec_groups[i as int] == groups@[i as int]@);
        let t = format_entry(&groups[i]);
        texts.push(t);
        assert(views(texts@) =~= before.push(t@));
        assert(views(texts@) =~= spec_groups.map_values(|e: EntryView| entry_tokens(e)).take(
            i + 1,
        ));
        i += 1;
    }
    assert(spec_groups.map_values(|e: EntryView| entry_tokens(e)).take(groups.len() as int)
        =~= spec_groups.map_values(|e: EntryView| entry_tokens(e)));
    join_strings(&texts, "__NEWLINE__ __NEWLINE__ ")
}

/// The entry for tokens that belong to the item `d`.
pub open spec fn entry_for(d: Def, tokens: Seq<char>) -> EntryView {
    EntryView {
        parent: d.parent_module,
        ns: views(d.mod_path@),
        attributes: deprecated_tag(d.module_deprecated),
        tokens,
    }
}

/// Makes the entry for tokens that belong to an item.
pub fn make_entry(d: &Def, tokens: String) -> (r: Entry)
    ensures
        r@ == entry_for(*d, tokens@),
{
    Entry {
        parent: d.parent_module,
        ns: d.namespace(),
        attributes: format_deprecated_tag(&d.module_deprecated),
        tokens,
    }
}

/// The entries of the forward declarations of the first `n` types of a
/// list. Only a type with a binding of its own is declared.
pub open spec fn fwd_decl_entries(krate: Crate, ids: Seq<usize>, n: int) -> Seq<EntryView>
    decreases n,
{
    if n <= 0 || n > ids.len() {
        Seq::empty()
    } else {
        let id = ids[n - 1];
        if adt_of(krate, id) is Some && adt_core(krate, id) is Ok {
            fwd_decl_entries(krate, ids, n - 1).push(
                entry_for(krate.defs@[id as int], fwd_decl(adt_core(krate, id)->Ok_0)),
            )
        } else {
            fwd_decl_entries(krate, ids, n - 1)
        }
    }
}

/// The entries of the main APIs of the first `k` items of the order.
pub open spec fn main_entries(krate: Crate, items: Seq<BoundItemView>, order: Seq<usize>, k: int) -> Seq<
    EntryView,
>
    decreases k,
{
    if k <= 0 || k > order.len() {
        Seq::empty()
    } else {
        let id = order[k - 1];
        match item_position(items, id, 0) {
            Some(p) => if id < krate.defs@.len() {
                main_entries(krate, items, order, k - 1).push(
                    entry_for(krate.defs@[id as int], items[p].api.main_tokens),
                )
            } else {
                main_entries(krate, items, order, k - 1)
            },
            None => main_entries(krate, items, order, k - 1),
        }
    }
}

/// The entries of the details of the first `n` items.
pub open spec fn details_entries(krate: Crate, items: Seq<BoundItemView>, n: int) -> Seq<EntryView>
    decreases n,
{
    if n <= 0 || n > items.len() {
        Seq::empty()
    } else {
        let id = items[n - 1].def;
        if id < krate.defs@.len() {
            details_entries(krate, items, n - 1).push(
                entry_for(krate.defs@[id as int], items[n - 1].api.details_tokens),
            )
        } else {
            details_entries(krate, items, n - 1)
        }
    }
}

/// The Rust details of the first `n` items, one after another.
pub open spec fn rs_details_of(items: Seq<BoundItemView>, n: int) -> Seq<char>
    decreases n,
{
    if n <= 0 || n > items.len() {
        Seq::empty()
    } else {
        rs_details_of(items, n - 1) + items[n - 1].api.rs_details
    }
}

/// All the entries of the header: the forward declarations in the order of
/// the source, the main APIs in the sorted order, then the details in the
/// order of the source. The details come last because a detail may need
/// any main API defined, and no main API needs a detail.
pub open spec fn header_entries(krate: Crate, items: Seq<BoundItemView>, order: Seq<usize>) -> Seq<
    EntryView,
> {
    let fwd = sorted_ids(fwd_decls_after(items, order, order.len() as int));
    fwd_decl_entries(krate, fwd, fwd.len() as int) + main_entries(
        krate,
        items,
        order,
        order.len() as int,
    ) + details_entries(krate, items, items.len() as int)
}

/// Makes the entries of the header.
pub fn make_header_entries(krate: &Crate, items: &Vec<BoundItem>, order: &Vec<usize>) -> (r: Vec<
    Entry,
>)
    ensures
        entry_views(r@) == header_entries(*krate, bound_views(items@), order@),
{
    let ghost v = bound_views(items@);
    let fwd = compute_fwd_decls(items, order).to_sorted_vec();
    let mut entries: Vec<Entry> = Vec::new();
    assert(entry_views(entries@) =~= Seq::<EntryView>::empty());
    let mut i: usize = 0;
    while i < fwd.len()
        invariant
            i <= fwd.len(),
            entry_views(entries@) == fwd_decl_entries(*krate, fwd@, i as int),
        decreases fwd.len() - i,
    {
        let ghost before = entry_views(entries@);
        let id = fwd[i];
        if krate.adt(id).is_some() {
            match format_adt_core(krate, id) {
                Ok(core) => {
                    let e = make_entry(&krate.defs[id], format_fwd_decl(&core));
                    entries.push(e);
                    assert(entry_views(entries@) =~= before.push(e@));
                },
                Err(_) => {},
            }
        }
        i += 1;
    }
    let ghost first = entry_views(entries@);
    assert(first + Seq::<EntryView>::empty() =~= first);
    let mut k: usize = 0;
    while k < order.len()
        invariant
            k <= order.len(),
            v == bound_views(items@),
            entry_views(entries@) == first + main_entries(*krate, v, order@, k as int),
        decreases order.len() - k,
    {
        let ghost before = entry_views(entries@);
        let id = order[k];
        match find_item(items, id) {
            Some(p) => {
                assert(v[p as int] == items@[p as int]@);
                if id < krate.defs.len() {
                    let e = make_entry(&krate.defs[id], items[p].api.main_api.tokens.clone());
                    entries.push(e);
                    assert(entry_views(entries@) =~= before.push(e@));
                    assert(first + main_entries(*krate, v, order@, k as int).push(e@) =~= (first
                        + main_entries(*krate, v, order@, k as int)).push(e@));
                }
            },
            None => {},
        }
        k += 1;
    }
    let ghost second = entry_views(entries@);
    assert(second + Seq::<EntryView>::empty() =~= second);
    let mut j: usize = 0;
    while j < items.len()
        invariant
            j <= items.len(),
            v == bound_views(items@),
            entry_views(entries@) == second + details_entries(*krate, v, j as int),
        decreases items.len() - j,
    {
        let ghost before = entry_views(entries@);
        assert(v[j as int] == items@[j as int]@);
        let id = items[j].def;
        if id < krate.defs.len() {
            let e = make_entry(&krate.defs[id], items[j].api.cc_details.tokens.clone());
            entries.push(e);
            assert(entry_views(entries@) =~= before.push(e@));
            assert(second + details_entries(*krate, v, j as int).push(e@) =~= (second
                + details_entries(*krate, v, j as int)).push(e@));
        }
        j += 1;
    }
    entries
}

/// The ids of a list with commas between them.
pub open spec fn ids_display(ids: Seq<usize>) -> Seq<char> {
    join(ids.map_values(|i: usize| decimal(i as nat)), ","@)
}

/// The message for definitions that need one another in a circle.
pub open spec fn cycle_message(failed: Seq<usize>) -> Seq<char> {
    "There are no known scenarios where CcPrerequisites::defs can form a dependency cycle. These `LocalDefId`s form an unexpected cycle: "@
        + ids_display(failed)
}

/// The header of the crate, given its name in C++, its headers and its
/// entries.
pub open spec fn header_body(crate_name: Seq<char>, includes: Seq<char>, entries: Seq<char>) -> Seq<
    char,
> {
    includes + "__NEWLINE__ __NEWLINE__ namespace "@ + crate_name + " { __NEWLINE__ "@ + entries
        + "__NEWLINE__ } __NEWLINE__ "@
}

/// What a crate's bindings hold in specifications.
pub struct OutputView {
    pub h_body: Seq<char>,
    pub rs_body: Seq<char>,
}

impl View for Output {
    type V = OutputView;

    open spec fn view(&self) -> OutputView {
        OutputView { h_body: self.h_body@, rs_body: self.rs_body@ }
    }
}

/// The definitions that have no place in the order of the header, as
/// they need one another in a circle.
pub open spec fn definition_cycle(krate: Crate) -> Seq<usize> {
    let items = bound_items(krate, krate.defs@.len() as int);
    topo_failed(nodes_of(items), needs_of(items))
}

/// Whether the bound items can be put in an order in which each comes
/// after what it needs defined. They always can where the bindings come
/// from types as they are: a type that is only pointed to is needed by
/// declaration only.
pub open spec fn definitions_ordered(krate: Crate) -> bool {
    definition_cycle(krate).len() == 0
}

/// The bindings of all the public items of a crate, or why the crate as a
/// whole cannot be bound.
///
/// The header holds the headers that the bindings need and, inside the
/// namespace of the crate, the forward declarations, the main APIs in an
/// order in which each comes after what it needs defined, and the details.
/// The Rust source holds the details of the items in the order of the
/// source.
pub open spec fn crate_bindings(krate: Crate) -> Result<OutputView, Messages> {
    let items = bound_items(krate, krate.defs@.len() as int);
    let order = topo_order(nodes_of(items), needs_of(items));
    match cc_ident(krate.name@) {
        Err(e) => Err(e),
        Ok(crate_name) => Ok(
            OutputView {
                h_body: header_body(
                    crate_name,
                    includes_tokens(sorted_keys(all_includes(items, order))),
                    namespace_bound_tokens(header_entries(krate, items, order)),
                ),
                rs_body: rs_details_of(items, items.len() as int),
            },
        ),
    }
}

/// An output result and the function's result agree.
pub open spec fn crate_result_is(r: Result<Output, Error>, expected: Result<OutputView, Messages>) -> bool {
    match expected {
        Ok(v) => r matches Ok(o) && o@ == v,
        Err(e) => r matches Err(x) && x@ == e,
    }
}

/// Writes the ids of a list with commas between them.
pub fn format_ids(ids: &Vec<usize>) -> (r: String)
    ensures
        r@ == ids_display(ids@),
{
    let mut shown: Vec<String> = Vec::new();
    let mut i: usize = 0;
    while i < ids.len()
        invariant
            i <= ids.len(),
            views(shown@) == ids@.map_values(|i: usize| decimal(i as nat)).take(i as int),
        decreases ids.len() - i,
    {
        let ghost before = views(shown@);
        let s = crate::text::decimal_string(ids[i] as u64);
        shown.push(s);
        assert(views(shown@) =~= before.push(s@));
        assert(views(shown@) =~= ids@.map_values(|i: usize| decimal(i as nat)).take(i + 1));
        i += 1;
    }
    assert(ids@.map_values(|i: usize| decimal(i as nat)).take(ids.len() as int) =~= ids@.map_values(
        |i: usize| decimal(i as nat),
    ));
    join_strings(&shown, ",")
}

/// The order of the bound items in the header, and the items that have no
/// place in it.
pub fn order_items(items: &Vec<BoundItem>) -> (r: TopoSortResult)
    ensures
        r.ordered@ == topo_order(nodes_of(bound_views(items@)), needs_of(bound_views(items@))),
        r.failed@ == topo_failed(nodes_of(bound_views(items@)), needs_of(bound_views(items@))),
{
    let ghost v = bound_views(items@);
    let mut nodes: Vec<usize> = Vec::new();
    let mut needs: Vec<IdSet> = Vec::new();
    let mut i: usize = 0;
    while i < items.len()
        invariant
            i <= items.len(),
            v == bound_views(items@),
            nodes@ == nodes_of(v).take(i as int),
            id_sets(needs@) == needs_of(v).take(i as int),
        decreases items.len() - i,
    {
        assert(v[i as int] == items@[i as int]@);
        let ghost needs_before = id_sets(needs@);
        nodes.push(items[i].def);
        let s = items[i].api.main_api.prereqs.defs.copy();
        needs.push(s);
        assert(nodes@ =~= nodes_of(v).take(i + 1));
        assert(id_sets(needs@) =~= needs_before.push(s@));
        assert(id_sets(needs@) =~= needs_of(v).take(i + 1));
        i += 1;
    }
    assert(nodes@ =~= nodes_of(v));
    assert(id_sets(needs@) =~= needs_of(v));
    toposort(&nodes, &needs)
}

/// Tests whether the bound items can be put in order, and says which
/// definitions need one another in a circle where they cannot.
pub fn check_definition_order(krate: &Crate) -> (r: Result<(), Error>)
    requires
        layouts_fit(*krate),
    ensures
        r is Ok == definitions_ordered(*krate),
        r matches Err(e) ==> e@ == seq![cycle_message(definition_cycle(*krate))],
{
    let items = format_items(krate);
    let sorted = order_items(&items);
    if sorted.failed.len() != 0 {
        let mut m = String::from_str(
            "There are no known scenarios where CcPrerequisites::defs can form a dependency cycle. These `LocalDefId`s form an unexpected cycle: ",
        );
        m.append(format_ids(&sorted.failed).as_str());
        return Err(Error::msg(m));
    }
    Ok(())
}

/// Binds all the public items of a crate whose bound items can be put in
/// order.
pub fn format_crate(krate: &Crate) -> (r: Result<Output, Error>)
    requires
        layouts_fit(*krate),
        definitions_ordered(*krate),
    ensures
        crate_result_is(r, crate_bindings(*krate)),
{
    let items = format_items(krate);
    let ghost v = bound_views(items@);
    let mut rs_body = String::new();
    assert(rs_body@ =~= Seq::<char>::empty());
    let mut i: usize = 0;
    while i < items.len()
        invariant
            i <= items.len(),
            v == bound_views(items@),
            rs_body@ == rs_details_of(v, i as int),
        decreases items.len() - i,
    {
        assert(v[i as int] == items@[i as int]@);
        rs_body.append(items[i].api.rs_details.as_str());
        i += 1;
    }
    let sorted = order_items(&items);
    let crate_name = match format_cc_ident(krate.name.as_str()) {
        Ok(n) => n,
        Err(e) => {
            return Err(e);
        },
    };
    let includes = collect_includes(&items, &sorted.ordered);
    let entries = make_header_entries(krate, &items, &sorted.ordered);
    let mut h_body = includes.to_sorted_tokens();
    h_body.append("__NEWLINE__ __NEWLINE__ namespace ");
    h_body.append(crate_name.as_str());
    h_body.append(" { __NEWLINE__ ");
    h_body.append(format_namespace_bound_cc_tokens(entries).as_str());
    h_body.append("__NEWLINE__ } __NEWLINE__ ");
    Ok(Output { h_body, rs_body })
}

/// The comment at the top of both documents.
pub open spec fn top_comment(krate: Crate) -> Seq<char> {
    comment_tokens(
        "Automatically @generated C++ bindings for the following Rust crate:\n"@ + krate.name@,
    ) + "__NEWLINE__ "@
}

/// The two documents of a crate.
///
/// A crate that unwinds on panic has none, nor has one built by a compiler
/// that lays `char` out otherwise than the bindings take for granted. A
/// crate that cannot be bound as a whole
/// has documents that say so in a comment. Every other crate has its
/// bindings; what cannot be bound of it leaves a comment in its place.
pub open spec fn bindings(krate: Crate) -> Result<OutputView, Messages> {
    if krate.panic_unwind {
        Err(seq!["No support for panic=unwind strategy (b/254049425)"@])
    } else if !char_is_u32(krate.char_layout) {
        Err(seq!["`char` is not laid out as an unsigned integer of 32 bits"@])
    } else {
        match crate_bindings(krate) {
            Err(e) => {
                let src = comment_tokens(
                    "Failed to generate bindings for the crate: "@ + outermost_message(e),
                );
                Ok(
                    OutputView {
                        h_body: top_comment(krate)
                            + "__HASH_TOKEN__ pragma once __NEWLINE__ __NEWLINE__ "@ + src,
                        rs_body: top_comment(krate)
                            + "# ! [ allow ( improper_ctypes_definitions ) ] __NEWLINE__ __NEWLINE__ "@
                            + src,
                    },
                )
            },
            Ok(o) => Ok(
                OutputView {
                    h_body: top_comment(krate)
                        + "__HASH_TOKEN__ pragma once __NEWLINE__ __NEWLINE__ "@ + o.h_body,
                    rs_body: top_comment(krate)
                        + "# ! [ allow ( improper_ctypes_definitions ) ] __NEWLINE__ __NEWLINE__ "@
                        + o.rs_body,
                },
            ),
        }
    }
}

/// Binds a crate. The result depends on the crate alone: binding the same
/// crate again gives the same two documents.
pub fn generate_bindings(krate: &Crate) -> (r: Result<Output, Error>)
    requires
        layouts_fit(*krate),
        definitions_ordered(*krate),
    ensures
        match bindings(*krate) {
            Ok(v) => r matches Ok(o) && o@ == v,
            Err(e) => r matches Err(x) && x@ == e,
        },
{
    if krate.panic_unwind {
        return Err(Error::new("No support for panic=unwind strategy (b/254049425)"));
    }
    if !krate.char_layout.is_u32() {
        return Err(Error::new("`char` is not laid out as an unsigned integer of 32 bits"));
    }
    let mut txt = String::from_str(
        "Automatically @generated C++ bindings for the following Rust crate:\n",
    );
    txt.append(krate.name.as_str());
    let mut top = format_comment(txt.as_str());
    top.append("__NEWLINE__ ");
    let Output { h_body, rs_body } = match format_crate(krate) {
        Ok(o) => o,
        Err(e) => {
            let mut msg = String::from_str("Failed to generate bindings for the crate: ");
            msg.append(e.outermost().as_str());
            let src = format_comment(msg.as_str());
            Output { h_body: src.clone(), rs_body: src }
        },
    };
    let mut h = top.clone();
    h.append("__HASH_TOKEN__ pragma once __NEWLINE__ __NEWLINE__ ");
    h.append(h_body.as_str());
    let mut rs = top;
    rs.append("# ! [ allow ( improper_ctypes_definitions ) ] __NEWLINE__ __NEWLINE__ ");
    rs.append(rs_body.as_str());
    Ok(Output { h_body: h, rs_body: rs })
}

} // verus!
