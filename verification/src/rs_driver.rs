//! The walk over the items of a C++ interface that puts the Rust bindings
//! together: each item bound or explained, namespaces as modules, and the
//! pieces of all items as two documents.

use vstd::prelude::*;
use vstd::string::*;
use crate::cc_ident::{make_rs_ident, rs_ident};
use crate::error::{full_message, Error};
use crate::features::{
    bindings_of, has_bindings, reason_error, HasBindings, HasBindingsView, TypesOfItems,
};
use crate::ir::{
    feature_short_name, item_id, item_owning_target, item_source_loc, CrubitFeature, CrubitFeatures,
    FormattedError, Item, ItemId, Namespace, UnsupportedItem,
};
use crate::ir_db::{features_of, reopened_count, IR};
use crate::ir_queries::{can_be_named, item_debug_name, records_in, GenericItem};
use crate::rs_api::{
    enum_binding, generate_comment, generate_enum, generate_rs_api_impl_includes,
    generate_type_alias, generate_type_map_override, generate_unsupported, generate_use_mod,
    rs_api_impl_includes, type_alias_binding, type_map_override_binding, unsupported_text,
    use_mod_tokens, GeneratedItem, GeneratedView, TypeTokens,
};
use crate::text::{decimal, join, join_strings, push_decimal, str_eq, views};
use crate::thunks::{comment_tokens, insert_name_sorted, insert_sorted};
use crate::type_map::Messages;

verus! {

/// What the makers of the bindings of functions and records hand in for
/// one item.
#[derive(Debug)]
pub enum ProvidedBinding {
    /// The item gets no bindings, and that is no failure.
    Nothing,
    /// The bindings of the item.
    Item(GeneratedItem),
    /// The item is a function that shares its Rust name with another.
    Overloaded,
    /// Why the item cannot be bound.
    Failed(Error),
}

/// What is known from elsewhere of the items of an interface.
#[derive(Debug)]
pub struct Provided {
    /// What the targets lack for the types of the items.
    pub types: TypesOfItems,
    /// The bindings of the functions and the records.
    pub bindings: Vec<(ItemId, ProvidedBinding)>,
    /// The Rust spelling of the underlying types of enums and aliases.
    pub type_tokens: Vec<(ItemId, Result<TypeTokens, Error>)>,
    /// Whether comments say where an item is declared.
    pub generate_source_loc_doc_comment: bool,
}

/// The first entry at or after `from` with the given id.
pub open spec fn binding_from(entries: Seq<(ItemId, ProvidedBinding)>, id: ItemId, from: int) -> Option<
    int,
>
    decreases entries.len() - from,
{
    if from < 0 || from >= entries.len() {
        None
    } else if entries[from].0 == id {
        Some(from)
    } else {
        binding_from(entries, id, from + 1)
    }
}

/// The first entry at or after `from` with the given id.
pub open spec fn tokens_from(
    entries: Seq<(ItemId, Result<TypeTokens, Error>)>,
    id: ItemId,
    from: int,
) -> Option<int>
    decreases entries.len() - from,
{
    if from < 0 || from >= entries.len() {
        None
    } else if entries[from].0 == id {
        Some(from)
    } else {
        tokens_from(entries, id, from + 1)
    }
}

impl Provided {
    /// The binding handed in for the item with the given id.
    pub fn binding(&self, id: ItemId) -> (r: Option<&ProvidedBinding>)
        ensures
            match binding_from(self.bindings@, id, 0) {
                Some(k) => r matches Some(b) && *b == self.bindings@[k].1,
                None => r is None,
            },
    {
        let mut i: usize = 0;
        while i < self.bindings.len()
            invariant
                i <= self.bindings.len(),
                binding_from(self.bindings@, id, 0) == binding_from(self.bindings@, id, i as int),
            decreases self.bindings.len() - i,
        {
            if self.bindings[i].0.0 == id.0 {
                return Some(&self.bindings[i].1);
            }
            i += 1;
        }
        None
    }

    /// The spelling handed in for the underlying type of the item with the
    /// given id.
    pub fn tokens(&self, id: ItemId) -> (r: Option<&Result<TypeTokens, Error>>)
        ensures
            match tokens_from(self.type_tokens@, id, 0) {
                Some(k) => r matches Some(t) && *t == self.type_tokens@[k].1,
                None => r is None,
            },
    {
        let mut i: usize = 0;
        while i < self.type_tokens.len()
            invariant
                i <= self.type_tokens.len(),
                tokens_from(self.type_tokens@, id, 0) == tokens_from(
                    self.type_tokens@,
                    id,
                    i as int,
                ),
            decreases self.type_tokens.len() - i,
        {
            if self.type_tokens[i].0.0 == id.0 {
                return Some(&self.type_tokens[i].1);
            }
            i += 1;
        }
        None
    }
}

/// The binding handed in for an item, or why it has none.
pub open spec fn provided_binding(p: Provided, id: ItemId) -> Result<GeneratedView, Messages> {
    match binding_from(p.bindings@, id, 0) {
        None => Ok(GeneratedView::empty()),
        Some(k) => match p.bindings@[k].1 {
            ProvidedBinding::Nothing => Ok(GeneratedView::empty()),
            ProvidedBinding::Item(g) => Ok(g@),
            ProvidedBinding::Overloaded => Err(
                seq!["Cannot generate bindings for overloaded function"@],
            ),
            ProvidedBinding::Failed(e) => Err(e@),
        },
    }
}

/// The spelling handed in for the underlying type of an item, or why it
/// has none.
pub open spec fn provided_tokens(p: Provided, id: ItemId) -> Result<TypeTokens, Messages> {
    match tokens_from(p.type_tokens@, id, 0) {
        None => Err(seq!["Nothing is known of the type"@]),
        Some(k) => match p.type_tokens@[k].1 {
            Ok(t) => Ok(t),
            Err(e) => Err(e@),
        },
    }
}

/// The features of `acc` and the first `n` of `more`, in dictionary order
/// and once each.
pub open spec fn with_features(acc: Seq<Seq<char>>, more: Seq<Seq<char>>, n: int) -> Seq<Seq<char>>
    decreases n,
{
    if n <= 0 || n > more.len() {
        acc
    } else {
        insert_sorted(with_features(acc, more, n - 1), more[n - 1])
    }
}

/// What the items of a namespace, or of the top level, come to.
pub struct Gathered {
    /// The items, each followed by an empty line.
    pub items: Seq<char>,
    pub thunks: Seq<char>,
    pub thunk_impls: Seq<char>,
    pub assertions: Seq<char>,
    pub features: Seq<Seq<char>>,
}

/// What has been gathered with the pieces of one more item. At the top
/// level each piece of C++ code and each group of assertions is followed
/// by an empty line; inside a namespace they follow one another.
pub open spec fn gather(before: Gathered, g: GeneratedView, top_level: bool) -> Gathered {
    let sep = if top_level {
        "__NEWLINE__ __NEWLINE__ "@
    } else {
        ""@
    };
    Gathered {
        items: before.items + g.item + "__NEWLINE__ __NEWLINE__ "@,
        thunks: before.thunks + g.thunks,
        thunk_impls: if g.thunk_impls.len() == 0 {
            before.thunk_impls
        } else {
            before.thunk_impls + g.thunk_impls + sep
        },
        assertions: if g.assertions.len() == 0 {
            before.assertions
        } else {
            before.assertions + g.assertions + sep
        },
        features: with_features(before.features, g.features, g.features.len() as int),
    }
}

/// The bindings of an item where nothing stands in their way, looking at
/// most `fuel` namespaces inwards.
pub open spec fn item_impl(ir: IR, item: Item, p: Provided, fuel: nat) -> Result<
    GeneratedView,
    Messages,
>
    decreases fuel, 2int, 0int,
{
    if item_owning_target(item) is Some && (item_owning_target(item)->0).0@ != ir.target().0@ {
        Ok(GeneratedView::empty())
    } else {
        let made = match item {
            Item::Func(_) | Item::IncompleteRecord(_) | Item::Record(_) => provided_binding(
                p,
                item_id(item),
            ),
            Item::Enum(e) => match provided_tokens(p, e.id) {
                Err(x) => Err(x),
                Ok(t) => Ok(
                    enum_binding(e, t.tokens@, t.is_bool, p.generate_source_loc_doc_comment),
                ),
            },
            Item::TypeAlias(a) => type_alias_binding(
                a,
                match provided_tokens(p, a.id) {
                    Ok(t) => Ok(t.tokens@),
                    Err(x) => Err(x),
                },
                p.generate_source_loc_doc_comment,
            ),
            Item::UnsupportedItem(u) => Ok(
                GeneratedView::of_item(
                    comment_tokens(
                        crate::rs_api::unsupported_message(u, p.generate_source_loc_doc_comment),
                    ),
                ),
            ),
            Item::Comment(c) => Ok(GeneratedView::of_item(comment_tokens(c.text@))),
            Item::Namespace(ns) => namespace_binding(ir, ns, p, fuel),
            Item::UseMod(u) => Ok(GeneratedView::of_item(use_mod_tokens(u))),
            Item::TypeMapOverride(o) => Ok(type_map_override_binding(o)),
        };
        match made {
            Err(e) => Err(e),
            Ok(g) => match bindings_of(ir, item, p.types.entries@, ir.all_items().len()) {
                HasBindingsView::No(reason) => Err(reason_error(reason)),
                _ => Ok(g),
            },
        }
    }
}

/// What stands in Rust for an item. An item that cannot be bound leaves a
/// comment in its place, unless it is known to have bindings: then the
/// failure is one of the whole run.
pub open spec fn item_generated(ir: IR, item: Item, p: Provided, fuel: nat) -> Result<
    GeneratedView,
    Messages,
>
    decreases fuel, 3int, 0int,
{
    match item_impl(ir, item, p, fuel) {
        Ok(g) => Ok(g),
        Err(e) => if bindings_of(ir, item, p.types.entries@, ir.all_items().len())
            is Yes {
            Err(e)
        } else {
            Ok(
                GeneratedView::of_item(
                    comment_tokens(
                        unsupported_text(
                            item_source_loc(item),
                            item_debug_name(ir, item),
                            seq![full_message(e)],
                            p.generate_source_loc_doc_comment,
                        ),
                    ),
                ),
            )
        },
    }
}

/// What the first `n` of the items with the given ids come to.
pub open spec fn gathered(
    ir: IR,
    ids: Seq<ItemId>,
    context: Seq<char>,
    p: Provided,
    fuel: nat,
    top_level: bool,
    start: Gathered,
    n: int,
) -> Result<Gathered, Messages>
    decreases fuel, 0int, n,
{
    if n <= 0 || n > ids.len() {
        Ok(start)
    } else {
        match gathered(ir, ids, context, p, fuel, top_level, start, n - 1) {
            Err(e) => Err(e),
            Ok(before) => match ir.item_with(ids[n - 1]) {
                None => Err(
                    seq![
                        context,
                        "DeclId "@ + decimal(ids[n - 1].0 as nat) + " doesn't refer to a "@
                            + "Item"@,
                    ],
                ),
                Some(item) => if fuel == 0 {
                    Err(seq!["The items that enclose one another form a cycle"@])
                } else {
                    match item_generated(ir, item, p, (fuel - 1) as nat) {
                        Err(e) => Err(e),
                        Ok(g) => Ok(gather(before, g, top_level)),
                    }
                },
            },
        }
    }
}

/// Nothing gathered yet.
pub open spec fn nothing_gathered() -> Gathered {
    Gathered {
        items: Seq::empty(),
        thunks: Seq::empty(),
        thunk_impls: Seq::empty(),
        assertions: Seq::empty(),
        features: Seq::empty(),
    }
}

/// The name of the module of the `idx`-th block of a namespace. The last
/// block has the name of the namespace; each block before it has that
/// name and its number.
pub open spec fn module_name(name: Seq<char>, idx: int, is_last: bool) -> Seq<char> {
    if is_last {
        rs_ident(name)
    } else {
        rs_ident(name + "_"@ + decimal(idx as nat))
    }
}

/// The module of one block of a namespace. Each block but the first
/// imports what the block before it holds, so that the last block holds
/// all; an inline namespace is imported by what lies around it.
pub open spec fn namespace_tokens(ns: Namespace, idx: int, is_last: bool, items: Seq<char>) -> Seq<
    char,
> {
    let name = module_name(ns.name.identifier@, idx, is_last);
    "pub mod "@ + name + " { "@ + (if idx == 0 {
        ""@
    } else {
        "__HASH_TOKEN__ [ allow ( unused_imports ) ] pub use super :: "@ + rs_ident(
            ns.name.identifier@ + "_"@ + decimal((idx - 1) as nat),
        ) + " :: * ; __NEWLINE__ __NEWLINE__ "@
    }) + items + "} __NEWLINE__ "@ + (if ns.is_inline && is_last {
        "__HASH_TOKEN__ [ allow ( unused_imports ) ] pub use "@ + name + " :: * ; __NEWLINE__ "@
    } else {
        ""@
    })
}

/// What the description says of the place of a block among the blocks of
/// its namespace: its number and whether it is the last.
pub open spec fn block_place(ir: IR, ns: Namespace) -> Result<(int, bool), Messages> {
    match ir.item_with(ns.id) {
        Some(Item::Namespace(found)) if found.owning_target.0@ == ir.target().0@ => {
            let idx = reopened_count(
                ir.all_items(),
                ir.target(),
                found.canonical_namespace_id,
                ir.position_of(ns.id)->0,
            );
            let all = reopened_count(
                ir.all_items(),
                ir.target(),
                ns.canonical_namespace_id,
                ir.all_items().len() as int,
            );
            if all > 0 {
                Ok((idx as int, idx == all - 1))
            } else {
                Err(
                    seq![
                        "Could not find number of reopened namespaces for namespace "@ + decimal(
                            ns.canonical_namespace_id.0 as nat,
                        ) + "."@,
                    ],
                )
            }
        },
        _ => Err(
            seq![
                "Could not find the reopened namespace index for namespace "@ + decimal(
                    ns.id.0 as nat,
                ) + "."@,
            ],
        ),
    }
}

/// The binding of one block of a namespace: a module with the bindings of
/// the items in the block.
pub open spec fn namespace_binding(ir: IR, ns: Namespace, p: Provided, fuel: nat) -> Result<
    GeneratedView,
    Messages,
>
    decreases fuel, 1int, 0int,
{
    match gathered(
        ir,
        ns.child_item_ids@,
        "Failed to look up namespace.child_item_ids for "@ + ns.name.identifier@,
        p,
        fuel,
        false,
        nothing_gathered(),
        ns.child_item_ids@.len() as int,
    ) {
        Err(e) => Err(e),
        Ok(children) => match block_place(ir, ns) {
            Err(e) => Err(e),
            Ok(place) => Ok(
                GeneratedView {
                    item: namespace_tokens(ns, place.0, place.1, children.items),
                    thunks: children.thunks,
                    thunk_impls: children.thunk_impls,
                    assertions: children.assertions,
                    features: children.features,
                },
            ),
        },
    }
}

/// What has been gathered, as it is built.
#[derive(Debug)]
pub struct Gathering {
    pub items: String,
    pub thunks: String,
    pub thunk_impls: String,
    pub assertions: String,
    pub features: Vec<String>,
}

impl View for Gathering {
    type V = Gathered;

    open spec fn view(&self) -> Gathered {
        Gathered {
            items: self.items@,
            thunks: self.thunks@,
            thunk_impls: self.thunk_impls@,
            assertions: self.assertions@,
            features: views(self.features@),
        }
    }
}

impl Gathering {
    /// Nothing gathered yet.
    pub fn new() -> (r: Gathering)
        ensures
            r@ == nothing_gathered(),
    {
        let r = Gathering {
            items: String::new(),
            thunks: String::new(),
            thunk_impls: String::new(),
            assertions: String::new(),
            features: Vec::new(),
        };
        assert(r@.features =~= Seq::<Seq<char>>::empty());
        r
    }

    /// Adds the pieces of one item.
    pub fn add(&mut self, g: GeneratedItem, top_level: bool)
        ensures
            final(self)@ == gather(old(self)@, g@, top_level),
    {
        let sep = if top_level {
            "__NEWLINE__ __NEWLINE__ "
        } else {
            ""
        };
        self.items.append(g.item.as_str());
        self.items.append("__NEWLINE__ __NEWLINE__ ");
        self.thunks.append(g.thunks.as_str());
        if g.thunk_impls.as_str().unicode_len() != 0 {
            self.thunk_impls.append(g.thunk_impls.as_str());
            self.thunk_impls.append(sep);
        }
        if g.assertions.as_str().unicode_len() != 0 {
            self.assertions.append(g.assertions.as_str());
            self.assertions.append(sep);
        }
        let ghost start = views(self.features@);
        let ghost more = views(g.features@);
        let ghost items = self.items@;
        let ghost thunks = self.thunks@;
        let ghost thunk_impls = self.thunk_impls@;
        let ghost assertions = self.assertions@;
        let mut i: usize = 0;
        while i < g.features.len()
            invariant
                i <= g.features.len(),
                more == views(g.features@),
                views(self.features@) == with_features(start, more, i as int),
                self.items@ == items,
                self.thunks@ == thunks,
                self.thunk_impls@ == thunk_impls,
                self.assertions@ == assertions,
            decreases g.features.len() - i,
        {
            assert(more[i as int] == g.features@[i as int]@);
            insert_name_sorted(&mut self.features, g.features[i].clone());
            i += 1;
        }
    }
}

/// A generated result and the function's result agree.
pub open spec fn generated_is(
    r: Result<GeneratedItem, Error>,
    expected: Result<GeneratedView, Messages>,
) -> bool {
    match expected {
        Ok(v) => r matches Ok(g) && g@ == v,
        Err(e) => r matches Err(x) && x@ == e,
    }
}

/// The binding handed in for an item.
pub fn take_provided_binding(p: &Provided, id: ItemId) -> (r: Result<GeneratedItem, Error>)
    ensures
        generated_is(r, provided_binding(*p, id)),
{
    match p.binding(id) {
        None => Ok(GeneratedItem::empty()),
        Some(ProvidedBinding::Nothing) => Ok(GeneratedItem::empty()),
        Some(ProvidedBinding::Item(g)) => Ok(g.copy()),
        Some(ProvidedBinding::Overloaded) => Err(
            Error::new("Cannot generate bindings for overloaded function"),
        ),
        Some(ProvidedBinding::Failed(e)) => Err(e.copy()),
    }
}

/// Binds an item where nothing stands in the way.
pub fn generate_item_impl(ir: &IR, item: &Item, p: &Provided, fuel: usize) -> (r: Result<
    GeneratedItem,
    Error,
>)
    requires
        can_be_named(*ir, *item),
        crate::ir_queries::all_can_be_named(*ir),
    ensures
        generated_is(r, item_impl(*ir, *item, *p, fuel as nat)),
    decreases fuel, 2int, 0int,
{
    match item.owning_target() {
        Some(owning_target) => {
            if !ir.is_current_target(owning_target) {
                return Ok(GeneratedItem::empty());
            }
        },
        None => {},
    }
    let flag = p.generate_source_loc_doc_comment;
    let made: Result<GeneratedItem, Error> = match item {
        Item::Func(_) | Item::IncompleteRecord(_) | Item::Record(_) => take_provided_binding(
            p,
            item.id(),
        ),
        Item::Enum(e) => match p.tokens(e.id) {
            None => Err(Error::new("Nothing is known of the type")),
            Some(Err(x)) => Err(x.copy()),
            Some(Ok(t)) => Ok(generate_enum(e, t, flag)),
        },
        Item::TypeAlias(a) => match p.tokens(a.id) {
            None => generate_type_alias(a, Err(Error::new("Nothing is known of the type")), flag),
            Some(Err(x)) => generate_type_alias(a, Err(x.copy()), flag),
            Some(Ok(t)) => generate_type_alias(a, Ok(t), flag),
        },
        Item::UnsupportedItem(u) => Ok(generate_unsupported(u, flag)),
        Item::Comment(c) => Ok(generate_comment(c)),
        Item::Namespace(ns) => generate_namespace(ir, ns, p, fuel),
        Item::UseMod(u) => Ok(generate_use_mod(u)),
        Item::TypeMapOverride(o) => Ok(generate_type_map_override(o)),
    };
    let generated = match made {
        Ok(g) => g,
        Err(e) => {
            return Err(e);
        },
    };
    match has_bindings(ir, item, &p.types) {
        HasBindings::No(reason) => Err(reason.into_error()),
        _ => Ok(generated),
    }
}

/// Binds an item, or explains in a comment why it has no bindings. An
/// error is returned only where the item is known to have bindings and
/// making them failed: the bindings as a whole are then no good.
pub fn generate_item(ir: &IR, item: &Item, p: &Provided, fuel: usize) -> (r: Result<
    GeneratedItem,
    Error,
>)
    requires
        can_be_named(*ir, *item),
        crate::ir_queries::all_can_be_named(*ir),
    ensures
        generated_is(r, item_generated(*ir, *item, *p, fuel as nat)),
    decreases fuel, 3int, 0int,
{
    match generate_item_impl(ir, item, p, fuel) {
        Ok(generated) => Ok(generated),
        Err(err) => {
            match has_bindings(ir, item, &p.types) {
                HasBindings::Yes => Err(err),
                _ => {
                    let unsupported = UnsupportedItem::new_with_cause(ir, item, &err);
                    assert(unsupported.errors@.map_values(|e: FormattedError| e.message@) =~= seq![
                        full_message(err@),
                    ]);
                    Ok(generate_unsupported(&unsupported, p.generate_source_loc_doc_comment))
                },
            }
        },
    }
}

/// Binds the items with the given ids, one after another.
pub fn generate_items(
    ir: &IR,
    ids: &Vec<ItemId>,
    context: &str,
    p: &Provided,
    fuel: usize,
    top_level: bool,
    start: Gathering,
) -> (r: Result<Gathering, Error>)
    requires
        crate::ir_queries::all_can_be_named(*ir),
    ensures
        match gathered(
            *ir,
            ids@,
            context@,
            *p,
            fuel as nat,
            top_level,
            start@,
            ids@.len() as int,
        ) {
            Ok(v) => r matches Ok(g) && g@ == v,
            Err(e) => r matches Err(x) && x@ == e,
        },
    decreases fuel, 0int, ids@.len() + 1,
{
    generate_items_upto(ir, ids, ids.len(), context, p, fuel, top_level, start)
}

/// Binds the first `n` of the items with the given ids.
pub fn generate_items_upto(
    ir: &IR,
    ids: &Vec<ItemId>,
    n: usize,
    context: &str,
    p: &Provided,
    fuel: usize,
    top_level: bool,
    start: Gathering,
) -> (r: Result<Gathering, Error>)
    requires
        crate::ir_queries::all_can_be_named(*ir),
        n <= ids@.len(),
    ensures
        match gathered(*ir, ids@, context@, *p, fuel as nat, top_level, start@, n as int) {
            Ok(v) => r matches Ok(g) && g@ == v,
            Err(e) => r matches Err(x) && x@ == e,
        },
    decreases fuel, 0int, n,
{
    if n == 0 {
        return Ok(start);
    }
    let mut before = match generate_items_upto(ir, ids, n - 1, context, p, fuel, top_level, start) {
        Ok(b) => b,
        Err(e) => {
            return Err(e);
        },
    };
    let item = match ir.find_decl(ids[n - 1]) {
        Ok(i) => i,
        Err(e) => {
            let e2 = e.context(String::from_str(context));
            assert(e2@ =~= seq![
                context@,
                "DeclId "@ + decimal(ids@[n - 1].0 as nat) + " doesn't refer to a "@ + "Item"@,
            ]);
            return Err(e2);
        },
    };
    if fuel == 0 {
        return Err(Error::new("The items that enclose one another form a cycle"));
    }
    proof {
        use_type_invariant(ir);
        ir.lemma_positions();
        let i = ir.position_of(ids@[n - 1])->0;
        assert(ir.all_items()[i] == *item);
    }
    match generate_item(ir, item, p, fuel - 1) {
        Err(e) => Err(e),
        Ok(g) => {
            before.add(g, top_level);
            Ok(before)
        },
    }
}

/// The name of a namespace with the number of one of its blocks.
fn numbered_name(name: &str, idx: usize) -> (r: String)
    ensures
        r@ == name@ + "_"@ + decimal(idx as nat),
{
    let mut s = String::from_str(name);
    s.append("_");
    push_decimal(&mut s, idx as u64);
    s
}

/// Binds one block of a namespace.
pub fn generate_namespace(ir: &IR, namespace: &Namespace, p: &Provided, fuel: usize) -> (r: Result<
    GeneratedItem,
    Error,
>)
    requires
        crate::ir_queries::all_can_be_named(*ir),
    ensures
        generated_is(r, namespace_binding(*ir, *namespace, *p, fuel as nat)),
    decreases fuel, 1int, 0int,
{
    let mut context = String::from_str("Failed to look up namespace.child_item_ids for ");
    context.append(namespace.name.identifier.as_str());
    let children = match generate_items(
        ir,
        &namespace.child_item_ids,
        context.as_str(),
        p,
        fuel,
        false,
        Gathering::new(),
    ) {
        Ok(c) => c,
        Err(e) => {
            return Err(e);
        },
    };
    let reopened_namespace_idx = match ir.get_reopened_namespace_idx(namespace.id) {
        Ok(i) => i,
        Err(e) => {
            proof {
                use_type_invariant(ir);
            }
            return Err(e);
        },
    };
    let is_canonical_namespace_module = match ir.is_last_reopened_namespace(
        namespace.id,
        namespace.canonical_namespace_id,
    ) {
        Ok(b) => b,
        Err(e) => {
            return Err(e);
        },
    };
    let name = if is_canonical_namespace_module {
        make_rs_ident(namespace.name.identifier.as_str())
    } else {
        make_rs_ident(
            numbered_name(namespace.name.identifier.as_str(), reopened_namespace_idx).as_str(),
        )
    };
    let mut item = String::from_str("pub mod ");
    item.append(name.as_str());
    item.append(" { ");
    if reopened_namespace_idx == 0 {
        item.append("");
    } else {
        let mut u = String::from_str(
            "__HASH_TOKEN__ [ allow ( unused_imports ) ] pub use super :: ",
        );
        u.append(
            make_rs_ident(
                numbered_name(
                    namespace.name.identifier.as_str(),
                    reopened_namespace_idx - 1,
                ).as_str(),
            ).as_str(),
        );
        u.append(" :: * ; __NEWLINE__ __NEWLINE__ ");
        item.append(u.as_str());
    }
    item.append(children.items.as_str());
    item.append("} __NEWLINE__ ");
    if namespace.is_inline && is_canonical_namespace_module {
        let mut u = String::from_str("__HASH_TOKEN__ [ allow ( unused_imports ) ] pub use ");
        u.append(name.as_str());
        u.append(" :: * ; __NEWLINE__ ");
        item.append(u.as_str());
    } else {
        item.append("");
    }
    let Gathering { items: _, thunks, thunk_impls, assertions, features } = children;
    Ok(GeneratedItem { item, thunks, thunk_impls, assertions, features })
}

/// The two documents of the bindings, as tokens.
#[derive(Debug)]
pub struct BindingsTokens {
    /// The Rust source.
    pub rs_api: String,
    /// The C++ source.
    pub rs_api_impl: String,
}

/// The Rust document, given what the items came to.
pub open spec fn rs_api_tokens(all: Gathered) -> Seq<char> {
    "# ! [ feature ( "@ + join(all.features, ", "@)
        + " ) ] __NEWLINE__ # ! [ allow ( stable_features ) ] "@ + "__NEWLINE__ # ! [ no_std ] __NEWLINE__ "@
        + (if all.features.contains("register_tool"@) {
        "# ! [ register_tool ( __crubit ) ] __NEWLINE__ "@
    } else {
        ""@
    })
        + "# ! [ allow ( improper_ctypes ) ] __NEWLINE__ # ! [ allow ( nonstandard_style ) ] __NEWLINE__ # ! [ deny ( warnings ) ] __NEWLINE__ __NEWLINE__ "@
        + all.items + (if all.thunks.len() == 0 {
        ""@
    } else {
        "mod detail { # [ allow ( unused_imports ) ] use super :: * ; extern \"C\" { "@
            + all.thunks + "} } "@
    }) + "__NEWLINE__ __NEWLINE__ "@ + (if all.assertions.len() == 0 {
        ""@
    } else {
        "const _ : ( ) = { __NEWLINE__ "@ + all.assertions + "} ; __NEWLINE__ "@
    })
}

/// What the C++ document starts with: the headers, then the switch that
/// silences warnings about locks taken and not given back, which thunks
/// of locking functions would raise.
pub open spec fn rs_api_impl_start(includes: Seq<char>) -> Seq<char> {
    includes + "__NEWLINE__ __NEWLINE__ "@
        + "__HASH_TOKEN__ pragma clang diagnostic push __NEWLINE__ __HASH_TOKEN__ pragma clang diagnostic ignored \"-Wthread-safety-analysis\" __NEWLINE__ "@
        + "__NEWLINE__ __NEWLINE__ "@
}

/// What the C++ document ends with.
pub open spec fn rs_api_impl_end() -> Seq<char> {
    "__NEWLINE__ __HASH_TOKEN__ pragma clang diagnostic pop __NEWLINE__ __NEWLINE__ "@
        + "__NEWLINE__ __NEWLINE__ "@
}

/// The two documents of the bindings of an interface, or the failure of
/// an item that is known to have bindings.
pub open spec fn bindings_tokens(ir: IR, support_path_format: Seq<char>, p: Provided) -> Result<
    (Seq<char>, Seq<char>),
    Messages,
> {
    let start = Gathered {
        thunk_impls: rs_api_impl_start(
            rs_api_impl_includes(
                support_path_format,
                records_in(ir.all_items(), ir.all_items().len() as int).len() > 0,
                ir.public_headers()@,
            ),
        ),
        features: seq!["custom_inner_attributes"@],
        ..nothing_gathered()
    };
    match gathered(
        ir,
        ir.top_level_item_ids()@,
        "Failed to look up ir.top_level_item_ids"@,
        p,
        ir.all_items().len(),
        true,
        start,
        ir.top_level_item_ids()@.len() as int,
    ) {
        Err(e) => Err(e),
        Ok(all) => Ok((rs_api_tokens(all), all.thunk_impls + rs_api_impl_end())),
    }
}

/// Whether a list of names holds a name.
pub fn names_contain(names: &Vec<String>, name: &str) -> (r: bool)
    ensures
        r == views(names@).contains(name@),
{
    let ghost v = views(names@);
    let mut i: usize = 0;
    while i < names.len()
        invariant
            i <= names.len(),
            v == views(names@),
            forall|j: int| 0 <= j < i ==> v[j] != name@,
        decreases names.len() - i,
    {
        assert(v[i as int] == names@[i as int]@);
        if str_eq(names[i].as_str(), name) {
            return true;
        }
        i += 1;
    }
    false
}

/// Makes the Rust code of the bindings, and the C++ code that stands
/// behind it.
pub fn generate_bindings_tokens(ir: &IR, crubit_support_path_format: &str, p: &Provided) -> (r: Result<
    BindingsTokens,
    Error,
>)
    requires
        crate::ir_queries::all_can_be_named(*ir),
    ensures
        match bindings_tokens(*ir, crubit_support_path_format@, *p) {
            Ok(v) => r matches Ok(b) && b.rs_api@ == v.0 && b.rs_api_impl@ == v.1,
            Err(e) => r matches Err(x) && x@ == e,
        },
{
    let mut thunk_impls = generate_rs_api_impl_includes(ir, crubit_support_path_format);
    thunk_impls.append("__NEWLINE__ __NEWLINE__ ");
    thunk_impls.append(
        "__HASH_TOKEN__ pragma clang diagnostic push __NEWLINE__ __HASH_TOKEN__ pragma clang diagnostic ignored \"-Wthread-safety-analysis\" __NEWLINE__ ",
    );
    thunk_impls.append("__NEWLINE__ __NEWLINE__ ");
    let mut features: Vec<String> = Vec::new();
    features.push(String::from_str("custom_inner_attributes"));
    assert(views(features@) =~= seq!["custom_inner_attributes"@]);
    let start = Gathering {
        items: String::new(),
        thunks: String::new(),
        thunk_impls,
        assertions: String::new(),
        features,
    };
    let fuel: usize = ir.items().len();
    let all = match generate_items(
        ir,
        ir.top_level_item_ids(),
        "Failed to look up ir.top_level_item_ids",
        p,
        fuel,
        true,
        start,
    ) {
        Ok(a) => a,
        Err(e) => {
            return Err(e);
        },
    };
    let mut rs_api = String::from_str("# ! [ feature ( ");
    rs_api.append(join_strings(&all.features, ", ").as_str());
    rs_api.append(" ) ] __NEWLINE__ # ! [ allow ( stable_features ) ] ");
    rs_api.append("__NEWLINE__ # ! [ no_std ] __NEWLINE__ ");
    if names_contain(&all.features, "register_tool") {
        rs_api.append("# ! [ register_tool ( __crubit ) ] __NEWLINE__ ");
    } else {
        rs_api.append("");
    }
    rs_api.append(
        "# ! [ allow ( improper_ctypes ) ] __NEWLINE__ # ! [ allow ( nonstandard_style ) ] __NEWLINE__ # ! [ deny ( warnings ) ] __NEWLINE__ __NEWLINE__ ",
    );
    rs_api.append(all.items.as_str());
    if all.thunks.as_str().unicode_len() == 0 {
        rs_api.append("");
    } else {
        let mut d = String::from_str(
            "mod detail { # [ allow ( unused_imports ) ] use super :: * ; extern \"C\" { ",
        );
        d.append(all.thunks.as_str());
        d.append("} } ");
        rs_api.append(d.as_str());
    }
    rs_api.append("__NEWLINE__ __NEWLINE__ ");
    if all.assertions.as_str().unicode_len() == 0 {
        rs_api.append("");
    } else {
        let mut a = String::from_str("const _ : ( ) = { __NEWLINE__ ");
        a.append(all.assertions.as_str());
        a.append("} ; __NEWLINE__ ");
        rs_api.append(a.as_str());
    }
    let mut rs_api_impl = all.thunk_impls;
    let mut end = String::from_str(
        "__NEWLINE__ __HASH_TOKEN__ pragma clang diagnostic pop __NEWLINE__ __NEWLINE__ ",
    );
    end.append("__NEWLINE__ __NEWLINE__ ");
    rs_api_impl.append(end.as_str());
    Ok(BindingsTokens { rs_api, rs_api_impl })
}

/// The names of the features of a set in dictionary order.
pub open spec fn feature_names(f: CrubitFeatures) -> Seq<Seq<char>> {
    (if f.experimental {
        seq![feature_short_name(CrubitFeature::Experimental)]
    } else {
        Seq::empty()
    }) + (if f.non_extern_c_functions {
        seq![feature_short_name(CrubitFeature::NonExternCFunctions)]
    } else {
        Seq::empty()
    }) + (if f.supported {
        seq![feature_short_name(CrubitFeature::Supported)]
    } else {
        Seq::empty()
    })
}

/// The comment at the top of both documents: that they were made by a
/// program, for which target, and with which features.
pub open spec fn top_level_comment(target: Seq<char>, f: CrubitFeatures) -> Seq<char> {
    "// Automatically @generated Rust bindings for the following C++ target:\n// "@ + target
        + "\n// Features: "@ + (if f.none() {
        "<none>"@
    } else {
        join(feature_names(f), ", "@)
    }) + "\n"@
}

/// The two documents of the bindings, as text.
#[derive(Debug)]
pub struct Bindings {
    /// The Rust source.
    pub rs_api: String,
    /// The C++ source.
    pub rs_api_impl: String,
}

/// Puts the comment at the top of the two documents, once their code has
/// been laid out as text.
pub fn assemble_bindings(ir: &IR, rs_api: &str, rs_api_impl: &str) -> (r: Bindings)
    ensures
        r.rs_api@ == top_level_comment(
            ir.target().0@,
            features_of(ir.features(), ir.target().0@, 0),
        ) + "\n#![rustfmt::skip]\n"@ + rs_api@,
        r.rs_api_impl@ == top_level_comment(
            ir.target().0@,
            features_of(ir.features(), ir.target().0@, 0),
        ) + "\n"@ + rs_api_impl@,
{
    let f = ir.target_crubit_features(ir.current_target());
    let mut names: Vec<String> = Vec::new();
    assert(views(names@) =~= Seq::<Seq<char>>::empty());
    if f.experimental {
        names.push(String::from_str(CrubitFeature::Experimental.short_name()));
    }
    let ghost first = views(names@);
    assert(first =~= if f.experimental {
        seq![feature_short_name(CrubitFeature::Experimental)]
    } else {
        Seq::empty()
    });
    if f.non_extern_c_functions {
        names.push(String::from_str(CrubitFeature::NonExternCFunctions.short_name()));
    }
    let ghost second = views(names@);
    assert(second =~= first + (if f.non_extern_c_functions {
        seq![feature_short_name(CrubitFeature::NonExternCFunctions)]
    } else {
        Seq::empty()
    }));
    if f.supported {
        names.push(String::from_str(CrubitFeature::Supported.short_name()));
    }
    assert(views(names@) =~= second + (if f.supported {
        seq![feature_short_name(CrubitFeature::Supported)]
    } else {
        Seq::empty()
    }));
    let mut top = String::from_str(
        "// Automatically @generated Rust bindings for the following C++ target:\n// ",
    );
    top.append(ir.current_target().0.as_str());
    top.append("\n// Features: ");
    if f.is_empty() {
        top.append("<none>");
    } else {
        top.append(join_strings(&names, ", ").as_str());
    }
    top.append("\n");
    let mut a = top.clone();
    a.append("\n#![rustfmt::skip]\n");
    a.append(rs_api);
    let mut b = top;
    b.append("\n");
    b.append(rs_api_impl);
    Bindings { rs_api: a, rs_api_impl: b }
}

} // verus!
