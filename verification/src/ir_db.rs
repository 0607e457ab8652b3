//! An interface description with its lookups: items by id, lifetimes by
//! id, and which of the blocks of a namespace a block is.

use std::collections::HashMap;
use vstd::prelude::*;
use vstd::string::*;
use crate::error::Error;
use crate::ir::{
    item_id, BazelLabel, CrubitFeatures, Func, HeaderName, Item, ItemId, LifetimeId, LifetimeName,
    Namespace, Record, TypeWithDeclId,
};
use crate::text::{decimal, push_decimal};

verus! {

/// The features that a target has switched on.
#[derive(Debug, Clone)]
pub struct TargetFeatures {
    pub target: BazelLabel,
    pub features: CrubitFeatures,
}

/// Why a description is refused.
#[derive(Debug, PartialEq, Eq, Clone, Copy, Structural)]
pub enum IrProblem {
    /// Two items have the same id.
    DuplicateItemId,
    /// Two lifetime parameters have the same id.
    DuplicateLifetimeId,
}

/// The lifetime parameters of an item: those of a record or a function.
pub open spec fn lifetime_params_of(item: Item) -> Seq<LifetimeName> {
    match item {
        Item::Record(r) => r.lifetime_params@,
        Item::Func(f) => f.lifetime_params@,
        _ => Seq::empty(),
    }
}

/// No two items have the same id.
pub open spec fn item_ids_distinct(items: Seq<Item>) -> bool {
    forall|i: int, j: int|
        0 <= i < items.len() && 0 <= j < items.len() && i != j ==> item_id(#[trigger] items[i])
            != item_id(#[trigger] items[j])
}

/// Whether the item at `i` has a lifetime parameter at `p`.
pub open spec fn lifetime_at(items: Seq<Item>, i: int, p: int) -> bool {
    0 <= i < items.len() && 0 <= p < lifetime_params_of(items[i]).len()
}

/// No two lifetime parameters have the same id.
pub open spec fn lifetime_ids_distinct(items: Seq<Item>) -> bool {
    forall|i: int, p: int, j: int, q: int|
        #![trigger lifetime_params_of(items[i])[p], lifetime_params_of(items[j])[q]]
        lifetime_at(items, i, p) && lifetime_at(items, j, q) && (i != j || p != q)
            ==> lifetime_params_of(items[i])[p].id != lifetime_params_of(items[j])[q].id
}

/// Whether an item opens a namespace of the given target.
pub open spec fn opens_namespace(item: Item, target: BazelLabel, canonical: ItemId) -> bool {
    item matches Item::Namespace(ns) && ns.owning_target.0@ == target.0@
        && ns.canonical_namespace_id == canonical
}

/// How many of the first `n` items open the namespace `canonical` in the
/// given target.
pub open spec fn reopened_count(items: Seq<Item>, target: BazelLabel, canonical: ItemId, n: int) -> nat
    decreases n,
{
    if n <= 0 || n > items.len() {
        0
    } else if opens_namespace(items[n - 1], target, canonical) {
        reopened_count(items, target, canonical, n - 1) + 1
    } else {
        reopened_count(items, target, canonical, n - 1)
    }
}

/// A count of blocks does not exceed the number of items looked at.
pub proof fn lemma_reopened_count_bound(items: Seq<Item>, target: BazelLabel, canonical: ItemId, n: int)
    requires
        0 <= n <= items.len(),
    ensures
        reopened_count(items, target, canonical, n) <= n,
    decreases n,
{
    if n > 0 {
        lemma_reopened_count_bound(items, target, canonical, n - 1);
    }
}

/// The description of the API of a C++ target, from which its Rust
/// bindings are made.
pub struct IR {
    public_headers: Vec<HeaderName>,
    current_target: BazelLabel,
    items: Vec<Item>,
    top_level_item_ids: Vec<ItemId>,
    crate_root_path: Option<String>,
    crubit_features: Vec<TargetFeatures>,
    /// For the id of each item, its position.
    item_id_to_item_idx: HashMap<usize, usize>,
    /// For the id of each lifetime parameter, the position of its item and
    /// its own position among the item's parameters.
    lifetimes: HashMap<i32, (usize, usize)>,
    /// For the canonical id of each namespace of the current target, the
    /// number of its blocks.
    namespace_id_to_number_of_reopened_namespaces: HashMap<usize, usize>,
    /// For the id of each block of a namespace of the current target, the
    /// number of blocks of the same namespace before it.
    reopened_namespace_id_to_idx: HashMap<usize, usize>,
}

impl IR {
    /// The maps agree with the items.
    #[verifier::type_invariant]
    pub closed spec fn wf(self) -> bool {
        let items = self.items@;
        &&& forall|i: int|
            0 <= i < items.len() ==> self.item_id_to_item_idx@.contains_key(
                item_id(#[trigger] items[i]).0,
            ) && self.item_id_to_item_idx@[item_id(items[i]).0] == i
        &&& forall|k: usize| #[trigger]
            self.item_id_to_item_idx@.contains_key(k) ==> self.item_id_to_item_idx@[k]
                < items.len() && item_id(items[self.item_id_to_item_idx@[k] as int]).0 == k
        &&& forall|i: int, p: int|
            lifetime_at(items, i, p) ==> self.lifetimes@.contains_key(
                (#[trigger] lifetime_params_of(items[i])[p]).id.0,
            ) && self.lifetimes@[lifetime_params_of(items[i])[p].id.0].0 as int == i
                && self.lifetimes@[lifetime_params_of(items[i])[p].id.0].1 as int == p
        &&& forall|k: i32| #[trigger]
            self.lifetimes@.contains_key(k) ==> lifetime_at(
                items,
                self.lifetimes@[k].0 as int,
                self.lifetimes@[k].1 as int,
            ) && lifetime_params_of(items[self.lifetimes@[k].0 as int])[self.lifetimes@[k].1 as int].id.0
                == k
        &&& forall|c: usize| #[trigger]
            self.namespace_id_to_number_of_reopened_namespaces@.contains_key(c)
                ==> self.namespace_id_to_number_of_reopened_namespaces@[c] == reopened_count(
                items,
                self.current_target,
                ItemId(c),
                items.len() as int,
            )
        &&& forall|c: usize|
            reopened_count(items, self.current_target, ItemId(c), items.len() as int) > 0
                ==> #[trigger] self.namespace_id_to_number_of_reopened_namespaces@.contains_key(c)
        &&& forall|i: int|
            0 <= i < items.len() && (#[trigger] items[i] matches Item::Namespace(ns)
                && ns.owning_target.0@ == self.current_target.0@)
                ==> self.reopened_namespace_id_to_idx@.contains_key(item_id(items[i]).0)
                && self.reopened_namespace_id_to_idx@[item_id(items[i]).0] == reopened_count(
                items,
                self.current_target,
                items[i]->Namespace_0.canonical_namespace_id,
                i,
            )
        &&& forall|k: usize| #[trigger]
            self.reopened_namespace_id_to_idx@.contains_key(k)
                ==> self.item_id_to_item_idx@.contains_key(k) && (items[self.item_id_to_item_idx@[k] as int] matches Item::Namespace(
                ns,
            ) && ns.owning_target.0@ == self.current_target.0@)
    }

    /// The items, in the order in which they were given.
    pub closed spec fn all_items(&self) -> Seq<Item> {
        self.items@
    }

    /// The target that the description is of.
    pub closed spec fn target(&self) -> BazelLabel {
        self.current_target
    }

    /// The features that the targets have switched on.
    pub closed spec fn features(&self) -> Seq<TargetFeatures> {
        self.crubit_features@
    }

    /// The position of the item with the given id.
    pub closed spec fn position_of(&self, id: ItemId) -> Option<int> {
        if self.item_id_to_item_idx@.contains_key(id.0) {
            Some(self.item_id_to_item_idx@[id.0] as int)
        } else {
            None
        }
    }

    /// The item with the given id.
    pub open spec fn item_with(&self, id: ItemId) -> Option<Item> {
        match self.position_of(id) {
            Some(i) => Some(self.all_items()[i]),
            None => None,
        }
    }

    /// The ids of the items are distinct, and `position_of` finds each item
    /// by its id and nothing else.
    pub proof fn lemma_positions(self)
        requires
            self.wf(),
        ensures
            item_ids_distinct(self.all_items()),
            lifetime_ids_distinct(self.all_items()),
            forall|i: int|
                0 <= i < self.all_items().len() ==> self.position_of(
                    item_id(#[trigger] self.all_items()[i]),
                ) == Some(i),
            forall|id: ItemId|
                self.position_of(id) is Some ==> 0 <= self.position_of(id)->0
                    < self.all_items().len() && item_id(
                    self.all_items()[self.position_of(id)->0],
                ) == id,
    {
        let items = self.items@;
        assert forall|i: int, j: int|
            0 <= i < items.len() && 0 <= j < items.len() && i != j implies item_id(
            #[trigger] items[i],
        ) != item_id(#[trigger] items[j]) by {
            assert(self.item_id_to_item_idx@[item_id(items[i]).0] == i);
            assert(self.item_id_to_item_idx@[item_id(items[j]).0] == j);
        }
        assert forall|i: int, p: int, j: int, q: int|
            #![trigger lifetime_params_of(items[i])[p], lifetime_params_of(items[j])[q]]
            lifetime_at(items, i, p) && lifetime_at(items, j, q) && (i != j || p != q) implies lifetime_params_of(
            items[i],
        )[p].id != lifetime_params_of(items[j])[q].id by {
            assert(self.lifetimes@[lifetime_params_of(items[i])[p].id.0].0 as int == i);
            assert(self.lifetimes@[lifetime_params_of(items[i])[p].id.0].1 as int == p);
            assert(self.lifetimes@[lifetime_params_of(items[j])[q].id.0].0 as int == j);
            assert(self.lifetimes@[lifetime_params_of(items[j])[q].id.0].1 as int == q);
        }
        assert forall|id: ItemId| self.position_of(id) is Some implies 0 <= self.position_of(
            id,
        )->0 < self.all_items().len() && item_id(self.all_items()[self.position_of(id)->0])
            == id by {
            if self.item_id_to_item_idx@.contains_key(id.0) {
                let i = self.item_id_to_item_idx@[id.0];
                assert(item_id(items[i as int]).0 == id.0);
            }
        }
    }

    pub fn items(&self) -> (r: &Vec<Item>)
        ensures
            r@ == self.all_items(),
    {
        &self.items
    }

    #[verifier::when_used_as_spec(spec_top_level_item_ids)]
    pub fn top_level_item_ids(&self) -> (r: &Vec<ItemId>)
        ensures
            r == self.spec_top_level_item_ids(),
    {
        &self.top_level_item_ids
    }

    /// The ids of the items at the top level, in their order.
    pub closed spec fn spec_top_level_item_ids(&self) -> &Vec<ItemId> {
        &self.top_level_item_ids
    }

    #[verifier::when_used_as_spec(spec_public_headers)]
    pub fn public_headers(&self) -> (r: &Vec<HeaderName>)
        ensures
            r == self.spec_public_headers(),
    {
        &self.public_headers
    }

    /// The public headers of the library, in the order in which it lists
    /// them.
    pub closed spec fn spec_public_headers(&self) -> &Vec<HeaderName> {
        &self.public_headers
    }

    pub fn current_target(&self) -> (r: &BazelLabel)
        ensures
            *r == self.target(),
    {
        &self.current_target
    }

    /// The module under the crate's root that holds the bindings, where
    /// they do not lie at the root itself.
    pub closed spec fn root_path(&self) -> Option<String> {
        self.crate_root_path
    }

    pub fn crate_root_path(&self) -> (r: Option<String>)
        ensures
            r is Some == self.root_path() is Some,
            r matches Some(p) ==> p@ == self.root_path()->0@,
    {
        crate::ir::copy_opt_string(&self.crate_root_path)
    }

    /// Whether `target` is the target that the description is of.
    pub fn is_current_target(&self, target: &BazelLabel) -> (r: bool)
        ensures
            r == (target.0@ == self.target().0@),
    {
        target.same_as(&self.current_target)
    }

    /// The item with the given id, if there is one.
    pub fn lookup(&self, decl_id: ItemId) -> (r: Option<&Item>)
        ensures
            r is Some == self.item_with(decl_id) is Some,
            r matches Some(item) ==> *item == self.item_with(decl_id)->0 && item_id(*item)
                == decl_id,
    {
        proof {
            use_type_invariant(self);
        }
        match self.item_id_to_item_idx.get(&decl_id.0) {
            Some(idx) => {
                assert(self.item_id_to_item_idx@.contains_key(decl_id.0));
                Some(&self.items[*idx])
            },
            None => None,
        }
    }

    /// The item with the given id, which the description must hold.
    pub fn find_untyped_decl(&self, decl_id: ItemId) -> (r: &Item)
        requires
            self.item_with(decl_id) is Some,
        ensures
            *r == self.item_with(decl_id)->0,
            item_id(*r) == decl_id,
    {
        match self.lookup(decl_id) {
            Some(item) => item,
            None => {
                proof {
                    use_type_invariant(self);
                }
                &self.items[0]
            },
        }
    }

    /// The item that a type stands for.
    pub fn item_for_type<T: TypeWithDeclId>(&self, ty: &T) -> (r: Result<&Item, Error>)
        requires
            ty.declared_by() matches Some(id) ==> self.item_with(id) is Some,
        ensures
            match ty.declared_by() {
                Some(id) => r matches Ok(item) && *item == self.item_with(id)->0,
                None => r matches Err(e) && e@ == seq!["Type does not have an associated item."@],
            },
    {
        match ty.decl_id() {
            Some(decl_id) => Ok(self.find_untyped_decl(decl_id)),
            None => Err(Error::new("Type does not have an associated item.")),
        }
    }

    /// The function item with the given id.
    pub fn find_func(&self, decl_id: ItemId) -> (r: Result<&Func, Error>)
        ensures
            match self.item_with(decl_id) {
                Some(Item::Func(f)) => r matches Ok(x) && *x == f,
                _ => r matches Err(e) && e@ == seq![
                    "DeclId "@ + decimal(decl_id.0 as nat) + " doesn't refer to a "@ + "Func"@,
                ],
            },
    {
        match self.lookup(decl_id) {
            Some(Item::Func(f)) => Ok(f),
            _ => Err(not_a(decl_id, "Func")),
        }
    }

    /// The record item with the given id.
    pub fn find_record(&self, decl_id: ItemId) -> (r: Result<&Record, Error>)
        ensures
            match self.item_with(decl_id) {
                Some(Item::Record(x)) => r matches Ok(y) && *y == x,
                _ => r matches Err(e) && e@ == seq![
                    "DeclId "@ + decimal(decl_id.0 as nat) + " doesn't refer to a "@ + "Record"@,
                ],
            },
    {
        match self.lookup(decl_id) {
            Some(Item::Record(x)) => Ok(x),
            _ => Err(not_a(decl_id, "Record")),
        }
    }

    /// The item with the given id, or an error where there is none.
    pub fn find_decl(&self, decl_id: ItemId) -> (r: Result<&Item, Error>)
        ensures
            match self.item_with(decl_id) {
                Some(item) => r matches Ok(x) && *x == item,
                None => r matches Err(e) && e@ == seq![
                    "DeclId "@ + decimal(decl_id.0 as nat) + " doesn't refer to a "@ + "Item"@,
                ],
            },
    {
        match self.lookup(decl_id) {
            Some(x) => Ok(x),
            None => Err(not_a(decl_id, "Item")),
        }
    }

    /// The features that `target` has switched on; none for a target that
    /// the description says nothing of.
    pub fn target_crubit_features(&self, target: &BazelLabel) -> (r: CrubitFeatures)
        ensures
            r == features_of(self.features(), target.0@, 0),
    {
        let mut i: usize = 0;
        while i < self.crubit_features.len()
            invariant
                i <= self.crubit_features.len(),
                features_of(self.features(), target.0@, 0) == features_of(
                    self.features(),
                    target.0@,
                    i as int,
                ),
            decreases self.crubit_features.len() - i,
        {
            if self.crubit_features[i].target.same_as(target) {
                return self.crubit_features[i].features;
            }
            i += 1;
        }
        CrubitFeatures::empty()
    }

    /// The lifetime parameter with the given id.
    pub fn get_lifetime(&self, lifetime_id: LifetimeId) -> (r: Option<&LifetimeName>)
        ensures
            match r {
                Some(l) => l.id == lifetime_id && exists|i: int, p: int|
                    lifetime_at(self.all_items(), i, p) && #[trigger] lifetime_params_of(
                        self.all_items()[i],
                    )[p] == *l,
                None => forall|i: int, p: int|
                    lifetime_at(self.all_items(), i, p) ==> (#[trigger] lifetime_params_of(
                        self.all_items()[i],
                    )[p]).id != lifetime_id,
            },
    {
        proof {
            use_type_invariant(self);
        }
        match self.lifetimes.get(&lifetime_id.0) {
            Some(pos) => {
                let (i, p) = *pos;
                assert(self.lifetimes@.contains_key(lifetime_id.0));
                assert(lifetime_at(self.items@, i as int, p as int));
                let l = match &self.items[i] {
                    Item::Record(r) => &r.lifetime_params[p],
                    Item::Func(f) => &f.lifetime_params[p],
                    _ => {
                        assert(false);
                        return None;
                    },
                };
                assert(lifetime_params_of(self.items@[i as int])[p as int] == *l);
                assert(l.id.0 == lifetime_id.0);
                assert(l.id == lifetime_id);
                assert(lifetime_at(self.all_items(), i as int, p as int) && lifetime_params_of(
                    self.all_items()[i as int],
                )[p as int] == *l);
                Some(l)
            },
            None => {
                assert forall|i: int, p: int| lifetime_at(self.all_items(), i, p) implies (
                #[trigger] lifetime_params_of(self.all_items()[i])[p]).id != lifetime_id by {
                    assert(self.lifetimes@.contains_key(
                        lifetime_params_of(self.items@[i])[p].id.0,
                    ));
                }
                None
            },
        }
    }

    /// The number of blocks of the same namespace that stand before the
    /// block with the given id. An id that names no block of a namespace of
    /// the current target is an error.
    pub fn get_reopened_namespace_idx(&self, id: ItemId) -> (r: Result<usize, Error>)
        ensures
            match self.item_with(id) {
                Some(Item::Namespace(ns)) if ns.owning_target.0@ == self.target().0@ => r is Ok
                    && r->Ok_0 as nat == reopened_count(
                    self.all_items(),
                    self.target(),
                    ns.canonical_namespace_id,
                    self.position_of(id)->0,
                ),
                _ => r matches Err(e) && e@ == seq![
                    "Could not find the reopened namespace index for namespace "@ + decimal(
                        id.0 as nat,
                    ) + "."@,
                ],
            },
    {
        proof {
            use_type_invariant(self);
        }
        match self.reopened_namespace_id_to_idx.get(&id.0) {
            Some(idx) => {
                assert(self.reopened_namespace_id_to_idx@.contains_key(id.0));
                Ok(*idx)
            },
            None => {
                let mut m = String::from_str(
                    "Could not find the reopened namespace index for namespace ",
                );
                push_decimal(&mut m, id.0 as u64);
                m.append(".");
                Err(Error::msg(m))
            },
        }
    }

    /// Whether the block with the given id is the last block of the
    /// namespace `canonical_id`.
    pub fn is_last_reopened_namespace(&self, id: ItemId, canonical_id: ItemId) -> (r: Result<
        bool,
        Error,
    >)
        ensures
            match self.item_with(id) {
                Some(Item::Namespace(ns)) if ns.owning_target.0@ == self.target().0@ => {
                    let all = reopened_count(
                        self.all_items(),
                        self.target(),
                        canonical_id,
                        self.all_items().len() as int,
                    );
                    if all > 0 {
                        r == Ok::<bool, Error>(
                            reopened_count(
                                self.all_items(),
                                self.target(),
                                ns.canonical_namespace_id,
                                self.position_of(id)->0,
                            ) == all - 1,
                        )
                    } else {
                        r matches Err(e) && e@ == seq![
                            "Could not find number of reopened namespaces for namespace "@
                                + decimal(canonical_id.0 as nat) + "."@,
                        ]
                    }
                },
                _ => r matches Err(e) && e@ == seq![
                    "Could not find the reopened namespace index for namespace "@ + decimal(
                        id.0 as nat,
                    ) + "."@,
                ],
            },
    {
        proof {
            use_type_invariant(self);
        }
        let idx = match self.get_reopened_namespace_idx(id) {
            Ok(i) => i,
            Err(e) => {
                return Err(e);
            },
        };
        match self.namespace_id_to_number_of_reopened_namespaces.get(&canonical_id.0) {
            Some(count) => {
                assert(self.namespace_id_to_number_of_reopened_namespaces@.contains_key(
                    canonical_id.0,
                ));
                if *count == 0 {
                    let mut m = String::from_str(
                        "Could not find number of reopened namespaces for namespace ",
                    );
                    push_decimal(&mut m, canonical_id.0 as u64);
                    m.append(".");
                    return Err(Error::msg(m));
                }
                Ok(idx == *count - 1)
            },
            None => {
                let mut m = String::from_str(
                    "Could not find number of reopened namespaces for namespace ",
                );
                push_decimal(&mut m, canonical_id.0 as u64);
                m.append(".");
                Err(Error::msg(m))
            },
        }
    }

    /// The item that holds a member function; `None` for a function that
    /// is no member.
    pub fn record_for_member_func(&self, func: &Func) -> (r: Option<&Item>)
        requires
            func.member_func_metadata matches Some(meta) ==> self.item_with(meta.record_id)
                is Some,
        ensures
            match func.member_func_metadata {
                Some(meta) => r matches Some(item) && *item == self.item_with(meta.record_id)->0,
                None => r is None,
            },
    {
        match &func.member_func_metadata {
            Some(meta) => Some(self.find_untyped_decl(meta.record_id)),
            None => None,
        }
    }
}

/// The features of the first entry at or after `from` for the target.
pub open spec fn features_of(all: Seq<TargetFeatures>, target: Seq<char>, from: int) -> CrubitFeatures
    decreases all.len() - from,
{
    if from < 0 || from >= all.len() {
        CrubitFeatures { supported: false, non_extern_c_functions: false, experimental: false }
    } else if all[from].target.0@ == target {
        all[from].features
    } else {
        features_of(all, target, from + 1)
    }
}

/// The error for an id that names no item of the kind asked for.
fn not_a(decl_id: ItemId, kind: &str) -> (e: Error)
    ensures
        e@ == seq!["DeclId "@ + decimal(decl_id.0 as nat) + " doesn't refer to a "@ + kind@],
{
    let mut m = String::from_str("DeclId ");
    push_decimal(&mut m, decl_id.0 as u64);
    m.append(" doesn't refer to a ");
    m.append(kind);
    Error::msg(m)
}

/// The lifetime parameters of an item.
fn lifetime_params(item: &Item) -> (r: Option<&Vec<LifetimeName>>)
    ensures
        match r {
            Some(v) => v@ == lifetime_params_of(*item),
            None => lifetime_params_of(*item) == Seq::<LifetimeName>::empty(),
        },
{
    match item {
        Item::Record(r) => Some(&r.lifetime_params),
        Item::Func(f) => Some(&f.lifetime_params),
        _ => None,
    }
}

/// Builds the description with its lookups. A description in which two
/// items, or two lifetime parameters, share an id is refused.
pub fn try_make_ir(
    items: Vec<Item>,
    public_headers: Vec<HeaderName>,
    current_target: BazelLabel,
    top_level_item_ids: Vec<ItemId>,
    crate_root_path: Option<String>,
    crubit_features: Vec<TargetFeatures>,
) -> (r: Result<IR, IrProblem>)
    ensures
        match r {
            Ok(ir) => item_ids_distinct(items@) && lifetime_ids_distinct(items@) && ir.all_items()
                == items@ && ir.target() == current_target && ir.features() == crubit_features@
                && ir.root_path() == crate_root_path && ir.spec_public_headers()
                == public_headers && ir.spec_top_level_item_ids() == top_level_item_ids,
            Err(IrProblem::DuplicateItemId) => !item_ids_distinct(items@),
            Err(IrProblem::DuplicateLifetimeId) => item_ids_distinct(items@)
                && !lifetime_ids_distinct(items@),
        },
{
    let n = items.len();
    let mut item_id_to_item_idx: HashMap<usize, usize> = HashMap::new();
    let mut i: usize = 0;
    while i < n
        invariant
            i <= n,
            n == items@.len(),
            forall|j: int|
                0 <= j < i ==> item_id_to_item_idx@.contains_key(item_id(#[trigger] items@[j]).0)
                    && item_id_to_item_idx@[item_id(items@[j]).0] == j,
            forall|k: usize| #[trigger]
                item_id_to_item_idx@.contains_key(k) ==> item_id_to_item_idx@[k] < i && item_id(
                    items@[item_id_to_item_idx@[k] as int],
                ).0 == k,
        decreases n - i,
    {
        let id = items[i].id();
        if item_id_to_item_idx.contains_key(&id.0) {
            proof {
                let j = item_id_to_item_idx@[id.0] as int;
                assert(item_id(items@[j]) == item_id(items@[i as int]));
            }
            return Err(IrProblem::DuplicateItemId);
        }
        item_id_to_item_idx.insert(id.0, i);
        i += 1;
    }
    assert(item_ids_distinct(items@)) by {
        assert forall|a: int, b: int|
            0 <= a < items@.len() && 0 <= b < items@.len() && a != b implies item_id(
            #[trigger] items@[a],
        ) != item_id(#[trigger] items@[b]) by {
            assert(item_id_to_item_idx@[item_id(items@[a]).0] == a);
            assert(item_id_to_item_idx@[item_id(items@[b]).0] == b);
        }
    }

    let mut lifetimes: HashMap<i32, (usize, usize)> = HashMap::new();
    let mut i: usize = 0;
    while i < n
        invariant
            i <= n,
            n == items@.len(),
            item_ids_distinct(items@),
            forall|a: int, p: int|
                lifetime_at(items@, a, p) && a < i ==> lifetimes@.contains_key(
                    (#[trigger] lifetime_params_of(items@[a])[p]).id.0,
                ) && lifetimes@[lifetime_params_of(items@[a])[p].id.0].0 as int == a
                    && lifetimes@[lifetime_params_of(items@[a])[p].id.0].1 as int == p,
            forall|k: i32| #[trigger]
                lifetimes@.contains_key(k) ==> lifetime_at(
                    items@,
                    lifetimes@[k].0 as int,
                    lifetimes@[k].1 as int,
                ) && lifetimes@[k].0 < i && lifetime_params_of(
                    items@[lifetimes@[k].0 as int],
                )[lifetimes@[k].1 as int].id.0 == k,
        decreases n - i,
    {
        match lifetime_params(&items[i]) {
            None => {},
            Some(params) => {
                let mut p: usize = 0;
                while p < params.len()
                    invariant
                        p <= params.len(),
                        i < n,
                        n == items@.len(),
                        item_ids_distinct(items@),
                        params@ == lifetime_params_of(items@[i as int]),
                        forall|a: int, q: int|
                            lifetime_at(items@, a, q) && (a < i || (a == i && q < p))
                                ==> lifetimes@.contains_key(
                                (#[trigger] lifetime_params_of(items@[a])[q]).id.0,
                            ) && lifetimes@[lifetime_params_of(items@[a])[q].id.0].0 as int == a
                                && lifetimes@[lifetime_params_of(items@[a])[q].id.0].1 as int == q,
                        forall|k: i32| #[trigger]
                            lifetimes@.contains_key(k) ==> lifetime_at(
                                items@,
                                lifetimes@[k].0 as int,
                                lifetimes@[k].1 as int,
                            ) && (lifetimes@[k].0 < i || (lifetimes@[k].0 == i && lifetimes@[k].1
                                < p)) && lifetime_params_of(
                                items@[lifetimes@[k].0 as int],
                            )[lifetimes@[k].1 as int].id.0 == k,
                    decreases params.len() - p,
                {
                    let id = params[p].id;
                    if lifetimes.contains_key(&id.0) {
                        proof {
                            let a = lifetimes@[id.0].0 as int;
                            let q = lifetimes@[id.0].1 as int;
                            assert(lifetime_at(items@, a, q));
                            assert(lifetime_at(items@, i as int, p as int));
                            assert(lifetime_params_of(items@[a])[q].id == lifetime_params_of(
                                items@[i as int],
                            )[p as int].id);
                            assert(a != i || q != p);
                        }
                        return Err(IrProblem::DuplicateLifetimeId);
                    }
                    lifetimes.insert(id.0, (i, p));
                    p += 1;
                }
            },
        }
        i += 1;
    }
    assert(lifetime_ids_distinct(items@)) by {
        assert forall|a: int, p: int, b: int, q: int|
            #![trigger lifetime_params_of(items@[a])[p], lifetime_params_of(items@[b])[q]]
            lifetime_at(items@, a, p) && lifetime_at(items@, b, q) && (a != b || p != q) implies lifetime_params_of(
            items@[a],
        )[p].id != lifetime_params_of(items@[b])[q].id by {
            assert(lifetimes@[lifetime_params_of(items@[a])[p].id.0].0 as int == a);
            assert(lifetimes@[lifetime_params_of(items@[a])[p].id.0].1 as int == p);
            assert(lifetimes@[lifetime_params_of(items@[b])[q].id.0].0 as int == b);
            assert(lifetimes@[lifetime_params_of(items@[b])[q].id.0].1 as int == q);
        }
    }

    let mut counts: HashMap<usize, usize> = HashMap::new();
    let mut reopened: HashMap<usize, usize> = HashMap::new();
    let mut i: usize = 0;
    while i < n
        invariant
            i <= n,
            n == items@.len(),
            item_ids_distinct(items@),
            forall|j: int|
                0 <= j < n ==> item_id_to_item_idx@.contains_key(item_id(#[trigger] items@[j]).0)
                    && item_id_to_item_idx@[item_id(items@[j]).0] == j,
            forall|c: usize| #[trigger]
                counts@.contains_key(c) ==> counts@[c] == reopened_count(
                    items@,
                    current_target,
                    ItemId(c),
                    i as int,
                ),
            forall|c: usize|
                reopened_count(items@, current_target, ItemId(c), i as int) > 0
                    ==> #[trigger] counts@.contains_key(c),
            forall|j: int|
                0 <= j < i && (#[trigger] items@[j] matches Item::Namespace(ns)
                    && ns.owning_target.0@ == current_target.0@) ==> reopened@.contains_key(
                    item_id(items@[j]).0,
                ) && reopened@[item_id(items@[j]).0] == reopened_count(
                    items@,
                    current_target,
                    items@[j]->Namespace_0.canonical_namespace_id,
                    j,
                ),
            forall|k: usize| #[trigger]
                reopened@.contains_key(k) ==> item_id_to_item_idx@.contains_key(k) && (items@[item_id_to_item_idx@[k] as int] matches Item::Namespace(
                    ns,
                ) && ns.owning_target.0@ == current_target.0@),
        decreases n - i,
    {
        let ghost old_counts = counts@;
        match &items[i] {
            Item::Namespace(ns) => {
                if ns.owning_target.same_as(&current_target) {
                    let c = ns.canonical_namespace_id.0;
                    let current_count: usize = match counts.get(&c) {
                        Some(v) => *v,
                        None => 0,
                    };
                    proof {
                        lemma_reopened_count_bound(items@, current_target, ItemId(c), i as int);
                        if !counts@.contains_key(c) {
                            assert(reopened_count(items@, current_target, ItemId(c), i as int)
                                == 0);
                        }
                    }
                    assert(ns.canonical_namespace_id == ItemId(c));
                    reopened.insert(ns.id.0, current_count);
                    counts.insert(c, current_count + 1);
                    assert forall|k: usize| #[trigger] counts@.contains_key(k) implies counts@[k]
                        == reopened_count(items@, current_target, ItemId(k), i + 1) by {
                        if k != c {
                            assert(old_counts.contains_key(k));
                            assert(ItemId(k) != ItemId(c));
                        }
                    }
                    assert forall|k: usize|
                        reopened_count(items@, current_target, ItemId(k), i + 1)
                            > 0 implies #[trigger] counts@.contains_key(k) by {
                        if k != c {
                            assert(ItemId(k) != ItemId(c));
                            assert(old_counts.contains_key(k));
                        }
                    }
                    assert forall|j: int|
                        0 <= j < i + 1 && (#[trigger] items@[j] matches Item::Namespace(ns2)
                            && ns2.owning_target.0@ == current_target.0@) implies reopened@.contains_key(
                        item_id(items@[j]).0,
                    ) && reopened@[item_id(items@[j]).0] == reopened_count(
                        items@,
                        current_target,
                        items@[j]->Namespace_0.canonical_namespace_id,
                        j,
                    ) by {
                        if j < i {
                            assert(item_id(items@[j]) != item_id(items@[i as int]));
                        }
                    }
                } else {
                    assert forall|k: usize| #[trigger] counts@.contains_key(k) implies counts@[k]
                        == reopened_count(items@, current_target, ItemId(k), i + 1) by {}
                }
            },
            _ => {
                assert forall|k: usize| #[trigger] counts@.contains_key(k) implies counts@[k]
                    == reopened_count(items@, current_target, ItemId(k), i + 1) by {}
            },
        }
        i += 1;
    }
    Ok(
        IR {
            public_headers,
            current_target,
            items,
            top_level_item_ids,
            crate_root_path,
            crubit_features,
            item_id_to_item_idx,
            lifetimes,
            namespace_id_to_number_of_reopened_namespaces: counts,
            reopened_namespace_id_to_idx: reopened,
        },
    )
}

/// Builds the description with its lookups from parts in which no two
/// items, and no two lifetime parameters, share an id.
pub fn make_ir_from_parts(
    items: Vec<Item>,
    public_headers: Vec<HeaderName>,
    current_target: BazelLabel,
    top_level_item_ids: Vec<ItemId>,
    crate_root_path: Option<String>,
    crubit_features: Vec<TargetFeatures>,
) -> (ir: IR)
    requires
        item_ids_distinct(items@),
        lifetime_ids_distinct(items@),
    ensures
        ir.all_items() == items@,
        ir.target() == current_target,
        ir.features() == crubit_features@,
        ir.root_path() == crate_root_path,
        ir.spec_public_headers() == public_headers,
        ir.spec_top_level_item_ids() == top_level_item_ids,
{
    match try_make_ir(
        items,
        public_headers,
        current_target,
        top_level_item_ids,
        crate_root_path,
        crubit_features,
    ) {
        Ok(ir) => ir,
        Err(_) => vstd::pervasive::unreached(),
    }
}

} // verus!
