//! The errors that a run hands to its sink: of each item that was left out
//! with a comment, why. They depend on what is bound alone and come in the
//! order in which the items are bound.

use vstd::prelude::*;
use crate::adt::{format_impl_item, impl_item_binding, impl_item_def};
use crate::error::{full_message, Error};
use crate::error_report::{error_views, insert_all, recorded_after, ErrorReporting};
use crate::features::{bindings_of, has_bindings, HasBindings};
use crate::ir::{item_owning_target, Item, ItemId, UnsupportedItem};
use crate::ir_db::IR;
use crate::ir_queries::{all_can_be_named, can_be_named};
use crate::emit::layouts_fit;
use crate::items::{format_item, item_binding, item_layout_fits};
use crate::rs_driver::{generate_item, generate_item_impl, item_generated, item_impl, Provided};
use crate::rs_model::{Crate, DefKind, ImplItem};
use crate::type_map::Messages;

verus! {

/// The errors of the first `n` items of the impls of a type: of each item
/// that is public under its own path and has no binding, why.
pub open spec fn impl_item_errors(krate: Crate, items: Seq<ImplItem>, n: int) -> Seq<Messages>
    decreases n,
{
    if n <= 0 || n > items.len() {
        Seq::empty()
    } else {
        let before = impl_item_errors(krate, items, n - 1);
        let def = impl_item_def(items[n - 1]);
        if def >= krate.defs@.len() || !krate.defs@[def as int].is_directly_public {
            before
        } else {
            match impl_item_binding(krate, items[n - 1]) {
                Ok(_) => before,
                Err(e) => before.push(e),
            }
        }
    }
}

/// The errors of the definition that `def` names: none for a definition of
/// another crate or one that is no item of a module; else why the item has
/// no binding, or, for a type that has one, the errors of the items of its
/// impls.
pub open spec fn item_errors(krate: Crate, def: usize) -> Seq<Messages>
    recommends
        def < krate.defs@.len(),
{
    let d = krate.defs@[def as int];
    if !d.is_local || !d.is_item {
        Seq::empty()
    } else {
        match item_binding(krate, def) {
            Err(e) => seq![e],
            Ok(None) => Seq::empty(),
            Ok(Some(_)) => match d.kind {
                DefKind::Adt(adt) => impl_item_errors(
                    krate,
                    adt.impl_items@,
                    adt.impl_items@.len() as int,
                ),
                _ => Seq::empty(),
            },
        }
    }
}

/// The errors of the first `n` definitions of a crate.
pub open spec fn crate_errors(krate: Crate, n: int) -> Seq<Messages>
    decreases n,
{
    if n <= 0 || n > krate.defs@.len() {
        Seq::empty()
    } else {
        crate_errors(krate, n - 1) + item_errors(krate, (n - 1) as usize)
    }
}

/// Adds the errors of the items of the impls of a type.
pub fn collect_impl_item_errors(krate: &Crate, items: &Vec<ImplItem>, out: &mut Vec<Error>)
    ensures
        error_views(final(out)@) == error_views(old(out)@) + impl_item_errors(
            *krate,
            items@,
            items@.len() as int,
        ),
{
    let ghost start = error_views(out@);
    assert(start + Seq::<Messages>::empty() =~= start);
    let mut i: usize = 0;
    while i < items.len()
        invariant
            i <= items.len(),
            error_views(out@) == start + impl_item_errors(*krate, items@, i as int),
        decreases items.len() - i,
    {
        let def = match &items[i] {
            ImplItem::Fn(f) => *f,
            ImplItem::Other { def, .. } => *def,
        };
        if def < krate.defs.len() && krate.defs[def].is_directly_public {
            match format_impl_item(krate, &items[i]) {
                Ok(_) => {},
                Err(e) => {
                    let ghost before = error_views(out@);
                    out.push(e);
                    assert(error_views(out@) =~= before.push(e@));
                    assert(error_views(out@) =~= start + impl_item_errors(
                        *krate,
                        items@,
                        i as int,
                    ).push(e@));
                },
            }
        }
        i += 1;
    }
}

/// Adds the errors of the item that `def` names.
pub fn collect_item_errors(krate: &Crate, def: usize, out: &mut Vec<Error>)
    requires
        def < krate.defs@.len(),
        item_layout_fits(*krate, def),
    ensures
        error_views(final(out)@) == error_views(old(out)@) + item_errors(*krate, def),
{
    let ghost start = error_views(out@);
    assert(start + Seq::<Messages>::empty() =~= start);
    if !krate.defs[def].is_local || !krate.defs[def].is_item {
        return ;
    }
    match format_item(krate, def) {
        Err(e) => {
            out.push(e);
            assert(error_views(out@) =~= start + seq![e@]);
        },
        Ok(None) => {},
        Ok(Some(_)) => match &krate.defs[def].kind {
            DefKind::Adt(adt) => collect_impl_item_errors(krate, &adt.impl_items, out),
            _ => {},
        },
    }
}

/// The errors of a crate, in the order of the source.
pub fn collect_errors(krate: &Crate) -> (r: Vec<Error>)
    requires
        layouts_fit(*krate),
    ensures
        error_views(r@) == crate_errors(*krate, krate.defs@.len() as int),
{
    let mut out: Vec<Error> = Vec::new();
    assert(error_views(out@) =~= Seq::<Messages>::empty());
    let mut def: usize = 0;
    while def < krate.defs.len()
        invariant
            def <= krate.defs.len(),
            layouts_fit(*krate),
            error_views(out@) == crate_errors(*krate, def as int),
        decreases krate.defs.len() - def,
    {
        if krate.defs[def].is_local && krate.defs[def].is_item {
            collect_item_errors(krate, def, &mut out);
        } else {
            assert(crate_errors(*krate, def + 1) =~= crate_errors(*krate, def as int));
        }
        def += 1;
    }
    out
}

/// Hands the errors of a crate to a sink.
pub fn report_errors<E: ErrorReporting>(krate: &Crate, errors: &mut E)
    requires
        layouts_fit(*krate),
    ensures
        recorded_after(
            *old(errors),
            *final(errors),
            crate_errors(*krate, krate.defs@.len() as int),
        ),
{
    let found = collect_errors(krate);
    insert_all(errors, &found);
}

/// The first `n` errors that an item without bindings carries.
pub open spec fn unsupported_errors(u: UnsupportedItem, n: int) -> Seq<Messages>
    decreases n,
{
    if n <= 0 || n > u.errors@.len() {
        Seq::empty()
    } else {
        unsupported_errors(u, n - 1).push(seq![u.errors@[n - 1].message@])
    }
}

/// The errors of binding an item of the description. An item of another
/// target has none. An item that stands for what has no bindings hands on
/// the errors that it carries; a namespace, the errors of its items. After
/// these comes the reason for which the item itself was left out with a
/// comment, if it was.
pub open spec fn item_reports(ir: IR, item: Item, p: Provided, fuel: nat) -> Seq<Messages>
    decreases fuel, 1int, 0int,
{
    let inner = if item_owning_target(item) is Some && (item_owning_target(item)->0).0@
        != ir.target().0@ {
        Seq::empty()
    } else {
        match item {
            Item::UnsupportedItem(u) => unsupported_errors(u, u.errors@.len() as int),
            Item::Namespace(ns) => reports(
                ir,
                ns.child_item_ids@,
                p,
                fuel,
                ns.child_item_ids@.len() as int,
            ),
            _ => Seq::empty(),
        }
    };
    match item_impl(ir, item, p, fuel) {
        Ok(_) => inner,
        Err(e) => if bindings_of(ir, item, p.types.entries@, ir.all_items().len()) is Yes {
            inner
        } else {
            inner.push(seq![full_message(e)])
        },
    }
}

/// Whether binding the first `n` of the items with the given ids has come
/// to an end before the last of them was bound: an id names no item, the
/// items enclose one another in a circle, or an item that is known to have
/// bindings failed.
pub open spec fn halted(ir: IR, ids: Seq<ItemId>, p: Provided, fuel: nat, n: int) -> bool
    decreases n,
{
    n > 0 && n <= ids.len() && (halted(ir, ids, p, fuel, n - 1) || match ir.item_with(ids[n - 1]) {
        None => true,
        Some(item) => fuel == 0 || item_generated(ir, item, p, (fuel - 1) as nat) is Err,
    })
}

/// The errors of binding the first `n` of the items with the given ids:
/// those of each item in turn, as far as binding goes.
pub open spec fn reports(ir: IR, ids: Seq<ItemId>, p: Provided, fuel: nat, n: int) -> Seq<Messages>
    decreases fuel, 0int, n,
{
    if n <= 0 || n > ids.len() {
        Seq::empty()
    } else {
        let before = reports(ir, ids, p, fuel, n - 1);
        if halted(ir, ids, p, fuel, n - 1) {
            before
        } else {
            match ir.item_with(ids[n - 1]) {
                None => before,
                Some(item) => if fuel == 0 {
                    before
                } else {
                    before + item_reports(ir, item, p, (fuel - 1) as nat)
                },
            }
        }
    }
}

/// Adds the errors that an item without bindings carries.
pub fn collect_unsupported_errors(u: &UnsupportedItem, out: &mut Vec<Error>)
    ensures
        error_views(final(out)@) == error_views(old(out)@) + unsupported_errors(
            *u,
            u.errors@.len() as int,
        ),
{
    let ghost start = error_views(out@);
    assert(start + Seq::<Messages>::empty() =~= start);
    let mut i: usize = 0;
    while i < u.errors.len()
        invariant
            i <= u.errors.len(),
            error_views(out@) == start + unsupported_errors(*u, i as int),
        decreases u.errors.len() - i,
    {
        let ghost before = error_views(out@);
        let e = u.errors[i].to_error();
        out.push(e);
        assert(error_views(out@) =~= before.push(e@));
        assert(error_views(out@) =~= start + unsupported_errors(*u, i as int).push(e@));
        i += 1;
    }
}

/// Adds the errors of binding an item.
pub fn collect_item_reports(ir: &IR, item: &Item, p: &Provided, fuel: usize, out: &mut Vec<Error>)
    requires
        can_be_named(*ir, *item),
        all_can_be_named(*ir),
    ensures
        error_views(final(out)@) == error_views(old(out)@) + item_reports(
            *ir,
            *item,
            *p,
            fuel as nat,
        ),
    decreases fuel, 1int, 0int,
{
    let ghost start = error_views(out@);
    assert(start + Seq::<Messages>::empty() =~= start);
    let foreign = match item.owning_target() {
        Some(owning_target) => !ir.is_current_target(owning_target),
        None => false,
    };
    if !foreign {
        match item {
            Item::UnsupportedItem(u) => collect_unsupported_errors(u, out),
            Item::Namespace(ns) => {
                let _ = collect_reports(
                    ir,
                    &ns.child_item_ids,
                    ns.child_item_ids.len(),
                    p,
                    fuel,
                    out,
                );
            },
            _ => {},
        }
    }
    let ghost inner = error_views(out@);
    match generate_item_impl(ir, item, p, fuel) {
        Ok(_) => {},
        Err(e) => match has_bindings(ir, item, &p.types) {
            HasBindings::Yes => {},
            _ => {
                let reason = Error::msg(e.full_message());
                out.push(reason);
                assert(error_views(out@) =~= inner.push(seq![full_message(e@)]));
                assert(error_views(out@) =~= start + (inner.subrange(
                    start.len() as int,
                    inner.len() as int,
                )).push(seq![full_message(e@)]));
            },
        },
    }
}

/// Adds the errors of binding the first `n` of the items with the given
/// ids, and says whether binding came to an end before the last.
pub fn collect_reports(
    ir: &IR,
    ids: &Vec<ItemId>,
    n: usize,
    p: &Provided,
    fuel: usize,
    out: &mut Vec<Error>,
) -> (stopped: bool)
    requires
        all_can_be_named(*ir),
        n <= ids@.len(),
    ensures
        stopped == halted(*ir, ids@, *p, fuel as nat, n as int),
        error_views(final(out)@) == error_views(old(out)@) + reports(
            *ir,
            ids@,
            *p,
            fuel as nat,
            n as int,
        ),
    decreases fuel, 0int, n,
{
    let ghost start = error_views(out@);
    assert(start + Seq::<Messages>::empty() =~= start);
    if n == 0 {
        return false;
    }
    if collect_reports(ir, ids, n - 1, p, fuel, out) {
        return true;
    }
    let item = match ir.find_decl(ids[n - 1]) {
        Ok(i) => i,
        Err(_) => {
            return true;
        },
    };
    if fuel == 0 {
        return true;
    }
    proof {
        use_type_invariant(ir);
        ir.lemma_positions();
        let i = ir.position_of(ids@[n - 1])->0;
        assert(ir.all_items()[i] == *item);
    }
    let ghost before = error_views(out@);
    collect_item_reports(ir, item, p, fuel - 1, out);
    assert(error_views(out@) =~= start + (reports(*ir, ids@, *p, fuel as nat, n - 1)
        + item_reports(*ir, *item, *p, (fuel - 1) as nat)));
    generate_item(ir, item, p, fuel - 1).is_err()
}

/// The errors of binding the items of a description, in the order in which
/// the items are bound.
pub fn collect_reported(ir: &IR, p: &Provided) -> (r: Vec<Error>)
    requires
        all_can_be_named(*ir),
    ensures
        error_views(r@) == reports(
            *ir,
            ir.spec_top_level_item_ids()@,
            *p,
            ir.all_items().len(),
            ir.spec_top_level_item_ids()@.len() as int,
        ),
{
    let mut out: Vec<Error> = Vec::new();
    assert(error_views(out@) =~= Seq::<Messages>::empty());
    let ids = ir.top_level_item_ids();
    let _ = collect_reports(ir, ids, ids.len(), p, ir.items().len(), &mut out);
    out
}

/// Hands the errors of binding the items of a description to a sink.
pub fn report_item_errors<E: ErrorReporting>(ir: &IR, p: &Provided, errors: &mut E)
    requires
        all_can_be_named(*ir),
    ensures
        recorded_after(
            *old(errors),
            *final(errors),
            reports(
                *ir,
                ir.spec_top_level_item_ids()@,
                *p,
                ir.all_items().len(),
                ir.spec_top_level_item_ids()@.len() as int,
            ),
        ),
{
    let found = collect_reported(ir, p);
    insert_all(errors, &found);
}

} // verus!
