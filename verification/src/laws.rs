//! What holds of every binding: that the layout of a type is asserted on
//! both sides, that exactly the values that do not cross the boundary by
//! value are handed over by address, that a type is declared ahead exactly
//! where it is mentioned before it is defined, and that nothing is bound
//! that is not public under its own path.

use vstd::prelude::*;
use crate::adt::{
    adt_binding, cc_align_assertion, cc_layout_assertions, cc_size_assertion, members_api,
    rs_align_assertion, rs_layout_assertions, rs_size_assertion,
};
use crate::emit::{
    bindings, bound_item, bound_items, declared_after, fwd_decls_after, fwd_decls_of, needs_of,
    nodes_of, BoundItemView, OutputView,
};
use crate::fields::{
    cc_offset_assertion, cc_offset_assertions, fields_api, fields_binding, laid_out_fields,
    rs_offset_assertion, rs_offset_assertions, FieldView,
};
use crate::function::{fn_binding, fn_of, fn_parts, fn_rs_details, needs_thunk};
use crate::items::item_binding;
use crate::prereqs::{increasing, lists_ids, SnippetView};
use crate::rs_model::{Crate, SigView, Ty};
use crate::thunks::{thunk_decl_params, thunk_decl_tokens, thunk_impl_params, thunk_param_name};
use crate::toposort::{is_ready, topo_order};
use crate::type_map::{
    abi_trivial, adt_core, adt_of, cc_adt_type, cc_ret_type, cc_type, is_c_void, rs_type, Messages,
    TypeLocation,
};

verus! {

/// Whether a text holds another.
pub open spec fn occurs_in(part: Seq<char>, whole: Seq<char>) -> bool {
    exists|i: int, j: int| 0 <= i <= j <= whole.len() && #[trigger] whole.subrange(i, j) == part
}

/// A text holds itself.
pub proof fn lemma_occurs_self(part: Seq<char>)
    ensures
        occurs_in(part, part),
{
    assert(part.subrange(0, part.len() as int) =~= part);
}

/// What a text holds, it holds with more text before it.
pub proof fn lemma_occurs_after(part: Seq<char>, whole: Seq<char>, before: Seq<char>)
    requires
        occurs_in(part, whole),
    ensures
        occurs_in(part, before + whole),
{
    let (i, j) = choose|i: int, j: int|
        0 <= i <= j <= whole.len() && #[trigger] whole.subrange(i, j) == part;
    assert((before + whole).subrange(before.len() + i, before.len() + j) =~= whole.subrange(i, j));
}

/// What a text holds, it holds with more text after it.
pub proof fn lemma_occurs_before(part: Seq<char>, whole: Seq<char>, after: Seq<char>)
    requires
        occurs_in(part, whole),
    ensures
        occurs_in(part, whole + after),
{
    let (i, j) = choose|i: int, j: int|
        0 <= i <= j <= whole.len() && #[trigger] whole.subrange(i, j) == part;
    assert((whole + after).subrange(i, j) =~= whole.subrange(i, j));
}

/// Binding depends on the crate alone: two results that meet the contract
/// of `generate_bindings` for the same crate are the same documents, or the
/// same error.
pub proof fn law_binding_is_deterministic(
    krate: Crate,
    first: Result<OutputView, Messages>,
    second: Result<OutputView, Messages>,
)
    requires
        first == bindings(krate),
        second == bindings(krate),
    ensures
        first == second,
{
}

/// The binding of a type asserts, in C++ and in Rust, that the type has
/// the size and the alignment that the Rust compiler gave it.
pub proof fn law_layout_is_asserted(krate: Crate, def: usize)
    requires
        adt_of(krate, def) is Some,
        adt_core(krate, def) is Ok,
    ensures
        ({
            let core = adt_core(krate, def)->Ok_0;
            let layout = adt_of(krate, def)->0.layout->Ok_0;
            let binding = adt_binding(krate, core);
            &&& adt_of(krate, def)->0.layout is Ok
            &&& core.size_in_bytes == layout.size
            &&& core.alignment_in_bytes == layout.align
            &&& occurs_in(cc_size_assertion(core), binding.details_tokens)
            &&& occurs_in(cc_align_assertion(core), binding.details_tokens)
            &&& occurs_in(rs_size_assertion(core), binding.rs_details)
            &&& occurs_in(rs_align_assertion(core), binding.rs_details)
        }),
{
    let core = adt_core(krate, def)->Ok_0;
    let binding = adt_binding(krate, core);
    let members = members_api(krate, core);
    let fields = fields_binding(krate, core);
    let nl = "__NEWLINE__ "@;
    // C++
    lemma_occurs_self(cc_size_assertion(core));
    lemma_occurs_after(cc_size_assertion(core), cc_size_assertion(core), nl);
    lemma_occurs_before(cc_size_assertion(core), nl + cc_size_assertion(core), cc_align_assertion(core));
    lemma_occurs_before(
        cc_size_assertion(core),
        nl + cc_size_assertion(core) + cc_align_assertion(core),
        nl,
    );
    lemma_occurs_self(cc_align_assertion(core));
    lemma_occurs_after(cc_align_assertion(core), cc_align_assertion(core), nl + cc_size_assertion(core));
    lemma_occurs_before(
        cc_align_assertion(core),
        nl + cc_size_assertion(core) + cc_align_assertion(core),
        nl,
    );
    lemma_occurs_before(cc_size_assertion(core), cc_layout_assertions(core), members.details_tokens);
    lemma_occurs_before(
        cc_size_assertion(core),
        cc_layout_assertions(core) + members.details_tokens,
        fields.details_tokens,
    );
    lemma_occurs_before(cc_align_assertion(core), cc_layout_assertions(core), members.details_tokens);
    lemma_occurs_before(
        cc_align_assertion(core),
        cc_layout_assertions(core) + members.details_tokens,
        fields.details_tokens,
    );
    // Rust
    lemma_occurs_self(rs_size_assertion(core));
    lemma_occurs_before(rs_size_assertion(core), rs_size_assertion(core), rs_align_assertion(core));
    lemma_occurs_self(rs_align_assertion(core));
    lemma_occurs_after(rs_align_assertion(core), rs_align_assertion(core), rs_size_assertion(core));
    lemma_occurs_before(rs_size_assertion(core), rs_layout_assertions(core), members.rs_details);
    lemma_occurs_before(
        rs_size_assertion(core),
        rs_layout_assertions(core) + members.rs_details,
        fields.rs_details,
    );
    lemma_occurs_before(rs_align_assertion(core), rs_layout_assertions(core), members.rs_details);
    lemma_occurs_before(
        rs_align_assertion(core),
        rs_layout_assertions(core) + members.rs_details,
        fields.rs_details,
    );
}

/// The assertions on the first `n` fields hold the assertion on each of
/// them.
pub proof fn lemma_offset_assertions_hold_each(
    cc_name: Seq<char>,
    rs_name: Seq<char>,
    fields: Seq<FieldView>,
    n: int,
    k: int,
)
    requires
        0 <= k < n <= fields.len(),
    ensures
        occurs_in(cc_offset_assertion(cc_name, fields[k]), cc_offset_assertions(cc_name, fields, n)),
        occurs_in(rs_offset_assertion(rs_name, fields[k]), rs_offset_assertions(rs_name, fields, n)),
    decreases n,
{
    if k == n - 1 {
        lemma_occurs_self(cc_offset_assertion(cc_name, fields[k]));
        lemma_occurs_after(
            cc_offset_assertion(cc_name, fields[k]),
            cc_offset_assertion(cc_name, fields[k]),
            cc_offset_assertions(cc_name, fields, n - 1),
        );
        lemma_occurs_self(rs_offset_assertion(rs_name, fields[k]));
        lemma_occurs_after(
            rs_offset_assertion(rs_name, fields[k]),
            rs_offset_assertion(rs_name, fields[k]),
            rs_offset_assertions(rs_name, fields, n - 1),
        );
    } else {
        lemma_offset_assertions_hold_each(cc_name, rs_name, fields, n - 1, k);
        lemma_occurs_before(
            cc_offset_assertion(cc_name, fields[k]),
            cc_offset_assertions(cc_name, fields, n - 1),
            cc_offset_assertion(cc_name, fields[n - 1]),
        );
        lemma_occurs_before(
            rs_offset_assertion(rs_name, fields[k]),
            rs_offset_assertions(rs_name, fields, n - 1),
            rs_offset_assertion(rs_name, fields[n - 1]),
        );
    }
}

/// The binding of a type asserts the offset of each of its fields: in C++
/// for every field that takes room, in Rust for every public field.
pub proof fn law_field_offsets_are_asserted(krate: Crate, def: usize, k: int)
    requires
        adt_of(krate, def) is Some,
        adt_core(krate, def) is Ok,
        0 <= k < laid_out_fields(krate, adt_core(krate, def)->Ok_0).len(),
    ensures
        ({
            let core = adt_core(krate, def)->Ok_0;
            let field = laid_out_fields(krate, core)[k];
            let binding = adt_binding(krate, core);
            &&& occurs_in(cc_offset_assertion(core.cc_short_name, field), binding.details_tokens)
            &&& occurs_in(
                rs_offset_assertion(core.rs_fully_qualified_name, field),
                binding.rs_details,
            )
        }),
{
    let core = adt_core(krate, def)->Ok_0;
    let fields = laid_out_fields(krate, core);
    let n = fields.len() as int;
    let field = fields[k];
    let members = members_api(krate, core);
    let api = fields_api(krate, core, fields);
    let cc = cc_offset_assertion(core.cc_short_name, field);
    let rs = rs_offset_assertion(core.rs_fully_qualified_name, field);
    lemma_offset_assertions_hold_each(
        core.cc_short_name,
        core.rs_fully_qualified_name,
        fields,
        n,
        k,
    );
    let all_cc = cc_offset_assertions(core.cc_short_name, fields, n);
    let open = "inline void "@ + core.cc_short_name + " :: __crubit_field_offset_assertions ( ) { "@;
    lemma_occurs_after(cc, all_cc, open);
    lemma_occurs_before(cc, open + all_cc, "} "@);
    assert(api.details_tokens == open + all_cc + "} "@);
    lemma_occurs_after(cc, api.details_tokens, cc_layout_assertions(core) + members.details_tokens);
    lemma_occurs_after(rs, api.rs_details, rs_layout_assertions(core) + members.rs_details);
}

/// The fields of a struct are declared in the order of memory: a field
/// that is declared before another does not start after it.
pub proof fn law_fields_in_memory_order(keys: Seq<(u64, u64)>, n: int, a: int, b: int)
    requires
        0 <= n <= keys.len(),
        0 <= a < b < crate::fields::memory_order(keys, n).len(),
    ensures
        crate::fields::memory_order(keys, n).len() == n,
        crate::fields::memory_order(keys, n)[a] < n,
        crate::fields::memory_order(keys, n)[b] < n,
        keys[crate::fields::memory_order(keys, n)[a] as int].0 <= keys[crate::fields::memory_order(
            keys,
            n,
        )[b] as int].0,
{
    lemma_memory_order_sorted(keys, n);
}

/// Whether an order lists positions below `n` by increasing key.
pub open spec fn sorted_by_key(order: Seq<usize>, keys: Seq<(u64, u64)>, n: int) -> bool {
    &&& forall|k: int| 0 <= k < order.len() ==> (#[trigger] order[k]) < n
    &&& forall|a: int, b: int|
        0 <= a < b < order.len() ==> !crate::fields::comes_before(
            keys,
            #[trigger] order[b],
            #[trigger] order[a],
        )
}

proof fn lemma_insert_keeps_sorted(order: Seq<usize>, i: usize, keys: Seq<(u64, u64)>, n: int)
    requires
        sorted_by_key(order, keys, n),
        i < n <= keys.len(),
    ensures
        sorted_by_key(crate::fields::insert_ordered(order, i, keys), keys, n),
        crate::fields::insert_ordered(order, i, keys).len() == order.len() + 1,
        forall|x: usize|
            crate::fields::insert_ordered(order, i, keys).contains(x) ==> x == i || order.contains(
                x,
            ),
    decreases order.len(),
{
    let r = crate::fields::insert_ordered(order, i, keys);
    if order.len() == 0 {
        assert(r =~= seq![i]);
    } else if crate::fields::comes_before(keys, i, order[0]) {
        assert(r =~= seq![i] + order);
        assert forall|a: int, b: int| 0 <= a < b < r.len() implies !crate::fields::comes_before(
            keys,
            #[trigger] r[b],
            #[trigger] r[a],
        ) by {
            if a == 0 {
                assert(r[b] == order[b - 1]);
                if b - 1 > 0 {
                    assert(!crate::fields::comes_before(keys, order[b - 1], order[0]));
                }
            } else {
                assert(r[a] == order[a - 1]);
                assert(r[b] == order[b - 1]);
            }
        }
        assert forall|x: usize| r.contains(x) implies x == i || order.contains(x) by {
            let k = choose|k: int| 0 <= k < r.len() && r[k] == x;
            if k > 0 {
                assert(order[k - 1] == x);
            }
        }
    } else {
        let rest = order.subrange(1, order.len() as int);
        assert forall|a: int, b: int| 0 <= a < b < rest.len() implies !crate::fields::comes_before(
            keys,
            #[trigger] rest[b],
            #[trigger] rest[a],
        ) by {
            assert(rest[a] == order[a + 1]);
            assert(rest[b] == order[b + 1]);
        }
        assert forall|k: int| 0 <= k < rest.len() implies (#[trigger] rest[k]) < n by {
            assert(rest[k] == order[k + 1]);
        }
        lemma_insert_keeps_sorted(rest, i, keys, n);
        let tail = crate::fields::insert_ordered(rest, i, keys);
        assert(r =~= seq![order[0]] + tail);
        assert forall|k: int| 0 <= k < r.len() implies (#[trigger] r[k]) < n by {
            if k > 0 {
                assert(r[k] == tail[k - 1]);
            }
        }
        assert forall|a: int, b: int| 0 <= a < b < r.len() implies !crate::fields::comes_before(
            keys,
            #[trigger] r[b],
            #[trigger] r[a],
        ) by {
            if a == 0 {
                assert(r[b] == tail[b - 1]);
                assert(tail.contains(tail[b - 1]));
                if tail[b - 1] == i {
                } else {
                    assert(rest.contains(tail[b - 1]));
                    let m = choose|m: int| 0 <= m < rest.len() && rest[m] == tail[b - 1];
                    assert(order[m + 1] == tail[b - 1]);
                    assert(!crate::fields::comes_before(keys, order[m + 1], order[0]));
                }
            } else {
                assert(r[a] == tail[a - 1]);
                assert(r[b] == tail[b - 1]);
            }
        }
        assert forall|x: usize| r.contains(x) implies x == i || order.contains(x) by {
            let k = choose|k: int| 0 <= k < r.len() && r[k] == x;
            if k == 0 {
                assert(order[0] == x);
            } else {
                assert(tail[k - 1] == x);
                assert(tail.contains(x));
                if x != i {
                    assert(rest.contains(x));
                    let m = choose|m: int| 0 <= m < rest.len() && rest[m] == x;
                    assert(order[m + 1] == x);
                }
            }
        }
    }
}

proof fn lemma_memory_order_sorted(keys: Seq<(u64, u64)>, n: int)
    requires
        0 <= n <= keys.len(),
    ensures
        sorted_by_key(crate::fields::memory_order(keys, n), keys, n),
        crate::fields::memory_order(keys, n).len() == n,
    decreases n,
{
    if n > 0 {
        lemma_memory_order_sorted(keys, n - 1);
        let before = crate::fields::memory_order(keys, n - 1);
        assert(sorted_by_key(before, keys, n)) by {
            assert forall|k: int| 0 <= k < before.len() implies (#[trigger] before[k]) < n by {
                assert(before[k] < n - 1);
            }
        }
        lemma_insert_keeps_sorted(before, (n - 1) as usize, keys, n);
    }
}

/// In the declaration of a thunk, a parameter is passed as it is exactly
/// where its type crosses the boundary by value; every other parameter is
/// passed by address.
pub proof fn law_thunk_passes_by_address(
    krate: Crate,
    inputs: Seq<Ty>,
    cc_types: Seq<SnippetView>,
    n: int,
    i: int,
)
    requires
        0 <= i < n,
        n <= inputs.len(),
        n <= cc_types.len(),
        thunk_decl_params(krate, inputs, cc_types, n) is Ok,
    ensures
        thunk_decl_params(krate, inputs, cc_types, n)->Ok_0.len() == n,
        thunk_decl_params(krate, inputs, cc_types, n)->Ok_0[i] == (if abi_trivial(inputs[i]) {
            cc_types[i].tokens
        } else {
            cc_types[i].tokens + "* "@
        }),
    decreases n,
{
    if i < n - 1 {
        law_thunk_passes_by_address(krate, inputs, cc_types, n - 1, i);
    } else if n > 1 {
        law_thunk_passes_by_address(krate, inputs, cc_types, n - 1, n - 2);
    }
}

/// In the definition of a thunk in Rust, a parameter whose type does not
/// cross the boundary by value is taken by address.
pub proof fn law_thunk_takes_by_address(
    krate: Crate,
    sig: SigView,
    names: Seq<Seq<char>>,
    n: int,
    i: int,
)
    requires
        0 <= i < n,
        n <= sig.inputs.len(),
        n <= names.len(),
        thunk_impl_params(krate, sig, names, n) is Ok,
    ensures
        thunk_impl_params(krate, sig, names, n)->Ok_0.0.len() == n,
        rs_type(krate, sig.inputs[i]) is Ok,
        thunk_impl_params(krate, sig, names, n)->Ok_0.0[i] == (if abi_trivial(sig.inputs[i]) {
            thunk_param_name(names[i], i) + " : "@ + rs_type(krate, sig.inputs[i])->Ok_0
        } else {
            thunk_param_name(names[i], i) + " : & mut :: core :: mem :: MaybeUninit < "@ + rs_type(
                krate,
                sig.inputs[i],
            )->Ok_0 + "> "@
        }),
    decreases n,
{
    if i < n - 1 {
        law_thunk_takes_by_address(krate, sig, names, n - 1, i);
    } else if n > 1 {
        law_thunk_takes_by_address(krate, sig, names, n - 1, n - 2);
    }
}

/// A thunk hands back by value exactly what crosses the boundary by value;
/// for anything else it returns nothing and writes through a pointer that
/// it takes last.
pub proof fn law_thunk_returns_through_pointer(
    returns_by_value: bool,
    ret: Seq<char>,
    thunk_name: Seq<char>,
    params: Seq<Seq<char>>,
)
    ensures
        returns_by_value ==> thunk_decl_tokens(returns_by_value, ret, thunk_name, params)
            == "namespace __crubit_internal { extern \"C\" "@ + ret + thunk_name + " ( "@
            + crate::text::join(params, ", "@) + ") ; } "@,
        !returns_by_value ==> thunk_decl_tokens(returns_by_value, ret, thunk_name, params)
            == "namespace __crubit_internal { extern \"C\" "@ + "void "@ + thunk_name + " ( "@
            + crate::text::join(params.push(ret + "* __ret_ptr "@), ", "@) + ") ; } "@,
{
}

/// A function is called without a thunk only where every type in its
/// signature crosses the boundary by value, and it then has no thunk; a
/// function with a type that does not cross by value is called through a
/// thunk.
pub proof fn law_thunk_necessity(krate: Crate, f: usize)
    requires
        fn_of(krate, f) is Some,
    ensures
        ({
            let fd = fn_of(krate, f)->0;
            let all_trivial = abi_trivial(fd.sig.output) && forall|i: int|
                0 <= i < fd.sig.inputs@.len() ==> abi_trivial(#[trigger] fd.sig.inputs@[i]);
            &&& !needs_thunk(fd) ==> all_trivial && fd.sig.abi is C && fn_rs_details(krate, f)
                == Ok::<Seq<char>, Messages>(""@)
            &&& !all_trivial ==> needs_thunk(fd)
            &&& (all_trivial && fd.sig.abi is C && (fd.no_mangle || fd.export_name)) ==> !needs_thunk(
                fd,
            )
        }),
{
    crate::type_map::lemma_thunk_reason(fn_of(krate, f)->0.sig@);
}

/// Whether the `k`-th item of the order needs the type `t` declared.
pub open spec fn needs_declared_at(
    items: Seq<BoundItemView>,
    order: Seq<usize>,
    k: int,
    t: usize,
) -> bool {
    fwd_decls_of(items, order[k]).contains(t)
}

/// Whether the `k`-th item of the order defines the type `t` or needs it
/// declared.
pub open spec fn mentions_at(items: Seq<BoundItemView>, order: Seq<usize>, k: int, t: usize) -> bool {
    order[k] == t || needs_declared_at(items, order, k, t)
}

/// Whether the `k`-th item of the order needs the type `t` declared and no
/// item before it defines `t`.
pub open spec fn needs_ahead_at(
    items: Seq<BoundItemView>,
    order: Seq<usize>,
    k: int,
    t: usize,
) -> bool {
    needs_declared_at(items, order, k, t) && forall|j: int| 0 <= j < k ==> order[j] != t
}

/// A type needs a forward declaration exactly where some item needs it
/// declared and the type's definition does not stand before that item.
pub proof fn law_forward_declarations(
    items: Seq<BoundItemView>,
    order: Seq<usize>,
    n: int,
    t: usize,
)
    requires
        0 <= n <= order.len(),
    ensures
        fwd_decls_after(items, order, n).contains(t) <==> exists|k: int|
            0 <= k < n && #[trigger] needs_ahead_at(items, order, k, t),
        declared_after(items, order, n).contains(t) <==> exists|k: int|
            0 <= k < n && #[trigger] mentions_at(items, order, k, t),
    decreases n,
{
    if n > 0 {
        law_forward_declarations(items, order, n - 1, t);
        let last = fwd_decls_of(items, order[n - 1]);
        // What is declared.
        if declared_after(items, order, n).contains(t) {
            if declared_after(items, order, n - 1).contains(t) {
                let k = choose|k: int| 0 <= k < n - 1 && #[trigger] mentions_at(items, order, k, t);
                assert(0 <= k < n && mentions_at(items, order, k, t));
            } else {
                assert(mentions_at(items, order, n - 1, t));
            }
        }
        if exists|k: int| 0 <= k < n && #[trigger] mentions_at(items, order, k, t) {
            let k = choose|k: int| 0 <= k < n && #[trigger] mentions_at(items, order, k, t);
            if k < n - 1 {
                assert(declared_after(items, order, n - 1).contains(t));
            }
        }
        // What is declared ahead.
        if fwd_decls_after(items, order, n).contains(t) {
            if fwd_decls_after(items, order, n - 1).contains(t) {
                let k = choose|k: int|
                    0 <= k < n - 1 && #[trigger] needs_ahead_at(items, order, k, t);
                assert(0 <= k < n && needs_ahead_at(items, order, k, t));
            } else {
                assert(last.contains(t));
                assert(!declared_after(items, order, n - 1).contains(t));
                assert forall|j: int| 0 <= j < n - 1 implies order[j] != t by {
                    assert(!mentions_at(items, order, j, t));
                }
                assert(needs_ahead_at(items, order, n - 1, t));
            }
        }
        if exists|k: int| 0 <= k < n && #[trigger] needs_ahead_at(items, order, k, t) {
            let k = choose|k: int| 0 <= k < n && #[trigger] needs_ahead_at(items, order, k, t);
            if k < n - 1 {
                assert(fwd_decls_after(items, order, n - 1).contains(t));
            } else if declared_after(items, order, n - 1).contains(t) {
                // An item before the last has mentioned the type. It did
                // not define it, so it needed it declared, as early.
                let m = choose|m: int| 0 <= m < n - 1 && #[trigger] mentions_at(items, order, m, t);
                assert(order[m] != t);
                assert(needs_ahead_at(items, order, m, t));
                assert(fwd_decls_after(items, order, n - 1).contains(t));
            } else {
                assert(last.contains(t));
            }
        }
    }
}

/// No type is declared ahead twice: the forward declarations are written
/// for a list that holds each type once.
pub proof fn law_forward_declared_once(listed: Seq<usize>, types: Set<usize>)
    requires
        lists_ids(listed, types),
    ensures
        listed.no_duplicates(),
{
    assert forall|i: int, j: int| 0 <= i < listed.len() && 0 <= j < listed.len() && i != j implies listed[i]
        != listed[j] by {
        if i < j {
            assert(listed[i] < listed[j]);
        } else {
            assert(listed[j] < listed[i]);
        }
    }
}

/// In the sorted order each item stands once, and after every item that
/// it needs defined, as far as that item is bound at all.
pub proof fn law_definitions_come_first(nodes: Seq<usize>, needs: Seq<Set<usize>>, k: int)
    requires
        nodes.len() == needs.len(),
        nodes.no_duplicates(),
        0 <= k < topo_order(nodes, needs).len(),
    ensures
        topo_order(nodes, needs).no_duplicates(),
        exists|q: int|
            0 <= q < nodes.len() && nodes[q] == topo_order(nodes, needs)[k] && is_ready(
                nodes,
                #[trigger] needs[q],
                topo_order(nodes, needs).take(k),
            ),
{
    crate::toposort::lemma_topo_order(nodes, needs, nodes.len() as int);
    let order = topo_order(nodes, needs);
    assert(nodes.contains(order[k]));
    let p = choose|p: int| 0 <= p < nodes.len() && nodes[p] == order[k];
    assert(0 <= k < order.len() && 0 <= p < nodes.len() && nodes[p] == order[k]);
}

/// In the header of a crate each bound item stands once, and after every
/// bound item that it needs defined.
pub proof fn law_bound_definitions_come_first(krate: Crate, k: int)
    requires
        0 <= k < topo_order(
            nodes_of(bound_items(krate, krate.defs@.len() as int)),
            needs_of(bound_items(krate, krate.defs@.len() as int)),
        ).len(),
    ensures
        nodes_of(bound_items(krate, krate.defs@.len() as int)).no_duplicates(),
        topo_order(
            nodes_of(bound_items(krate, krate.defs@.len() as int)),
            needs_of(bound_items(krate, krate.defs@.len() as int)),
        ).no_duplicates(),
        exists|q: int|
            0 <= q < bound_items(krate, krate.defs@.len() as int).len() && bound_items(
                krate,
                krate.defs@.len() as int,
            )[q].def == topo_order(
                nodes_of(bound_items(krate, krate.defs@.len() as int)),
                needs_of(bound_items(krate, krate.defs@.len() as int)),
            )[k] && is_ready(
                nodes_of(bound_items(krate, krate.defs@.len() as int)),
                #[trigger] needs_of(bound_items(krate, krate.defs@.len() as int))[q],
                topo_order(
                    nodes_of(bound_items(krate, krate.defs@.len() as int)),
                    needs_of(bound_items(krate, krate.defs@.len() as int)),
                ).take(k),
            ),
{
    let items = bound_items(krate, krate.defs@.len() as int);
    crate::emit::lemma_bound_items_increase(krate, krate.defs@.len() as int);
    law_definitions_come_first(nodes_of(items), needs_of(items), k);
    let q = choose|q: int|
        0 <= q < nodes_of(items).len() && nodes_of(items)[q] == topo_order(
            nodes_of(items),
            needs_of(items),
        )[k] && is_ready(
            nodes_of(items),
            #[trigger] needs_of(items)[q],
            topo_order(nodes_of(items), needs_of(items)).take(k),
        );
    assert(items[q].def == nodes_of(items)[q]);
}

/// Where no bound item needs another bound item defined, the header
/// holds the main APIs in the order of the source.
pub proof fn law_source_order_is_kept(krate: Crate)
    requires
        forall|q: int, x: usize|
            0 <= q < bound_items(krate, krate.defs@.len() as int).len() && (#[trigger] needs_of(
                bound_items(krate, krate.defs@.len() as int),
            )[q]).contains(x) ==> !#[trigger] nodes_of(
                bound_items(krate, krate.defs@.len() as int),
            ).contains(x),
    ensures
        topo_order(
            nodes_of(bound_items(krate, krate.defs@.len() as int)),
            needs_of(bound_items(krate, krate.defs@.len() as int)),
        ) == nodes_of(bound_items(krate, krate.defs@.len() as int)),
        crate::emit::definitions_ordered(krate),
{
    let items = bound_items(krate, krate.defs@.len() as int);
    let nodes = nodes_of(items);
    crate::emit::lemma_bound_items_increase(krate, krate.defs@.len() as int);
    crate::toposort::lemma_topo_keeps_order(nodes, needs_of(items), nodes.len() as int);
    assert(nodes.take(nodes.len() as int) =~= nodes);
    lemma_nothing_left_out(nodes, nodes.len() as int);
}

/// Of nodes that all stand in the order, none is left out.
pub proof fn lemma_nothing_left_out(nodes: Seq<usize>, n: int)
    requires
        0 <= n <= nodes.len(),
    ensures
        crate::toposort::left_out(nodes, nodes, n).len() == 0,
    decreases n,
{
    if n > 0 {
        lemma_nothing_left_out(nodes, n - 1);
        assert(nodes.contains(nodes[n - 1]));
    }
}

/// A type that is not public under its own path has no core, whatever
/// else holds of it.
pub proof fn law_private_types_have_no_core(krate: Crate, def: usize)
    requires
        def < krate.defs@.len(),
        !krate.defs@[def as int].is_directly_public,
    ensures
        adt_core(krate, def) == Err::<crate::type_map::AdtCoreView, Messages>(
            seq!["Not directly public type (re-exports are not supported yet - b/262052635)"@],
        ),
{
}

/// An item that is not public under its own path has no binding, and
/// leaves nothing in the output.
pub proof fn law_private_items_are_not_bound(krate: Crate, def: usize)
    requires
        def < krate.defs@.len(),
        !krate.defs@[def as int].is_directly_public,
    ensures
        item_binding(krate, def) == Ok::<Option<crate::prereqs::ApiView>, Messages>(None),
        bound_item(krate, def) is None,
{
}

/// The message for a type that is not public under its own path.
pub open spec fn not_directly_public() -> Seq<char> {
    "Not directly public type (re-exports are not supported yet - b/262052635)"@
}

/// A type that is not public under its own path has no spelling in C++,
/// wherever it is used: naming it is an error that says so, by value and
/// behind a pointer alike.
pub proof fn law_private_types_cannot_be_named(
    krate: Crate,
    def: usize,
    display: String,
    location: TypeLocation,
    mutable: bool,
)
    requires
        adt_of(krate, def) is Some,
        !krate.defs@[def as int].is_directly_public,
    ensures
        ({
            let t = Ty::Adt { def, generic_args: 0, display };
            let p = Ty::RawPtr { pointee: Box::new(t), mutable };
            &&& cc_type(krate, t, location) == Err::<SnippetView, Messages>(
                seq![not_directly_public()],
            )
            &&& !adt_of(krate, def)->0.is_c_void ==> (cc_type(krate, p, location) is Err
                && cc_type(krate, p, location)->Err_0.len() == 2 && cc_type(
                krate,
                p,
                location,
            )->Err_0[1] == not_directly_public())
        }),
{
    let t = Ty::Adt { def, generic_args: 0, display };
    let p = Ty::RawPtr { pointee: Box::new(t), mutable };
    assert(cc_type(krate, t, location) == cc_adt_type(krate, def, 0, display@));
    assert(cc_type(krate, t, TypeLocation::Other) == cc_adt_type(krate, def, 0, display@));
    reveal_with_fuel(cc_type, 2);
    if !adt_of(krate, def)->0.is_c_void {
        let e = cc_type(krate, p, location)->Err_0;
        assert(e =~= seq![
            "Failed to format the pointee of the pointer type `"@ + crate::rs_model::ty_display(p)
                + "`"@,
            not_directly_public(),
        ]);
    }
}

/// A function that returns a type that is not public under its own path
/// has no binding: binding it is an error whose cause says so.
pub proof fn law_private_return_type_is_an_error(krate: Crate, f: usize, def: usize)
    requires
        fn_of(krate, f) is Some,
        fn_parts(krate, f) is Ok || fn_parts(krate, f)->Err_0.len() == 2,
        adt_of(krate, def) is Some,
        !krate.defs@[def as int].is_directly_public,
        (fn_of(krate, f)->0.sig.output matches Ty::Adt { def: d, generic_args, .. } && d == def
            && generic_args == 0),
        fn_of(krate, f)->0.generic_params == 0,
        !fn_of(krate, f)->0.sig.c_variadic,
        krate.defs@[f as int].name is Some,
        crate::cc_ident::cc_ident(crate::function::bound_name(krate.defs@[f as int], fn_of(krate, f)->0))
            is Ok,
    ensures
        fn_binding(krate, f) == Err::<crate::prereqs::ApiView, Messages>(
            seq!["Error formatting function return type"@, not_directly_public()],
        ),
{
    let fd = fn_of(krate, f)->0;
    let out = fd.sig.output;
    assert(cc_type(krate, out, TypeLocation::FnReturn) == Err::<SnippetView, Messages>(
        seq![not_directly_public()],
    ));
    assert(cc_ret_type(krate, fd.sig@) == Err::<SnippetView, Messages>(
        seq!["Error formatting function return type"@] + seq![not_directly_public()],
    ));
    assert(seq!["Error formatting function return type"@] + seq![not_directly_public()] =~= seq![
        "Error formatting function return type"@,
        not_directly_public(),
    ]);
}

} // verus!
