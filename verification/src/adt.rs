//! The binding of one struct, enum or union: a C++ class with the same
//! layout, the special member functions that the Rust type allows, its
//! methods and its fields, and the assertions that hold the layout on both
//! sides.

use vstd::prelude::*;
use vstd::string::*;
use crate::cc_ident::{string_literal, string_literal_text};
use crate::error::{full_message, Error};
use crate::fields::{fields_binding, format_fields, layout_fits};
use crate::function::{binding_result_is, fn_binding, fn_of, format_fn};
use crate::prereqs::{ApiSnippets, ApiView, CcPrerequisites, CcSnippet, PrereqsView};
use crate::rs_model::{AdtDef, Crate, Def, ImplItem};
use crate::special_members::{
    copy_ctor, default_ctor, dtor, format_copy_ctor_and_assignment_operator, format_default_ctor,
    format_dtor, format_move_ctor_and_assignment_operator, move_ctor,
};
use crate::text::{decimal, push_decimal};
use crate::thunks::{
    comment_tokens, deprecated_tag, doc_comment, format_comment, format_deprecated_tag,
    format_doc_comment, format_nodiscard_tag, nodiscard_tag,
};
use crate::type_map::{adt_of, support_header_key, AdtCoreBindings, AdtCoreView, Messages};

verus! {

/// The comment that stands in C++ where an item has no binding: the item,
/// the place of its definition, and the reasons, the outermost first.
pub open spec fn unsupported_def(d: Def, e: Messages) -> ApiView {
    ApiView::main_only(
        "__NEWLINE__ __NEWLINE__ "@ + comment_tokens(
            "Error generating bindings for `"@ + d.path_display@ + "` defined at "@
                + d.source_location@ + ": "@ + full_message(e),
        ) + "__NEWLINE__ "@,
    )
}

/// Writes the comment that stands in C++ where an item has no binding.
pub fn format_unsupported_def(d: &Def, err: &Error) -> (r: ApiSnippets)
    ensures
        r@ == unsupported_def(*d, err@),
{
    let mut msg = String::from_str("Error generating bindings for `");
    msg.append(d.path_display.as_str());
    msg.append("` defined at ");
    msg.append(d.source_location.as_str());
    msg.append(": ");
    msg.append(err.full_message().as_str());
    let mut tokens = String::from_str("__NEWLINE__ __NEWLINE__ ");
    tokens.append(format_comment(msg.as_str()).as_str());
    tokens.append("__NEWLINE__ ");
    ApiSnippets::main_only(tokens)
}

/// The definition that an item of an impl names.
pub open spec fn impl_item_def(item: ImplItem) -> usize {
    match item {
        ImplItem::Fn(f) => f,
        ImplItem::Other { def, .. } => def,
    }
}

/// The binding of an item of an impl, or why it has none. Only functions
/// are bound.
pub open spec fn impl_item_binding(krate: Crate, item: ImplItem) -> Result<ApiView, Messages> {
    match item {
        ImplItem::Fn(f) => if fn_of(krate, f) is Some {
            fn_binding(krate, f)
        } else {
            Err(seq!["Unsupported `impl` item kind: not a function"@])
        },
        ImplItem::Other { kind, .. } => Err(seq!["Unsupported `impl` item kind: "@ + kind@]),
    }
}

/// The bindings of the first `n` items of the impls of a type. An item
/// that is not public under its own path is passed over. An item without
/// a binding leaves a comment in its place.
pub open spec fn impl_items_api(krate: Crate, items: Seq<ImplItem>, n: int) -> ApiView
    decreases n,
{
    if n <= 0 || n > items.len() {
        ApiView::empty()
    } else {
        let before = impl_items_api(krate, items, n - 1);
        let def = impl_item_def(items[n - 1]);
        if def >= krate.defs@.len() || !krate.defs@[def as int].is_directly_public {
            before
        } else {
            before.followed_by(
                match impl_item_binding(krate, items[n - 1]) {
                    Ok(a) => a,
                    Err(e) => unsupported_def(krate.defs@[def as int], e),
                },
            )
        }
    }
}

/// Binds one item of an impl.
pub fn format_impl_item(krate: &Crate, item: &ImplItem) -> (r: Result<ApiSnippets, Error>)
    ensures
        binding_result_is(r, impl_item_binding(*krate, *item)),
{
    match item {
        ImplItem::Fn(f) => {
            if krate.function(*f).is_some() {
                format_fn(krate, *f)
            } else {
                Err(Error::new("Unsupported `impl` item kind: not a function"))
            }
        },
        ImplItem::Other { kind, .. } => {
            let mut m = String::from_str("Unsupported `impl` item kind: ");
            m.append(kind.as_str());
            Err(Error::msg(m))
        },
    }
}

/// Binds the items of the impls of a type.
pub fn format_impl_items(krate: &Crate, items: &Vec<ImplItem>) -> (r: ApiSnippets)
    ensures
        r@ == impl_items_api(*krate, items@, items@.len() as int),
{
    let mut result = ApiSnippets::empty();
    let mut i: usize = 0;
    while i < items.len()
        invariant
            i <= items.len(),
            result@ == impl_items_api(*krate, items@, i as int),
        decreases items.len() - i,
    {
        let def = match &items[i] {
            ImplItem::Fn(f) => *f,
            ImplItem::Other { def, .. } => *def,
        };
        if def < krate.defs.len() && krate.defs[def].is_directly_public {
            let api = match format_impl_item(krate, &items[i]) {
                Ok(a) => a,
                Err(e) => format_unsupported_def(&krate.defs[def], &e),
            };
            result.append(api);
        }
        i += 1;
    }
    result
}

/// The destructor of a bound type; where it cannot be bound, it is deleted
/// with a comment that says why.
pub open spec fn dtor_api(krate: Crate, core: AdtCoreView) -> ApiView {
    match dtor(krate, core) {
        Ok(a) => a,
        Err(e) => ApiView::main_only(
            "__NEWLINE__ "@ + comment_tokens(full_message(e)) + "~ "@ + core.cc_short_name
                + " ( ) = delete ; __NEWLINE__ "@,
        ),
    }
}

/// What a bundle holds, be it that of an operation or of its deletion.
pub open spec fn either(r: Result<ApiView, ApiView>) -> ApiView {
    match r {
        Ok(a) => a,
        Err(a) => a,
    }
}

/// The special member functions and the methods of a bound type: default
/// constructor, destructor, move operations, copy operations, then the
/// items of the impls.
pub open spec fn members_api(krate: Crate, core: AdtCoreView) -> ApiView
    recommends
        adt_of(krate, core.def) is Some,
{
    let adt = adt_of(krate, core.def)->0;
    ApiView::empty().followed_by(either(default_ctor(krate, core))).followed_by(
        dtor_api(krate, core),
    ).followed_by(either(move_ctor(krate, core))).followed_by(
        either(copy_ctor(krate, core)),
    ).followed_by(impl_items_api(krate, adt.impl_items@, adt.impl_items@.len() as int))
}

/// Binds the special member functions and the methods of a type.
pub fn format_members(krate: &Crate, core: &AdtCoreBindings) -> (r: ApiSnippets)
    requires
        adt_of(*krate, core.def) is Some,
    ensures
        r@ == members_api(*krate, core@),
{
    let adt = match krate.adt(core.def) {
        Some(a) => a,
        None => {
            return ApiSnippets::empty();
        },
    };
    let mut result = ApiSnippets::empty();
    let default_ctor_snippets = match format_default_ctor(krate, core) {
        Ok(a) => a,
        Err(a) => a,
    };
    result.append(default_ctor_snippets);
    let destructor_snippets = match format_dtor(krate, core) {
        Ok(a) => a,
        Err(e) => {
            let mut tokens = String::from_str("__NEWLINE__ ");
            tokens.append(format_comment(e.full_message().as_str()).as_str());
            tokens.append("~ ");
            tokens.append(core.cc_short_name.as_str());
            tokens.append(" ( ) = delete ; __NEWLINE__ ");
            ApiSnippets::main_only(tokens)
        },
    };
    result.append(destructor_snippets);
    let move_snippets = match format_move_ctor_and_assignment_operator(krate, core) {
        Ok(a) => a,
        Err(a) => a,
    };
    result.append(move_snippets);
    let copy_snippets = match format_copy_ctor_and_assignment_operator(krate, core) {
        Ok(a) => a,
        Err(a) => a,
    };
    result.append(copy_snippets);
    result.append(format_impl_items(krate, &adt.impl_items));
    result
}

/// The attributes of the class: the Rust type that it stands for, its
/// alignment, that it may be passed in registers, and what the Rust type
/// says of packing, of results that must be used and of deprecation.
pub open spec fn adt_attributes(core: AdtCoreView, adt: AdtDef) -> Seq<char> {
    "CRUBIT_INTERNAL_RUST_TYPE ( "@ + string_literal_text(core.rs_fully_qualified_name) + " ) "@
        + ("alignas ( "@ + decimal(core.alignment_in_bytes as nat) + " ) "@)
        + "[ [ clang :: trivial_abi ] ] "@ + (if adt.repr_packed {
        "__attribute__ ( ( packed ) ) "@
    } else {
        ""@
    }) + nodiscard_tag(adt.must_use) + deprecated_tag(adt.deprecated)
}

/// Writes the attributes of the class.
pub fn format_adt_attributes(core: &AdtCoreBindings, adt: &AdtDef) -> (r: String)
    ensures
        r@ == adt_attributes(core@, *adt),
{
    let mut s = String::from_str("CRUBIT_INTERNAL_RUST_TYPE ( ");
    s.append(string_literal(core.rs_fully_qualified_name.as_str()).as_str());
    s.append(" ) ");
    let mut a = String::from_str("alignas ( ");
    push_decimal(&mut a, core.alignment_in_bytes);
    a.append(" ) ");
    s.append(a.as_str());
    s.append("[ [ clang :: trivial_abi ] ] ");
    if adt.repr_packed {
        s.append("__attribute__ ( ( packed ) ) ");
    } else {
        s.append("");
    }
    s.append(format_nodiscard_tag(&adt.must_use).as_str());
    s.append(format_deprecated_tag(&adt.deprecated).as_str());
    s
}

/// The assertion in C++ that the class has the size of the Rust type.
pub open spec fn cc_size_assertion(core: AdtCoreView) -> Seq<char> {
    "static_assert ( sizeof ( "@ + core.cc_short_name + " ) == "@ + decimal(
        core.size_in_bytes as nat,
    ) + " , \"Verify that ADT layout didn't change since this header got generated\" ) ; "@
}

/// The assertion in C++ that the class has the alignment of the Rust type.
pub open spec fn cc_align_assertion(core: AdtCoreView) -> Seq<char> {
    "static_assert ( alignof ( "@ + core.cc_short_name + " ) == "@ + decimal(
        core.alignment_in_bytes as nat,
    ) + " , \"Verify that ADT layout didn't change since this header got generated\" ) ; "@
}

/// The assertions in C++ that the class has the size and the alignment of
/// the Rust type.
pub open spec fn cc_layout_assertions(core: AdtCoreView) -> Seq<char> {
    "__NEWLINE__ "@ + cc_size_assertion(core) + cc_align_assertion(core) + "__NEWLINE__ "@
}

/// The assertion in Rust that the type has the size that the class was
/// given.
pub open spec fn rs_size_assertion(core: AdtCoreView) -> Seq<char> {
    "const _ : ( ) = assert ! ( :: std :: mem :: size_of :: < "@ + core.rs_fully_qualified_name
        + " > ( ) == "@ + decimal(core.size_in_bytes as nat) + " ) ; "@
}

/// The assertion in Rust that the type has the alignment that the class
/// was given.
pub open spec fn rs_align_assertion(core: AdtCoreView) -> Seq<char> {
    "const _ : ( ) = assert ! ( :: std :: mem :: align_of :: < "@ + core.rs_fully_qualified_name
        + " > ( ) == "@ + decimal(core.alignment_in_bytes as nat) + " ) ; "@
}

/// The assertions in Rust that the type has the size and the alignment
/// that the class was given.
pub open spec fn rs_layout_assertions(core: AdtCoreView) -> Seq<char> {
    rs_size_assertion(core) + rs_align_assertion(core)
}

/// Writes the assertions on size and alignment for C++.
pub fn format_cc_layout_assertions(core: &AdtCoreBindings) -> (r: String)
    ensures
        r@ == cc_layout_assertions(core@),
{
    let mut size = String::from_str("static_assert ( sizeof ( ");
    size.append(core.cc_short_name.as_str());
    size.append(" ) == ");
    push_decimal(&mut size, core.size_in_bytes);
    size.append(
        " , \"Verify that ADT layout didn't change since this header got generated\" ) ; ",
    );
    let mut align = String::from_str("static_assert ( alignof ( ");
    align.append(core.cc_short_name.as_str());
    align.append(" ) == ");
    push_decimal(&mut align, core.alignment_in_bytes);
    align.append(
        " , \"Verify that ADT layout didn't change since this header got generated\" ) ; ",
    );
    let mut r = String::from_str("__NEWLINE__ ");
    r.append(size.as_str());
    r.append(align.as_str());
    r.append("__NEWLINE__ ");
    r
}

/// Writes the assertions on size and alignment for Rust.
pub fn format_rs_layout_assertions(core: &AdtCoreBindings) -> (r: String)
    ensures
        r@ == rs_layout_assertions(core@),
{
    let mut size = String::from_str("const _ : ( ) = assert ! ( :: std :: mem :: size_of :: < ");
    size.append(core.rs_fully_qualified_name.as_str());
    size.append(" > ( ) == ");
    push_decimal(&mut size, core.size_in_bytes);
    size.append(" ) ; ");
    let mut align = String::from_str("const _ : ( ) = assert ! ( :: std :: mem :: align_of :: < ");
    align.append(core.rs_fully_qualified_name.as_str());
    align.append(" > ( ) == ");
    push_decimal(&mut align, core.alignment_in_bytes);
    align.append(" ) ; ");
    size.append(align.as_str());
    size
}

/// The binding of a type whose core is bound.
///
/// The main API is the class; it needs no declaration of itself. The
/// details in C++ assert size and alignment, then hold the details of the
/// members and of the fields; they need the class defined. The details in
/// Rust assert size and alignment, then hold those of the members and of
/// the fields.
pub open spec fn adt_binding(krate: Crate, core: AdtCoreView) -> ApiView
    recommends
        adt_of(krate, core.def) is Some,
{
    let d = krate.defs@[core.def as int];
    let adt = adt_of(krate, core.def)->0;
    let members = members_api(krate, core);
    let fields = fields_binding(krate, core);
    let main_prereqs = PrereqsView::empty().with_include(
        support_header_key(krate, "internal/attribute_macros.h"@),
    ).plus(members.main_prereqs).plus(fields.main_prereqs);
    let details_prereqs = PrereqsView::empty().plus(members.details_prereqs).plus(
        fields.details_prereqs,
    );
    ApiView {
        main_tokens: "__NEWLINE__ "@ + doc_comment(d) + core.keyword + " "@ + adt_attributes(
            core,
            adt,
        ) + core.cc_short_name + " final { public : __NEWLINE__ "@ + members.main_tokens
            + fields.main_tokens + "} ; __NEWLINE__ "@,
        main_prereqs: PrereqsView {
            fwd_decls: main_prereqs.fwd_decls.remove(core.def),
            ..main_prereqs
        },
        details_tokens: cc_layout_assertions(core) + members.details_tokens + fields.details_tokens,
        details_prereqs: PrereqsView {
            defs: details_prereqs.defs.insert(core.def),
            ..details_prereqs
        },
        rs_details: rs_layout_assertions(core) + members.rs_details + fields.rs_details,
    }
}

/// Binds a type whose core is bound. Nothing can fail here: what cannot be
/// bound of the type leaves a comment in its place.
pub fn format_adt(krate: &Crate, core: &AdtCoreBindings) -> (r: ApiSnippets)
    requires
        adt_of(*krate, core.def) is Some,
        layout_fits(*krate, core@),
    ensures
        r@ == adt_binding(*krate, core@),
{
    let d = &krate.defs[core.def];
    let adt = match krate.adt(core.def) {
        Some(a) => a,
        None => {
            return ApiSnippets::empty();
        },
    };
    let ApiSnippets {
        main_api: members_main,
        cc_details: members_details,
        rs_details: members_rs,
    } = format_members(krate, core);
    let ApiSnippets { main_api: fields_main, cc_details: fields_details, rs_details: fields_rs } =
        format_fields(krate, core);

    let mut prereqs = CcPrerequisites::new();
    prereqs.includes.insert(krate.support_header("internal/attribute_macros.h"));
    let members_main_tokens = members_main.into_tokens(&mut prereqs);
    let fields_main_tokens = fields_main.into_tokens(&mut prereqs);
    prereqs.fwd_decls.remove(core.def);
    let mut tokens = String::from_str("__NEWLINE__ ");
    tokens.append(format_doc_comment(d).as_str());
    tokens.append(core.keyword.as_str());
    tokens.append(" ");
    tokens.append(format_adt_attributes(core, adt).as_str());
    tokens.append(core.cc_short_name.as_str());
    tokens.append(" final { public : __NEWLINE__ ");
    tokens.append(members_main_tokens.as_str());
    tokens.append(fields_main_tokens.as_str());
    tokens.append("} ; __NEWLINE__ ");
    let main_api = CcSnippet { tokens, prereqs };

    let mut prereqs = CcPrerequisites::new();
    let members_details_tokens = members_details.into_tokens(&mut prereqs);
    let fields_details_tokens = fields_details.into_tokens(&mut prereqs);
    prereqs.defs.insert(core.def);
    let mut tokens = format_cc_layout_assertions(core);
    tokens.append(members_details_tokens.as_str());
    tokens.append(fields_details_tokens.as_str());
    let cc_details = CcSnippet { tokens, prereqs };

    let mut rs_details = format_rs_layout_assertions(core);
    rs_details.append(members_rs.as_str());
    rs_details.append(fields_rs.as_str());
    ApiSnippets { main_api, cc_details, rs_details }
}

/// The forward declaration of a bound type, `struct Name ;`.
pub open spec fn fwd_decl(core: AdtCoreView) -> Seq<char> {
    core.keyword + " "@ + core.cc_short_name + " ; "@
}

/// Writes the forward declaration of a bound type.
pub fn format_fwd_decl(core: &AdtCoreBindings) -> (r: String)
    ensures
        r@ == fwd_decl(core@),
{
    let mut s = core.keyword.clone();
    s.append(" ");
    s.append(core.cc_short_name.as_str());
    s.append(" ; ");
    s
}

} // verus!
