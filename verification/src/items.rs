//! The binding of one item of a crate, whatever its kind.

use vstd::prelude::*;
use vstd::string::*;
use crate::adt::{adt_binding, format_adt};
use crate::fields::{check_layout, layout_fits};
use crate::cc_ident::{cc_ident, format_cc_ident};
use crate::error::Error;
use crate::function::{bound_name, fn_binding, fn_of, format_fn};
use crate::prereqs::{ApiSnippets, ApiView, CcPrerequisites, CcSnippet, PrereqsView};
use crate::rs_model::{Crate, Def, DefKind, Ty, UseDef, UseKind, UseTarget};
use crate::text::str_eq;
use crate::type_map::{
    adt_core, cc_type, def_cc_name, format_adt_core, format_ty_for_cc, in_context, Messages,
    TypeLocation,
};

verus! {

/// A new name for a type: `using Name = type ;`.
pub open spec fn type_alias(krate: Crate, alias_name: Seq<char>, ty: Ty) -> Result<
    ApiView,
    Messages,
> {
    match cc_type(krate, ty, TypeLocation::Other) {
        Err(e) => Err(e),
        Ok(cc) => match in_context("Error formatting type alias name"@, cc_ident(alias_name)) {
            Err(e) => Err(e),
            Ok(name) => Ok(
                ApiView {
                    main_tokens: "using "@ + name + " = "@ + cc.tokens + "; "@,
                    main_prereqs: PrereqsView::empty().plus(cc.prereqs),
                    ..ApiView::empty()
                },
            ),
        },
    }
}

/// A bundle result and the function's result agree.
pub open spec fn api_is(r: Result<ApiSnippets, Error>, expected: Result<ApiView, Messages>) -> bool {
    match expected {
        Ok(v) => r matches Ok(a) && a@ == v,
        Err(e) => r matches Err(x) && x@ == e,
    }
}

/// Binds a new name for a type.
pub fn create_type_alias(krate: &Crate, alias_name: &str, alias_type: &Ty) -> (r: Result<
    ApiSnippets,
    Error,
>)
    ensures
        api_is(r, type_alias(*krate, alias_name@, *alias_type)),
{
    let cc = match format_ty_for_cc(krate, alias_type, TypeLocation::Other) {
        Ok(s) => s,
        Err(e) => {
            return Err(e);
        },
    };
    let mut prereqs = CcPrerequisites::new();
    let actual_type_name = cc.into_tokens(&mut prereqs);
    let name = match format_cc_ident(alias_name) {
        Ok(n) => n,
        Err(e) => {
            return Err(e.context(String::from_str("Error formatting type alias name")));
        },
    };
    let mut tokens = String::from_str("using ");
    tokens.append(name.as_str());
    tokens.append(" = ");
    tokens.append(actual_type_name.as_str());
    tokens.append("; ");
    let r = ApiSnippets {
        main_api: CcSnippet { tokens, prereqs },
        cc_details: CcSnippet::empty(),
        rs_details: String::new(),
    };
    assert(r@.rs_details =~= Seq::<char>::empty());
    Ok(r)
}

/// How a kind of `use` is named in messages.
pub open spec fn use_kind_name(kind: UseKind) -> Seq<char> {
    match kind {
        UseKind::Single => "Single"@,
        UseKind::Glob => "Glob"@,
        UseKind::ListStem => "ListStem"@,
    }
}

/// The import of a function into a namespace: `using path ;`. The
/// function must be one of the crate that has a binding, and keep its
/// name.
pub open spec fn use_of_fn(krate: Crate, using_name: Seq<char>, f: usize) -> Result<
    ApiView,
    Messages,
> {
    let d = krate.defs@[f as int];
    if !d.is_local {
        Err(seq!["Unsupported checking for external function"@])
    } else if fn_of(krate, f) is None || fn_binding(krate, f) is Err {
        Err(seq!["Ignoring the use because the bindings for the target is not generated"@])
    } else {
        match def_cc_name(d, None) {
            Err(e) => Err(e),
            Ok(path) => match in_context(
                "Error formatting function name"@,
                cc_ident(bound_name(d, fn_of(krate, f)->0)),
            ) {
                Err(e) => Err(e),
                Ok(fn_name) => match in_context(
                    "Error formatting using name"@,
                    cc_ident(using_name),
                ) {
                    Err(e) => Err(e),
                    Ok(using) => if using == fn_name {
                        Ok(
                            ApiView {
                                main_tokens: "using "@ + path + "; "@,
                                main_prereqs: fn_binding(krate, f)->Ok_0.main_prereqs.with_def(f),
                                ..ApiView::empty()
                            },
                        )
                    } else {
                        Err(seq!["Unsupported function alias"@])
                    },
                },
            },
        }
    }
}

/// The binding of a `use` item, or why it has none. Bound are the import
/// of one function or type that is public under its own path.
pub open spec fn use_binding(krate: Crate, using_name: Seq<char>, u: UseDef) -> Result<
    ApiView,
    Messages,
> {
    if u.targets@.len() != 1 {
        Err(
            seq![
                "use statements which resolve to multiple items with the same name are not supported yet"@,
            ],
        )
    } else if u.kind != UseKind::Single {
        Err(seq!["Unsupported use kind: "@ + use_kind_name(u.kind)])
    } else {
        match u.targets@[0] {
            UseTarget::NotADef(shown) => Err(
                seq![
                    "Unsupported use statement that refers to this type of the entity: "@ + shown@,
                ],
            ),
            UseTarget::OtherDef(_) => Err(
                seq![
                    "Unsupported use statement that refers to this type of the entity: "@
                        + u.targets_display@,
                ],
            ),
            UseTarget::Fn(f) => if f >= krate.defs@.len() || !krate.defs@[f as int].is_directly_public {
                Err(
                    seq![
                        "Not directly public type (re-exports are not supported yet - b/262052635)"@,
                    ],
                )
            } else {
                use_of_fn(krate, using_name, f)
            },
            UseTarget::Type(a, ty) => if a >= krate.defs@.len()
                || !krate.defs@[a as int].is_directly_public {
                Err(
                    seq![
                        "Not directly public type (re-exports are not supported yet - b/262052635)"@,
                    ],
                )
            } else {
                type_alias(krate, using_name, ty)
            },
        }
    }
}

/// Binds the import of a function into a namespace.
pub fn format_use_of_fn(krate: &Crate, using_name: &str, f: usize) -> (r: Result<
    ApiSnippets,
    Error,
>)
    requires
        f < krate.defs@.len(),
    ensures
        api_is(r, use_of_fn(*krate, using_name@, f)),
{
    let d = &krate.defs[f];
    if !d.is_local {
        return Err(Error::new("Unsupported checking for external function"));
    }
    let fd = match krate.function(f) {
        Some(fd) => fd,
        None => {
            return Err(
                Error::new("Ignoring the use because the bindings for the target is not generated"),
            );
        },
    };
    let mut prereqs = match format_fn(krate, f) {
        Ok(snippet) => snippet.main_api.prereqs,
        Err(_) => {
            return Err(
                Error::new("Ignoring the use because the bindings for the target is not generated"),
            );
        },
    };
    let path = match d.qualified_name(&None).format_for_cc() {
        Ok(p) => p,
        Err(e) => {
            return Err(e);
        },
    };
    let bound: &str = match &fd.cpp_name {
        Some(n) => n.as_str(),
        None => match &d.name {
            Some(n) => n.as_str(),
            None => {
                return Err(Error::new("An item without a name has no C++ name"));
            },
        },
    };
    let fn_name = match format_cc_ident(bound) {
        Ok(n) => n,
        Err(e) => {
            return Err(e.context(String::from_str("Error formatting function name")));
        },
    };
    let using = match format_cc_ident(using_name) {
        Ok(n) => n,
        Err(e) => {
            return Err(e.context(String::from_str("Error formatting using name")));
        },
    };
    prereqs.defs.insert(f);
    if !str_eq(using.as_str(), fn_name.as_str()) {
        return Err(Error::new("Unsupported function alias"));
    }
    let mut tokens = String::from_str("using ");
    tokens.append(path.as_str());
    tokens.append("; ");
    let r = ApiSnippets {
        main_api: CcSnippet { tokens, prereqs },
        cc_details: CcSnippet::empty(),
        rs_details: String::new(),
    };
    assert(r@.rs_details =~= Seq::<char>::empty());
    Ok(r)
}

/// Binds a `use` item.
pub fn format_use(krate: &Crate, using_name: &str, u: &UseDef) -> (r: Result<ApiSnippets, Error>)
    ensures
        api_is(r, use_binding(*krate, using_name@, *u)),
{
    if u.targets.len() != 1 {
        return Err(
            Error::new(
                "use statements which resolve to multiple items with the same name are not supported yet",
            ),
        );
    }
    match u.kind {
        UseKind::Single => {},
        UseKind::Glob => {
            let mut m = String::from_str("Unsupported use kind: ");
            m.append("Glob");
            return Err(Error::msg(m));
        },
        UseKind::ListStem => {
            let mut m = String::from_str("Unsupported use kind: ");
            m.append("ListStem");
            return Err(Error::msg(m));
        },
    }
    match &u.targets[0] {
        UseTarget::NotADef(shown) => {
            let mut m = String::from_str(
                "Unsupported use statement that refers to this type of the entity: ",
            );
            m.append(shown.as_str());
            Err(Error::msg(m))
        },
        UseTarget::OtherDef(_) => {
            let mut m = String::from_str(
                "Unsupported use statement that refers to this type of the entity: ",
            );
            m.append(u.targets_display.as_str());
            Err(Error::msg(m))
        },
        UseTarget::Fn(f) => {
            if *f >= krate.defs.len() || !krate.defs[*f].is_directly_public {
                return Err(
                    Error::new(
                        "Not directly public type (re-exports are not supported yet - b/262052635)",
                    ),
                );
            }
            format_use_of_fn(krate, using_name, *f)
        },
        UseTarget::Type(a, ty) => {
            if *a >= krate.defs.len() || !krate.defs[*a].is_directly_public {
                return Err(
                    Error::new(
                        "Not directly public type (re-exports are not supported yet - b/262052635)",
                    ),
                );
            }
            create_type_alias(krate, using_name, ty)
        },
    }
}

/// The name of an item, empty for an item without one.
pub open spec fn item_name(d: Def) -> Seq<char> {
    match d.name {
        Some(n) => n@,
        None => Seq::empty(),
    }
}

/// The binding of the item that `def` names: nothing for an item that is
/// not public under its own path, for an impl and for a module; else the
/// binding of the function, of the type, of the alias or of the import; or
/// why the item has none.
pub open spec fn item_binding(krate: Crate, def: usize) -> Result<Option<ApiView>, Messages>
    recommends
        def < krate.defs@.len(),
{
    let d = krate.defs@[def as int];
    if !d.is_directly_public {
        Ok(None)
    } else {
        match d.kind {
            DefKind::Fn(_) => match fn_binding(krate, def) {
                Ok(a) => Ok(Some(a)),
                Err(e) => Err(e),
            },
            DefKind::Adt(adt) => if adt.generic_params != 0 {
                Err(seq!["Generic types are not supported yet (b/259749095)"@])
            } else {
                match adt_core(krate, def) {
                    Ok(core) => Ok(Some(adt_binding(krate, core))),
                    Err(e) => Err(e),
                }
            },
            DefKind::TyAlias(ty) => match type_alias(krate, item_name(d), ty) {
                Ok(a) => Ok(Some(a)),
                Err(e) => Err(e),
            },
            DefKind::Use(u) => match use_binding(krate, item_name(d), u) {
                Ok(a) => Ok(Some(a)),
                Err(e) => Err(e),
            },
            DefKind::Impl => Ok(None),
            DefKind::Mod => Ok(None),
            DefKind::Other(descr) => Err(
                seq!["Unsupported rustc_hir::hir::ItemKind: "@ + descr@],
            ),
        }
    }
}

/// An optional bundle result and the function's result agree.
pub open spec fn item_result_is(
    r: Result<Option<ApiSnippets>, Error>,
    expected: Result<Option<ApiView>, Messages>,
) -> bool {
    match expected {
        Ok(None) => r matches Ok(None),
        Ok(Some(v)) => r matches Ok(Some(a)) && a@ == v,
        Err(e) => r matches Err(x) && x@ == e,
    }
}

/// Whether the item that `def` names, where it is a type with a core, has
/// a layout that a compiler gives.
pub open spec fn item_layout_fits(krate: Crate, def: usize) -> bool
    recommends
        def < krate.defs@.len(),
{
    krate.defs@[def as int].kind is Adt ==> match adt_core(krate, def) {
        Ok(core) => layout_fits(krate, core),
        Err(_) => true,
    }
}

/// Tests the layout of the item that `def` names.
pub fn check_item_layout(krate: &Crate, def: usize) -> (r: bool)
    requires
        def < krate.defs@.len(),
    ensures
        r == item_layout_fits(*krate, def),
{
    match &krate.defs[def].kind {
        DefKind::Adt(_) => match format_adt_core(krate, def) {
            Ok(core) => check_layout(krate, &core),
            Err(_) => true,
        },
        _ => true,
    }
}

/// Binds the item that `def` names. `Ok(None)` says that the item needs
/// no binding.
pub fn format_item(krate: &Crate, def: usize) -> (r: Result<Option<ApiSnippets>, Error>)
    requires
        def < krate.defs@.len(),
        item_layout_fits(*krate, def),
    ensures
        item_result_is(r, item_binding(*krate, def)),
{
    let d = &krate.defs[def];
    if !d.is_directly_public {
        return Ok(None);
    }
    let name: &str = match &d.name {
        Some(n) => n.as_str(),
        None => {
            proof {
                reveal_strlit("");
                assert(""@ =~= Seq::<char>::empty());
            }
            ""
        },
    };
    match &d.kind {
        DefKind::Fn(_) => match format_fn(krate, def) {
            Ok(a) => Ok(Some(a)),
            Err(e) => Err(e),
        },
        DefKind::Adt(adt) => {
            if adt.generic_params != 0 {
                return Err(Error::new("Generic types are not supported yet (b/259749095)"));
            }
            match format_adt_core(krate, def) {
                Ok(core) => Ok(Some(format_adt(krate, &core))),
                Err(e) => Err(e),
            }
        },
        DefKind::TyAlias(ty) => match create_type_alias(krate, name, ty) {
            Ok(a) => Ok(Some(a)),
            Err(e) => Err(e),
        },
        DefKind::Use(u) => match format_use(krate, name, u) {
            Ok(a) => Ok(Some(a)),
            Err(e) => Err(e),
        },
        DefKind::Impl => Ok(None),
        DefKind::Mod => Ok(None),
        DefKind::Other(descr) => {
            let mut m = String::from_str("Unsupported rustc_hir::hir::ItemKind: ");
            m.append(descr.as_str());
            Err(Error::msg(m))
        },
    }
}

} // verus!
