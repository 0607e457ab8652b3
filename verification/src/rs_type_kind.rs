//! The kinds of Rust types that the types of a C++ interface are bound to,
//! and the reading of a type of the description as one of them.

use vstd::prelude::*;
use vstd::string::*;
use crate::cc_type_names::{has_prefix, strip_prefix};
use crate::error::Error;
use crate::features::{
    bindings_of, has_bindings, reason_error, HasBindings, HasBindingsView, ItemTypes,
    NoBindingsReason, ReasonView, TypesOfItems,
};
use crate::ir::{
    item_id, BazelLabel, Enum, IncompleteRecord, Item, ItemId, Record, RsType, TypeAlias,
    TypeMapOverride,
};
use crate::ir_db::{lifetime_at, lifetime_params_of, IR};
use crate::ir_queries::{
    all_can_be_named, can_be_named, imported_crate_name, item_debug_name, namespace_qualifier_of,
    rs_imported_crate_name, GenericItem,
};
use crate::names::NamespaceQualifier;
use crate::text::{decimal, opt_view, push_decimal, str_eq};
use crate::type_map::Messages;

verus! {

/// Whether a pointer or reference gives the right to write.
#[derive(Debug, Clone, Copy, PartialEq, Eq, Structural)]
pub enum Mutability {
    Const,
    Mut,
}

/// Where in Rust an item is found: the crate, where it is another than
/// the one being made, the module under the root that holds the bindings,
/// and the modules of the item's namespaces.
#[derive(Debug)]
pub struct CratePath {
    pub crate_ident: Option<String>,
    pub crate_root_path: Option<String>,
    pub namespace_qualifier: NamespaceQualifier,
}

/// The values of a `CratePath`.
pub struct CratePathView {
    pub crate_ident: Option<Seq<char>>,
    pub crate_root_path: Option<Seq<char>>,
    pub namespace_qualifier: Seq<Seq<char>>,
}

impl View for CratePath {
    type V = CratePathView;

    open spec fn view(&self) -> CratePathView {
        CratePathView {
            crate_ident: opt_view(self.crate_ident),
            crate_root_path: opt_view(self.crate_root_path),
            namespace_qualifier: self.namespace_qualifier.parts(),
        }
    }
}

/// A Rust type that a type of the description is bound to.
#[derive(Debug)]
pub enum RsTypeKind {
    Pointer { pointee: Box<RsTypeKind>, mutability: Mutability },
    Reference { referent: Box<RsTypeKind>, mutability: Mutability, lifetime: String },
    RvalueReference { referent: Box<RsTypeKind>, mutability: Mutability, lifetime: String },
    FuncPtr { abi: String, return_type: Box<RsTypeKind>, param_types: Vec<RsTypeKind> },
    IncompleteRecord { id: ItemId, crate_path: CratePath },
    Record { id: ItemId, crate_path: CratePath },
    Enum { id: ItemId, crate_path: CratePath },
    TypeAlias { id: ItemId, crate_path: CratePath, underlying_type: Box<RsTypeKind> },
    Primitive(String),
    Option(Box<RsTypeKind>),
    Other { name: String, type_args: Vec<RsTypeKind>, is_same_abi: bool },
}

/// The values of an `RsTypeKind`.
pub enum KindView {
    Pointer { pointee: Box<KindView>, mutability: Mutability },
    Reference { referent: Box<KindView>, mutability: Mutability, lifetime: Seq<char> },
    RvalueReference { referent: Box<KindView>, mutability: Mutability, lifetime: Seq<char> },
    FuncPtr { abi: Seq<char>, return_type: Box<KindView>, param_types: Seq<KindView> },
    IncompleteRecord { id: ItemId, crate_path: CratePathView },
    Record { id: ItemId, crate_path: CratePathView },
    Enum { id: ItemId, crate_path: CratePathView },
    TypeAlias { id: ItemId, crate_path: CratePathView, underlying_type: Box<KindView> },
    Primitive(Seq<char>),
    Option(Box<KindView>),
    Other { name: Seq<char>, type_args: Seq<KindView>, is_same_abi: bool },
}

/// The values of a kind.
pub open spec fn kind_view(k: RsTypeKind) -> KindView
    decreases k, 0int,
{
    match k {
        RsTypeKind::Pointer { pointee, mutability } => KindView::Pointer {
            pointee: Box::new(kind_view(*pointee)),
            mutability,
        },
        RsTypeKind::Reference { referent, mutability, lifetime } => KindView::Reference {
            referent: Box::new(kind_view(*referent)),
            mutability,
            lifetime: lifetime@,
        },
        RsTypeKind::RvalueReference { referent, mutability, lifetime } => KindView::RvalueReference {
            referent: Box::new(kind_view(*referent)),
            mutability,
            lifetime: lifetime@,
        },
        RsTypeKind::FuncPtr { abi, return_type, param_types } => KindView::FuncPtr {
            abi: abi@,
            return_type: Box::new(kind_view(*return_type)),
            param_types: kind_views(param_types@, param_types@.len() as int),
        },
        RsTypeKind::IncompleteRecord { id, crate_path } => KindView::IncompleteRecord {
            id,
            crate_path: crate_path@,
        },
        RsTypeKind::Record { id, crate_path } => KindView::Record { id, crate_path: crate_path@ },
        RsTypeKind::Enum { id, crate_path } => KindView::Enum { id, crate_path: crate_path@ },
        RsTypeKind::TypeAlias { id, crate_path, underlying_type } => KindView::TypeAlias {
            id,
            crate_path: crate_path@,
            underlying_type: Box::new(kind_view(*underlying_type)),
        },
        RsTypeKind::Primitive(name) => KindView::Primitive(name@),
        RsTypeKind::Option(inner) => KindView::Option(Box::new(kind_view(*inner))),
        RsTypeKind::Other { name, type_args, is_same_abi } => KindView::Other {
            name: name@,
            type_args: kind_views(type_args@, type_args@.len() as int),
            is_same_abi,
        },
    }
}

/// The values of the first `n` kinds of a list.
pub open spec fn kind_views(v: Seq<RsTypeKind>, n: int) -> Seq<KindView>
    decreases v, n,
{
    if n <= 0 || n > v.len() {
        Seq::empty()
    } else {
        kind_views(v, n - 1).push(kind_view(v[n - 1]))
    }
}

/// Whether a value of the kind crosses the boundary between the languages
/// unchanged when it is passed by value: a record does not, an alias does
/// where its type does, a type that stands for a type of Rust does where
/// it says so, and every other kind does.
pub open spec fn kind_abi_trivial(k: KindView) -> bool
    decreases k,
{
    match k {
        KindView::TypeAlias { underlying_type, .. } => kind_abi_trivial(*underlying_type),
        KindView::IncompleteRecord { .. } => false,
        KindView::Record { .. } => false,
        KindView::Other { is_same_abi, .. } => is_same_abi,
        _ => true,
    }
}

impl RsTypeKind {
    /// Whether a value of the kind may be passed by value under the C
    /// calling convention.
    pub fn is_c_abi_compatible_by_value(&self) -> (r: bool)
        ensures
            r == kind_abi_trivial(kind_view(*self)),
        decreases self,
    {
        match self {
            RsTypeKind::TypeAlias { underlying_type, .. } => underlying_type.is_c_abi_compatible_by_value(),
            RsTypeKind::IncompleteRecord { .. } => false,
            RsTypeKind::Record { .. } => false,
            RsTypeKind::Other { is_same_abi, .. } => *is_same_abi,
            _ => true,
        }
    }
}

/// The names of the types that Rust has by itself, and of the types of C
/// that its library names.
pub open spec fn is_primitive_name(name: Seq<char>) -> bool {
    name == "()"@ || name == "!"@ || name == "bool"@ || name == "u8"@ || name == "i8"@ || name
        == "u16"@ || name == "i16"@ || name == "u32"@ || name == "i32"@ || name == "u64"@ || name
        == "i64"@ || name == "usize"@ || name == "isize"@ || name == "f32"@ || name == "f64"@
        || name == "::core::ffi::c_char"@ || name == "::core::ffi::c_schar"@ || name
        == "::core::ffi::c_uchar"@ || name == "::core::ffi::c_short"@ || name
        == "::core::ffi::c_ushort"@ || name == "::core::ffi::c_int"@ || name
        == "::core::ffi::c_uint"@ || name == "::core::ffi::c_long"@ || name
        == "::core::ffi::c_ulong"@ || name == "::core::ffi::c_longlong"@ || name
        == "::core::ffi::c_ulonglong"@ || name == "::core::ffi::c_void"@
}

/// Whether a name is that of a primitive type.
pub fn check_primitive_name(name: &str) -> (r: bool)
    ensures
        r == is_primitive_name(name@),
{
    str_eq(name, "()") || str_eq(name, "!") || str_eq(name, "bool") || str_eq(name, "u8") || str_eq(
        name,
        "i8",
    ) || str_eq(name, "u16") || str_eq(name, "i16") || str_eq(name, "u32") || str_eq(name, "i32")
        || str_eq(name, "u64") || str_eq(name, "i64") || str_eq(name, "usize") || str_eq(
        name,
        "isize",
    ) || str_eq(name, "f32") || str_eq(name, "f64") || str_eq(name, "::core::ffi::c_char")
        || str_eq(name, "::core::ffi::c_schar") || str_eq(name, "::core::ffi::c_uchar") || str_eq(
        name,
        "::core::ffi::c_short",
    ) || str_eq(name, "::core::ffi::c_ushort") || str_eq(name, "::core::ffi::c_int") || str_eq(
        name,
        "::core::ffi::c_uint",
    ) || str_eq(name, "::core::ffi::c_long") || str_eq(name, "::core::ffi::c_ulong") || str_eq(
        name,
        "::core::ffi::c_longlong",
    ) || str_eq(name, "::core::ffi::c_ulonglong") || str_eq(name, "::core::ffi::c_void")
}

/// Where in Rust the item with the given id and owner is found.
pub open spec fn crate_path_of(ir: IR, id: ItemId, owning_target: BazelLabel) -> Result<
    CratePathView,
    Messages,
> {
    match namespace_qualifier_of(ir, id) {
        Err(e) => Err(e),
        Ok(ns) => Ok(
            CratePathView {
                crate_ident: imported_crate_name(ir, owning_target),
                crate_root_path: opt_view(ir.root_path()),
                namespace_qualifier: ns,
            },
        ),
    }
}

/// Finds where in Rust an item is.
pub fn make_crate_path<T: GenericItem>(ir: &IR, item: &T, owning_target: &BazelLabel) -> (r: Result<
    CratePath,
    Error,
>)
    ensures
        match crate_path_of(*ir, item_id(item.as_item()), *owning_target) {
            Ok(v) => r matches Ok(p) && p@ == v,
            Err(e) => r matches Err(x) && x@ == e,
        },
{
    match ir.namespace_qualifier(item) {
        Err(e) => Err(e),
        Ok(namespace_qualifier) => Ok(
            CratePath {
                crate_ident: rs_imported_crate_name(owning_target, ir),
                crate_root_path: ir.crate_root_path(),
                namespace_qualifier,
            },
        ),
    }
}

/// The name of the lifetime of a reference: a reference has exactly one
/// lifetime, which the description must know.
pub open spec fn lifetime_of(ir: IR, ty: RsType) -> Result<Seq<char>, Messages> {
    if ty.lifetime_args@.len() != 1 {
        Err(seq!["Missing reference lifetime (need exactly 1 lifetime argument)"@])
    } else if exists|i: int, p: int|
        lifetime_at(ir.all_items(), i, p) && (#[trigger] lifetime_params_of(
            ir.all_items()[i],
        )[p]).id == ty.lifetime_args@[0] {
        let (i, p) = choose|i: int, p: int|
            lifetime_at(ir.all_items(), i, p) && (#[trigger] lifetime_params_of(
                ir.all_items()[i],
            )[p]).id == ty.lifetime_args@[0];
        Ok(lifetime_params_of(ir.all_items()[i])[p].name@)
    } else {
        Err(
            seq![
                "no known lifetime with id "@ + crate::text::signed_decimal(
                    ty.lifetime_args@[0].0 as int,
                ),
            ],
        )
    }
}

/// The binding of a type, or why it has none, given the bindings of its
/// type arguments. A type is read by its name: pointers, references and
/// options take one argument; a primitive takes none; a pointer to a
/// function takes the types of its parameters and, last, of its result,
/// which must all cross the boundary by value, as no thunk stands between
/// the pointer and its callers; any other name is a type that Rust has
/// under that name.
pub open spec fn named_kind(
    ir: IR,
    ty: RsType,
    name: Seq<char>,
    args: Result<Seq<KindView>, Messages>,
) -> Result<KindView, Messages> {
    let pointee: Result<KindView, Messages> = if ty.type_args@.len() != 1 {
        Err(seq!["Missing pointee/referent type (need exactly 1 type argument): "@ + name])
    } else {
        match args {
            Err(e) => Err(e),
            Ok(a) => Ok(a[0]),
        }
    };
    if name == "*mut"@ || name == "*const"@ {
        match pointee {
            Err(e) => Err(e),
            Ok(p) => Ok(
                KindView::Pointer {
                    pointee: Box::new(p),
                    mutability: if name == "*mut"@ {
                        Mutability::Mut
                    } else {
                        Mutability::Const
                    },
                },
            ),
        }
    } else if name == "&mut"@ || name == "&"@ {
        match pointee {
            Err(e) => Err(e),
            Ok(p) => match lifetime_of(ir, ty) {
                Err(e) => Err(e),
                Ok(lifetime) => Ok(
                    KindView::Reference {
                        referent: Box::new(p),
                        mutability: if name == "&mut"@ {
                            Mutability::Mut
                        } else {
                            Mutability::Const
                        },
                        lifetime,
                    },
                ),
            },
        }
    } else if name == "#RvalueReference mut"@ || name == "#RvalueReference const"@ {
        match pointee {
            Err(e) => Err(e),
            Ok(p) => match lifetime_of(ir, ty) {
                Err(e) => Err(e),
                Ok(lifetime) => Ok(
                    KindView::RvalueReference {
                        referent: Box::new(p),
                        mutability: if name == "#RvalueReference mut"@ {
                            Mutability::Mut
                        } else {
                            Mutability::Const
                        },
                        lifetime,
                    },
                ),
            },
        }
    } else {
        match args {
            Err(e) => Err(e),
            Ok(a) => if name == "Option"@ {
                if a.len() != 1 {
                    Err(
                        seq![
                            "Option should have exactly 1 type argument (got "@ + decimal(a.len())
                                + ")"@,
                        ],
                    )
                } else {
                    Ok(KindView::Option(Box::new(a[0])))
                }
            } else if is_primitive_name(name) {
                if a.len() != 0 {
                    Err(seq![name + " type must not have type arguments"@])
                } else {
                    Ok(KindView::Primitive(name))
                }
            } else if has_prefix(name, "#funcPtr "@) {
                if lifetime_of(ir, ty) is Ok && lifetime_of(ir, ty)->Ok_0 != "static"@ {
                    Err(seq!["A function pointer must have the static lifetime or none"@])
                } else if a.len() == 0 {
                    Err(seq!["A function pointer must have at least a return type"@])
                } else if !all_abi_trivial(a, a.len() as int) {
                    Err(
                        seq![
                            "Either the return type or some of the parameter types require an FFI thunk (and function pointers don't have a thunk)"@,
                        ],
                    )
                } else {
                    Ok(
                        KindView::FuncPtr {
                            abi: name.subrange("#funcPtr "@.len() as int, name.len() as int),
                            return_type: Box::new(a[a.len() - 1]),
                            param_types: a.subrange(0, a.len() - 1),
                        },
                    )
                }
            } else {
                Ok(KindView::Other { name, type_args: a, is_same_abi: true })
            },
        }
    }
}

/// Whether the first `n` kinds all cross the boundary by value.
pub open spec fn all_abi_trivial(a: Seq<KindView>, n: int) -> bool
    decreases n,
{
    if n <= 0 || n > a.len() {
        true
    } else {
        all_abi_trivial(a, n - 1) && kind_abi_trivial(a[n - 1])
    }
}

/// The binding of a type of the description, or why it has none, hopping
/// from a type to the item that defines it at most `fuel` times.
///
/// A type with attributes that are not understood has none. A type
/// without a name is the type that an item defines: the item must have
/// bindings, else the type has none, but for an alias, whose type is used
/// in its place unless the alias lacks a feature.
pub open spec fn rs_kind(ir: IR, ty: RsType, types: Seq<(ItemId, ItemTypes)>, fuel: nat) -> Result<
    KindView,
    Messages,
>
    decreases fuel, ty, 0int,
{
    if ty.unknown_attr is Some {
        Err(seq!["unknown attribute(s): "@ + ty.unknown_attr->0@])
    } else {
        match ty.name {
            Some(name) => named_kind(
                ir,
                ty,
                name@,
                rs_kinds(ir, ty.type_args@, types, fuel, ty.type_args@.len() as int),
            ),
            None => if ty.type_args@.len() != 0 {
                Err(
                    seq![
                        "Type arguments on records nor type aliases are not yet supported"@,
                    ],
                )
            } else if ty.decl_id is None {
                Err(seq!["Type does not have an associated item."@])
            } else {
                match ir.item_with(ty.decl_id->0) {
                    None => Err(
                        seq![
                            "DeclId "@ + decimal((ty.decl_id->0).0 as nat) + " doesn't refer to a "@
                                + "Item"@,
                        ],
                    ),
                    Some(item) => if fuel == 0 {
                        Err(seq!["The types of the items form a cycle"@])
                    } else {
                        item_kind(ir, item, types, (fuel - 1) as nat)
                    },
                }
            },
        }
    }
}

/// The bindings of the first `n` types of a list; the error of the first
/// that has none.
pub open spec fn rs_kinds(
    ir: IR,
    tys: Seq<RsType>,
    types: Seq<(ItemId, ItemTypes)>,
    fuel: nat,
    n: int,
) -> Result<Seq<KindView>, Messages>
    decreases fuel, tys, n,
{
    if n <= 0 || n > tys.len() {
        Ok(Seq::empty())
    } else {
        match rs_kinds(ir, tys, types, fuel, n - 1) {
            Err(e) => Err(e),
            Ok(before) => match rs_kind(ir, tys[n - 1], types, fuel) {
                Err(e) => Err(e),
                Ok(k) => Ok(before.push(k)),
            },
        }
    }
}

/// The binding of the type that an item defines.
pub open spec fn item_kind(ir: IR, item: Item, types: Seq<(ItemId, ItemTypes)>, fuel: nat) -> Result<
    KindView,
    Messages,
>
    decreases fuel, item, 1int,
{
    let verdict = bindings_of(ir, item, types, ir.all_items().len());
    let falls_back = item is TypeAlias && !(verdict is Yes) && !(verdict matches HasBindingsView::No(
        ReasonView::MissingRequiredFeatures { .. },
    ));
    if falls_back {
        if fuel == 0 {
            Err(seq!["The types of the items form a cycle"@])
        } else {
            rs_kind(ir, item->TypeAlias_0.underlying_type.rs_type, types, (fuel - 1) as nat)
        }
    } else {
        match verdict {
            HasBindingsView::Maybe => Err(
                seq![
                    "Type "@ + item_debug_name(ir, item) + " may or may not exist, and cannot be used."@,
                ],
            ),
            HasBindingsView::No(reason) => Err(reason_error(reason)),
            HasBindingsView::Yes => match item {
                Item::IncompleteRecord(r) => match crate_path_of(ir, r.id, r.owning_target) {
                    Err(e) => Err(e),
                    Ok(crate_path) => Ok(KindView::IncompleteRecord { id: r.id, crate_path }),
                },
                Item::Record(r) => match crate_path_of(ir, r.id, r.owning_target) {
                    Err(e) => Err(e),
                    Ok(crate_path) => Ok(KindView::Record { id: r.id, crate_path }),
                },
                Item::Enum(e) => match crate_path_of(ir, e.id, e.owning_target) {
                    Err(x) => Err(x),
                    Ok(crate_path) => Ok(KindView::Enum { id: e.id, crate_path }),
                },
                Item::TypeAlias(a) => if fuel == 0 {
                    Err(seq!["The types of the items form a cycle"@])
                } else {
                    match rs_kind(ir, a.underlying_type.rs_type, types, (fuel - 1) as nat) {
                        Err(e) => Err(e),
                        Ok(underlying) => match crate_path_of(ir, a.id, a.owning_target) {
                            Err(e) => Err(e),
                            Ok(crate_path) => Ok(
                                KindView::TypeAlias {
                                    id: a.id,
                                    crate_path,
                                    underlying_type: Box::new(underlying),
                                },
                            ),
                        },
                    }
                },
                Item::TypeMapOverride(o) => Ok(
                    KindView::Other {
                        name: o.rs_name@,
                        type_args: Seq::empty(),
                        is_same_abi: o.is_same_abi,
                    },
                ),
                _ => Err(seq!["Item does not define a type"@]),
            },
        }
    }
}

/// A kind result and the function's result agree.
pub open spec fn kind_is(r: Result<RsTypeKind, Error>, expected: Result<KindView, Messages>) -> bool {
    match expected {
        Ok(v) => r matches Ok(k) && kind_view(k) == v,
        Err(e) => r matches Err(x) && x@ == e,
    }
}

/// Finds the name of the lifetime of a reference.
pub fn get_lifetime_name(ir: &IR, ty: &RsType) -> (r: Result<String, Error>)
    ensures
        crate::names::text_result_is(r, lifetime_of(*ir, *ty)),
{
    if ty.lifetime_args.len() != 1 {
        return Err(Error::new("Missing reference lifetime (need exactly 1 lifetime argument)"));
    }
    let lifetime_id = ty.lifetime_args[0];
    proof {
        use_type_invariant(ir);
        ir.lemma_positions();
    }
    match ir.get_lifetime(lifetime_id) {
        Some(l) => {
            proof {
                let (i, p) = choose|i: int, p: int|
                    lifetime_at(ir.all_items(), i, p) && (#[trigger] lifetime_params_of(
                        ir.all_items()[i],
                    )[p]).id == ty.lifetime_args@[0];
                let (j, q) = choose|j: int, q: int|
                    lifetime_at(ir.all_items(), j, q) && #[trigger] lifetime_params_of(
                        ir.all_items()[j],
                    )[q] == *l;
                assert(lifetime_params_of(ir.all_items()[j])[q].id == ty.lifetime_args@[0]);
                assert(i == j && p == q);
            }
            Ok(l.name.clone())
        },
        None => {
            let mut m = String::from_str("no known lifetime with id ");
            m.append(crate::text::signed_decimal_string(lifetime_id.0).as_str());
            Err(Error::msg(m))
        },
    }
}

/// The values of a list of kinds are the values of its kinds.
pub proof fn lemma_kind_views(v: Seq<RsTypeKind>, n: int)
    requires
        0 <= n <= v.len(),
    ensures
        kind_views(v, n).len() == n,
        forall|i: int| 0 <= i < n ==> (#[trigger] kind_views(v, n)[i]) == kind_view(v[i]),
    decreases n,
{
    if n > 0 {
        lemma_kind_views(v, n - 1);
    }
}

/// Whether the kinds of a list all cross the boundary by value.
pub fn check_all_abi_trivial(kinds: &Vec<RsTypeKind>) -> (r: bool)
    ensures
        r == all_abi_trivial(kind_views(kinds@, kinds@.len() as int), kinds@.len() as int),
{
    let ghost views = kind_views(kinds@, kinds@.len() as int);
    proof {
        lemma_kind_views(kinds@, kinds@.len() as int);
    }
    let mut i: usize = 0;
    while i < kinds.len()
        invariant
            i <= kinds.len(),
            views == kind_views(kinds@, kinds@.len() as int),
            views.len() == kinds@.len(),
            forall|k: int| 0 <= k < kinds@.len() ==> (#[trigger] views[k]) == kind_view(kinds@[k]),
            all_abi_trivial(views, i as int),
        decreases kinds.len() - i,
    {
        if !kinds[i].is_c_abi_compatible_by_value() {
            assert(!kind_abi_trivial(views[i as int]));
            proof {
                lemma_not_all_trivial(views, i as int + 1, views.len() as int);
            }
            return false;
        }
        i += 1;
    }
    true
}

/// Once a kind does not cross by value, neither does a longer list.
pub proof fn lemma_not_all_trivial(a: Seq<KindView>, n: int, m: int)
    requires
        0 <= n <= m <= a.len(),
        !all_abi_trivial(a, n),
    ensures
        !all_abi_trivial(a, m),
    decreases m - n,
{
    if n < m {
        lemma_not_all_trivial(a, n, m - 1);
    }
}

/// The values of the bindings of type arguments.
pub open spec fn args_view(args: Result<Vec<RsTypeKind>, Error>) -> Result<Seq<KindView>, Messages> {
    match args {
        Ok(v) => Ok(kind_views(v@, v@.len() as int)),
        Err(e) => Err(e@),
    }
}

/// Reads a type with a name, given the bindings of its type arguments.
pub fn named_type_kind(ir: &IR, ty: &RsType, name: &str, args: Result<Vec<RsTypeKind>, Error>) -> (r:
    Result<RsTypeKind, Error>)
    requires
        args matches Ok(v) ==> v@.len() == ty.type_args@.len(),
    ensures
        kind_is(r, named_kind(*ir, *ty, name@, args_view(args))),
{
    let is_mut_ptr = str_eq(name, "*mut");
    let is_const_ptr = str_eq(name, "*const");
    let is_mut_ref = str_eq(name, "&mut");
    let is_ref = str_eq(name, "&");
    let is_mut_rvalue = str_eq(name, "#RvalueReference mut");
    let is_const_rvalue = str_eq(name, "#RvalueReference const");
    if is_mut_ptr || is_const_ptr || is_mut_ref || is_ref || is_mut_rvalue || is_const_rvalue {
        if ty.type_args.len() != 1 {
            let mut m = String::from_str(
                "Missing pointee/referent type (need exactly 1 type argument): ",
            );
            m.append(name);
            return Err(Error::msg(m));
        }
        let mut v = match args {
            Ok(v) => v,
            Err(e) => {
                return Err(e);
            },
        };
        proof {
            lemma_kind_views(v@, 1);
        }
        let pointee = v.remove(0);
        if is_mut_ptr || is_const_ptr {
            return Ok(
                RsTypeKind::Pointer {
                    pointee: Box::new(pointee),
                    mutability: if is_mut_ptr {
                        Mutability::Mut
                    } else {
                        Mutability::Const
                    },
                },
            );
        }
        let lifetime = match get_lifetime_name(ir, ty) {
            Ok(l) => l,
            Err(e) => {
                return Err(e);
            },
        };
        if is_mut_ref || is_ref {
            return Ok(
                RsTypeKind::Reference {
                    referent: Box::new(pointee),
                    mutability: if is_mut_ref {
                        Mutability::Mut
                    } else {
                        Mutability::Const
                    },
                    lifetime,
                },
            );
        }
        return Ok(
            RsTypeKind::RvalueReference {
                referent: Box::new(pointee),
                mutability: if is_mut_rvalue {
                    Mutability::Mut
                } else {
                    Mutability::Const
                },
                lifetime,
            },
        );
    }
    let mut type_args = match args {
        Ok(v) => v,
        Err(e) => {
            return Err(e);
        },
    };
    let ghost a = kind_views(type_args@, type_args@.len() as int);
    proof {
        lemma_kind_views(type_args@, type_args@.len() as int);
    }
    if str_eq(name, "Option") {
        if type_args.len() != 1 {
            let mut m = String::from_str("Option should have exactly 1 type argument (got ");
            push_decimal(&mut m, type_args.len() as u64);
            m.append(")");
            return Err(Error::msg(m));
        }
        let inner = type_args.remove(0);
        return Ok(RsTypeKind::Option(Box::new(inner)));
    }
    if check_primitive_name(name) {
        if type_args.len() != 0 {
            let mut m = String::from_str(name);
            m.append(" type must not have type arguments");
            return Err(Error::msg(m));
        }
        return Ok(RsTypeKind::Primitive(String::from_str(name)));
    }
    match strip_prefix(name, "#funcPtr ") {
        Some(abi) => {
            match get_lifetime_name(ir, ty) {
                Err(_) => {},
                Ok(lifetime) => {
                    if !str_eq(lifetime.as_str(), "static") {
                        return Err(
                            Error::new("A function pointer must have the static lifetime or none"),
                        );
                    }
                },
            }
            if type_args.len() == 0 {
                return Err(Error::new("A function pointer must have at least a return type"));
            }
            if !check_all_abi_trivial(&type_args) {
                return Err(
                    Error::new(
                        "Either the return type or some of the parameter types require an FFI thunk (and function pointers don't have a thunk)",
                    ),
                );
            }
            let ghost before = type_args@;
            let return_type = type_args.pop().unwrap();
            proof {
                lemma_kind_views(type_args@, type_args@.len() as int);
                assert(kind_views(type_args@, type_args@.len() as int) =~= a.subrange(
                    0,
                    a.len() - 1,
                )) by {
                    assert forall|i: int| 0 <= i < type_args@.len() implies kind_views(
                        type_args@,
                        type_args@.len() as int,
                    )[i] == a[i] by {
                        assert(type_args@[i] == before[i]);
                    }
                }
            }
            Ok(
                RsTypeKind::FuncPtr {
                    abi: String::from_str(abi),
                    return_type: Box::new(return_type),
                    param_types: type_args,
                },
            )
        },
        None => Ok(RsTypeKind::Other { name: String::from_str(name), type_args, is_same_abi: true }),
    }
}

/// Reads the first `n` types of a list.
pub fn rs_type_kinds(ir: &IR, tys: &Vec<RsType>, n: usize, types: &TypesOfItems, fuel: usize) -> (r:
    Result<Vec<RsTypeKind>, Error>)
    requires
        all_can_be_named(*ir),
        n <= tys@.len(),
    ensures
        match rs_kinds(*ir, tys@, types.entries@, fuel as nat, n as int) {
            Ok(v) => r matches Ok(k) && k@.len() == n && kind_views(k@, k@.len() as int) == v,
            Err(e) => r matches Err(x) && x@ == e,
        },
    decreases fuel, tys, n,
{
    if n == 0 {
        return Ok(Vec::new());
    }
    let mut before = match rs_type_kinds(ir, tys, n - 1, types, fuel) {
        Ok(b) => b,
        Err(e) => {
            return Err(e);
        },
    };
    proof {
        vstd::std_specs::vec::axiom_vec_index_decreases(*tys, n - 1);
    }
    match rs_type_kind(ir, &tys[n - 1], types, fuel) {
        Err(e) => Err(e),
        Ok(k) => {
            let ghost old = before@;
            let ghost kv = kind_view(k);
            before.push(k);
            proof {
                lemma_kind_views(old, old.len() as int);
                lemma_kind_views(before@, before@.len() as int);
                assert(kind_views(before@, before@.len() as int) =~= kind_views(
                    old,
                    old.len() as int,
                ).push(kv)) by {
                    assert forall|i: int| 0 <= i < old.len() implies kind_views(
                        before@,
                        before@.len() as int,
                    )[i] == kind_views(old, old.len() as int)[i] by {
                        assert(before@[i] == old[i]);
                    }
                }
            }
            Ok(before)
        },
    }
}

/// Reads a type of the description as a type of Rust, hopping from a type
/// to the item that defines it at most `fuel` times.
pub fn rs_type_kind(ir: &IR, ty: &RsType, types: &TypesOfItems, fuel: usize) -> (r: Result<
    RsTypeKind,
    Error,
>)
    requires
        all_can_be_named(*ir),
    ensures
        kind_is(r, rs_kind(*ir, *ty, types.entries@, fuel as nat)),
    decreases fuel, ty, 0int,
{
    match &ty.unknown_attr {
        Some(unknown_attr) => {
            let mut m = String::from_str("unknown attribute(s): ");
            m.append(unknown_attr.as_str());
            return Err(Error::msg(m));
        },
        None => {},
    }
    match &ty.name {
        Some(name) => {
            let args = rs_type_kinds(ir, &ty.type_args, ty.type_args.len(), types, fuel);
            named_type_kind(ir, ty, name.as_str(), args)
        },
        None => {
            if ty.type_args.len() != 0 {
                return Err(
                    Error::new("Type arguments on records nor type aliases are not yet supported"),
                );
            }
            let id = match ty.decl_id {
                Some(id) => id,
                None => {
                    return Err(Error::new("Type does not have an associated item."));
                },
            };
            let item = match ir.find_decl(id) {
                Ok(i) => i,
                Err(e) => {
                    return Err(e);
                },
            };
            if fuel == 0 {
                return Err(Error::new("The types of the items form a cycle"));
            }
            proof {
                use_type_invariant(ir);
                ir.lemma_positions();
                let i = ir.position_of(id)->0;
                assert(ir.all_items()[i] == *item);
            }
            item_type_kind(ir, item, types, fuel - 1)
        },
    }
}

/// Reads the type that an item defines as a type of Rust.
pub fn item_type_kind(ir: &IR, item: &Item, types: &TypesOfItems, fuel: usize) -> (r: Result<
    RsTypeKind,
    Error,
>)
    requires
        all_can_be_named(*ir),
        can_be_named(*ir, *item),
    ensures
        kind_is(r, item_kind(*ir, *item, types.entries@, fuel as nat)),
    decreases fuel, item, 1int,
{
    let verdict = has_bindings(ir, item, types);
    match (&verdict, item) {
        (HasBindings::Yes, _) => {},
        (HasBindings::No(NoBindingsReason::MissingRequiredFeatures { .. }), _) => {},
        (_, Item::TypeAlias(alias)) => {
            if fuel == 0 {
                return Err(Error::new("The types of the items form a cycle"));
            }
            return rs_type_kind(ir, &alias.underlying_type.rs_type, types, fuel - 1);
        },
        _ => {},
    }
    match verdict {
        HasBindings::Yes => {},
        HasBindings::Maybe => {
            let mut m = String::from_str("Type ");
            m.append(item.debug_name(ir).as_str());
            m.append(" may or may not exist, and cannot be used.");
            return Err(Error::msg(m));
        },
        HasBindings::No(reason) => {
            return Err(reason.into_error());
        },
    }
    match item {
        Item::IncompleteRecord(incomplete_record) => {
            match make_crate_path(ir, incomplete_record, &incomplete_record.owning_target) {
                Err(e) => Err(e),
                Ok(crate_path) => Ok(
                    RsTypeKind::IncompleteRecord { id: incomplete_record.id, crate_path },
                ),
            }
        },
        Item::Record(record) => new_record(ir, record),
        Item::Enum(enum_) => new_enum(ir, enum_),
        Item::TypeAlias(type_alias) => new_type_alias(ir, type_alias, types, fuel),
        Item::TypeMapOverride(type_map_override) => Ok(new_type_map_override(type_map_override)),
        _ => Err(Error::new("Item does not define a type")),
    }
}

/// The kind of a record.
pub fn new_record(ir: &IR, record: &Record) -> (r: Result<RsTypeKind, Error>)
    ensures
        match crate_path_of(*ir, record.id, record.owning_target) {
            Ok(crate_path) => r matches Ok(k) && kind_view(k) == (KindView::Record {
                id: record.id,
                crate_path,
            }),
            Err(e) => r matches Err(x) && x@ == e,
        },
{
    match make_crate_path(ir, record, &record.owning_target) {
        Err(e) => Err(e),
        Ok(crate_path) => Ok(RsTypeKind::Record { id: record.id, crate_path }),
    }
}

/// The kind of an enum.
pub fn new_enum(ir: &IR, enum_: &Enum) -> (r: Result<RsTypeKind, Error>)
    ensures
        match crate_path_of(*ir, enum_.id, enum_.owning_target) {
            Ok(crate_path) => r matches Ok(k) && kind_view(k) == (KindView::Enum {
                id: enum_.id,
                crate_path,
            }),
            Err(e) => r matches Err(x) && x@ == e,
        },
{
    match make_crate_path(ir, enum_, &enum_.owning_target) {
        Err(e) => Err(e),
        Ok(crate_path) => Ok(RsTypeKind::Enum { id: enum_.id, crate_path }),
    }
}

/// The kind of a C++ type that stands for a type which Rust has already.
pub fn new_type_map_override(o: &TypeMapOverride) -> (r: RsTypeKind)
    ensures
        kind_view(r) == (KindView::Other {
            name: o.rs_name@,
            type_args: Seq::empty(),
            is_same_abi: o.is_same_abi,
        }),
{
    let type_args: Vec<RsTypeKind> = Vec::new();
    assert(kind_views(type_args@, 0) =~= Seq::<KindView>::empty());
    RsTypeKind::Other { name: o.rs_name.clone(), type_args, is_same_abi: o.is_same_abi }
}

/// The binding of an alias: the alias itself, with the binding of its
/// type.
pub open spec fn alias_kind(ir: IR, a: TypeAlias, types: Seq<(ItemId, ItemTypes)>, fuel: nat) -> Result<
    KindView,
    Messages,
> {
    if fuel == 0 {
        Err(seq!["The types of the items form a cycle"@])
    } else {
        match rs_kind(ir, a.underlying_type.rs_type, types, (fuel - 1) as nat) {
            Err(e) => Err(e),
            Ok(underlying) => match crate_path_of(ir, a.id, a.owning_target) {
                Err(e) => Err(e),
                Ok(crate_path) => Ok(
                    KindView::TypeAlias {
                        id: a.id,
                        crate_path,
                        underlying_type: Box::new(underlying),
                    },
                ),
            },
        }
    }
}

/// The kind of an alias.
pub fn new_type_alias(ir: &IR, type_alias: &TypeAlias, types: &TypesOfItems, fuel: usize) -> (r:
    Result<RsTypeKind, Error>)
    requires
        all_can_be_named(*ir),
    ensures
        kind_is(r, alias_kind(*ir, *type_alias, types.entries@, fuel as nat)),
    decreases fuel, Item::TypeAlias(*type_alias), 0int,
{
    if fuel == 0 {
        return Err(Error::new("The types of the items form a cycle"));
    }
    let underlying_type = match rs_type_kind(
        ir,
        &type_alias.underlying_type.rs_type,
        types,
        fuel - 1,
    ) {
        Ok(u) => u,
        Err(e) => {
            return Err(e);
        },
    };
    match make_crate_path(ir, type_alias, &type_alias.owning_target) {
        Err(e) => Err(e),
        Ok(crate_path) => Ok(
            RsTypeKind::TypeAlias {
                id: type_alias.id,
                crate_path,
                underlying_type: Box::new(underlying_type),
            },
        ),
    }
}

} // verus!
