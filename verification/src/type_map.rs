//! The mapping of Rust types to C++ types, and the rule that says which
//! values may cross the boundary between the languages by value.

use vstd::prelude::*;
use vstd::string::*;
use crate::cc_ident::{
    cc_ident, format_cc_ident, string_literal, string_literal_text, token_text, tokenize,
};
use crate::error::Error;
use crate::names::{
    qualified_cc_name, qualified_rs_name, text_result_is, FullyQualifiedName, NamespaceQualifier,
};
use crate::prereqs::{
    header_set, snippet_views, CcInclude, CcPrerequisites, CcSnippet, IncludeKey, PrereqsView,
    SnippetView,
};
use crate::rs_model::{
    char_is_u32, lifetime_name, ty_display, AdtDef, AdtKind, Crate, Def, DefKind, FloatTy, FnSig,
    IntTy, SigView, Ty, UintTy,
};
use crate::text::{decimal, opt_view, push_decimal, str_eq, views};

verus! {

/// An error in specifications: its messages, the outermost context first.
pub type Messages = Seq<Seq<char>>;

/// A result with one more context around its error.
pub open spec fn in_context<T>(context: Seq<char>, r: Result<T, Messages>) -> Result<T, Messages> {
    match r {
        Ok(v) => Ok(v),
        Err(e) => Err(seq![context] + e),
    }
}

/// A snippet result and the function's result agree.
pub open spec fn snippet_result_is(
    r: Result<CcSnippet, Error>,
    expected: Result<SnippetView, Messages>,
) -> bool {
    match expected {
        Ok(v) => r matches Ok(s) && s@ == v,
        Err(e) => r matches Err(x) && x@ == e,
    }
}

/// Where a type is used.
#[derive(PartialEq, Eq, Hash, Copy, Clone, Debug, Structural)]
pub enum TypeLocation {
    /// The return type of a function, not a type nested in it.
    FnReturn,
    /// The type of a parameter of a function, not a type nested in it.
    FnParam,
    /// Anywhere else: a pointee, the type of a field.
    Other,
}

/// The definition of a struct, enum or union, where `def` names one.
pub open spec fn adt_of(krate: Crate, def: usize) -> Option<AdtDef> {
    if def < krate.defs@.len() {
        match krate.defs@[def as int].kind {
            DefKind::Adt(a) => Some(a),
            _ => None,
        }
    } else {
        None
    }
}

/// The first dependency at or after `from` that has the given name.
pub open spec fn dependency_from(krate: Crate, name: Seq<char>, from: int) -> Option<int>
    decreases krate.dependencies@.len() - from,
{
    if from < 0 || from >= krate.dependencies@.len() {
        None
    } else if krate.dependencies@[from].crate_name@ == name {
        Some(from)
    } else {
        dependency_from(krate, name, from + 1)
    }
}

/// The key of a header of the support library.
pub open spec fn support_header_key(krate: Crate, header: Seq<char>) -> IncludeKey {
    IncludeKey { rank: 2, first: krate.support_path_format@, second: header }
}

/// The key of a header of the C++ standard library.
pub open spec fn system_header_key(header: Seq<char>) -> IncludeKey {
    IncludeKey { rank: 0, first: header, second: Seq::empty() }
}

impl Crate {
    /// The definition of a struct, enum or union, where `def` names one.
    pub fn adt(&self, def: usize) -> (r: Option<&AdtDef>)
        ensures
            r is Some == adt_of(*self, def) is Some,
            r matches Some(a) ==> *a == adt_of(*self, def)->0,
    {
        if def < self.defs.len() {
            match &self.defs[def].kind {
                DefKind::Adt(a) => Some(a),
                _ => None,
            }
        } else {
            None
        }
    }

    /// The headers of the dependency with the given name, if the crate has
    /// one; the first where it has several.
    pub fn dependency(&self, name: &str) -> (r: Option<usize>)
        ensures
            match r {
                Some(i) => i < self.dependencies.len() && dependency_from(*self, name@, 0) == Some(
                    i as int,
                ),
                None => dependency_from(*self, name@, 0) is None,
            },
    {
        let mut i: usize = 0;
        while i < self.dependencies.len()
            invariant
                i <= self.dependencies.len(),
                dependency_from(*self, name@, 0) == dependency_from(*self, name@, i as int),
            decreases self.dependencies.len() - i,
        {
            if str_eq(self.dependencies[i].crate_name.as_str(), name) {
                return Some(i);
            }
            i += 1;
        }
        None
    }

    /// A header of the support library.
    pub fn support_header(&self, suffix: &str) -> (r: CcInclude)
        ensures
            r@ == support_header_key(*self, suffix@),
    {
        CcInclude::support_lib_header(self.support_path_format.as_str(), suffix)
    }
}

/// The name of a definition with its crate and modules.
pub open spec fn def_cc_name(d: Def, cc_type: Option<Seq<char>>) -> Result<Seq<char>, Messages> {
    qualified_cc_name(d.krate@, views(d.mod_path@), opt_view(d.name), cc_type)
}

/// The Rust name of a definition with its crate and modules.
pub open spec fn def_rs_name(d: Def) -> Seq<char> {
    qualified_rs_name(d.krate@, views(d.mod_path@), d.name->0@)
}

impl Def {
    /// A copy of the modules on the way to the item.
    pub fn namespace(&self) -> (r: NamespaceQualifier)
        ensures
            r.parts() == views(self.mod_path@),
    {
        let mut parts: Vec<String> = Vec::new();
        let mut i: usize = 0;
        while i < self.mod_path.len()
            invariant
                i <= self.mod_path.len(),
                views(parts@) == views(self.mod_path@).take(i as int),
            decreases self.mod_path.len() - i,
        {
            let ghost before = views(parts@);
            let c = self.mod_path[i].clone();
            parts.push(c);
            assert(views(parts@) =~= before.push(c@));
            assert(views(self.mod_path@)[i as int] == c@);
            assert(views(parts@) =~= views(self.mod_path@).take(i + 1));
            i += 1;
        }
        assert(views(self.mod_path@).take(self.mod_path.len() as int) =~= views(self.mod_path@));
        NamespaceQualifier(parts)
    }

    /// The qualified name of the item, with the C++ type it was made from.
    pub fn qualified_name(&self, cc_type: &Option<String>) -> (r: FullyQualifiedName)
        ensures
            r.krate@ == self.krate@,
            r.mod_path.parts() == views(self.mod_path@),
            opt_view(r.name) == opt_view(self.name),
            opt_view(r.cc_type) == opt_view(*cc_type),
    {
        FullyQualifiedName {
            krate: self.krate.clone(),
            mod_path: self.namespace(),
            name: crate::ir::copy_opt_string(&self.name),
            cc_type: crate::ir::copy_opt_string(cc_type),
        }
    }
}

/// The parts of a binding without which an algebraic data type has no
/// binding at all.
#[derive(Debug)]
pub struct AdtCoreBindings {
    /// The index of the type in the crate's table.
    pub def: usize,
    /// The C++ tag: `struct` or `union`. An enum is bound as a struct.
    pub keyword: String,
    /// The type's own name in C++.
    pub cc_short_name: String,
    /// The type's qualified name in Rust, `:: crate :: module :: Name`.
    pub rs_fully_qualified_name: String,
    pub alignment_in_bytes: u64,
    pub size_in_bytes: u64,
}

/// The values of an `AdtCoreBindings`.
pub struct AdtCoreView {
    pub def: usize,
    pub keyword: Seq<char>,
    pub cc_short_name: Seq<char>,
    pub rs_fully_qualified_name: Seq<char>,
    pub alignment_in_bytes: u64,
    pub size_in_bytes: u64,
}

impl View for AdtCoreBindings {
    type V = AdtCoreView;

    open spec fn view(&self) -> AdtCoreView {
        AdtCoreView {
            def: self.def,
            keyword: self.keyword@,
            cc_short_name: self.cc_short_name@,
            rs_fully_qualified_name: self.rs_fully_qualified_name@,
            alignment_in_bytes: self.alignment_in_bytes,
            size_in_bytes: self.size_in_bytes,
        }
    }
}

/// The C++ tag under which a type is bound.
pub open spec fn adt_keyword(kind: AdtKind) -> Seq<char> {
    match kind {
        AdtKind::Struct => "struct"@,
        AdtKind::Enum => "struct"@,
        AdtKind::Union => "union"@,
    }
}

/// The core of the binding of the type that `def` names, or why it has no
/// binding: a type that is not public under its own path, a generic type,
/// a name that C++ cannot spell, a layout that is unknown, not sized or
/// empty.
pub open spec fn adt_core(krate: Crate, def: usize) -> Result<AdtCoreView, Messages>
    recommends
        adt_of(krate, def) is Some,
{
    let d = krate.defs@[def as int];
    let adt = adt_of(krate, def)->0;
    let name = match d.name {
        Some(n) => n@,
        None => Seq::empty(),
    };
    if !d.is_directly_public {
        Err(seq!["Not directly public type (re-exports are not supported yet - b/262052635)"@])
    } else if adt.generic_params != 0 {
        Err(seq!["Generic types are not supported yet (b/259749095)"@])
    } else if d.name is None {
        Err(seq!["An item without a name has no C++ name"@])
    } else {
        match in_context("Error formatting item name"@, cc_ident(name)) {
            Err(e) => Err(e),
            Ok(short) => match in_context(
                "Error formatting the fully-qualified C++ name of `"@ + name,
                def_cc_name(d, opt_view(adt.cc_type)),
            ) {
                Err(e) => Err(e),
                Ok(_) => match adt.layout {
                    Err(why) => Err(
                        seq![
                            "Error computing the layout of #"@ + name,
                            "Error computing the layout: "@ + why@,
                        ],
                    ),
                    Ok(layout) => if !layout.is_sized {
                        Err(seq!["Bindings for dynamically sized types are not supported."@])
                    } else if layout.size == 0 {
                        Err(seq!["Zero-sized types (ZSTs) are not supported (b/258259459)"@])
                    } else {
                        Ok(
                            AdtCoreView {
                                def,
                                keyword: adt_keyword(adt.kind),
                                cc_short_name: short,
                                rs_fully_qualified_name: def_rs_name(d),
                                alignment_in_bytes: layout.align,
                                size_in_bytes: layout.size,
                            },
                        )
                    },
                },
            },
        }
    }
}

/// Binds the core of the type that `def` names.
pub fn format_adt_core(krate: &Crate, def: usize) -> (r: Result<AdtCoreBindings, Error>)
    requires
        adt_of(*krate, def) is Some,
    ensures
        match adt_core(*krate, def) {
            Ok(v) => r matches Ok(c) && c@ == v,
            Err(e) => r matches Err(x) && x@ == e,
        },
{
    let d = &krate.defs[def];
    let adt = match krate.adt(def) {
        Some(a) => a,
        None => {
            return Err(Error::new(""));
        },
    };
    if !d.is_directly_public {
        return Err(
            Error::new("Not directly public type (re-exports are not supported yet - b/262052635)"),
        );
    }
    if adt.generic_params != 0 {
        return Err(Error::new("Generic types are not supported yet (b/259749095)"));
    }
    let name = match &d.name {
        Some(n) => n,
        None => {
            return Err(Error::new("An item without a name has no C++ name"));
        },
    };
    let fq = d.qualified_name(&adt.cc_type);
    let rs_fully_qualified_name = fq.format_for_rs();
    let cc_short_name = match format_cc_ident(name.as_str()) {
        Ok(s) => s,
        Err(e) => {
            return Err(e.context(String::from_str("Error formatting item name")));
        },
    };
    match fq.format_for_cc() {
        Ok(_) => {},
        Err(e) => {
            let mut c = String::from_str("Error formatting the fully-qualified C++ name of `");
            c.append(name.as_str());
            return Err(e.context(c));
        },
    }
    let layout = match &adt.layout {
        Ok(l) => *l,
        Err(why) => {
            let mut m = String::from_str("Error computing the layout: ");
            m.append(why.as_str());
            let mut c = String::from_str("Error computing the layout of #");
            c.append(name.as_str());
            let e = Error::msg(m).context(c);
            assert(e@ =~= seq![
                "Error computing the layout of #"@ + name@,
                "Error computing the layout: "@ + why@,
            ]);
            return Err(e);
        },
    };
    if !layout.is_sized {
        return Err(Error::new("Bindings for dynamically sized types are not supported."));
    }
    if layout.size == 0 {
        return Err(Error::new("Zero-sized types (ZSTs) are not supported (b/258259459)"));
    }
    let keyword = match adt.kind {
        AdtKind::Struct => String::from_str("struct"),
        AdtKind::Enum => String::from_str("struct"),
        AdtKind::Union => String::from_str("union"),
    };
    Ok(
        AdtCoreBindings {
            def,
            keyword,
            cc_short_name,
            rs_fully_qualified_name,
            alignment_in_bytes: layout.align,
            size_in_bytes: layout.size,
        },
    )
}

/// Whether a value of the type crosses the boundary between the languages
/// unchanged when it is passed or returned by value under the C calling
/// convention. Numbers, `bool`, `char`, `!`, the empty tuple, pointers,
/// references and pointers to functions do. Structs, enums, unions and
/// tuples do not, even where their layout in memory is the same on both
/// sides; no other kind of type does either.
pub open spec fn abi_trivial(t: Ty) -> bool {
    match t {
        Ty::Bool => true,
        Ty::Float(_) => true,
        Ty::Int(_) => true,
        Ty::Uint(_) => true,
        Ty::Never => true,
        Ty::RawPtr { .. } => true,
        Ty::Ref { .. } => true,
        Ty::FnPtr { .. } => true,
        Ty::Unit => true,
        Ty::Tuple(v) => v@.len() == 0,
        Ty::Char => true,
        _ => false,
    }
}

/// Whether a value of the type may be passed and returned by value under
/// the C calling convention.
pub fn is_c_abi_compatible_by_value(ty: &Ty) -> (r: bool)
    ensures
        r == abi_trivial(*ty),
{
    match ty {
        Ty::Bool => true,
        Ty::Float(_) => true,
        Ty::Int(_) => true,
        Ty::Uint(_) => true,
        Ty::Never => true,
        Ty::RawPtr { .. } => true,
        Ty::Ref { .. } => true,
        Ty::FnPtr { .. } => true,
        Ty::Unit => true,
        Ty::Tuple(types) => types.len() == 0,
        Ty::Char => true,
        _ => false,
    }
}

/// Why a signature cannot be bound at all, if it cannot.
pub open spec fn fn_sig_problem(sig: SigView) -> Option<Messages> {
    if sig.c_variadic {
        Some(seq!["C variadic functions are not supported (b/254097223)"@])
    } else {
        None
    }
}

/// Refuses variadic signatures.
pub fn check_fn_sig(sig: &FnSig) -> (r: Result<(), Error>)
    ensures
        match fn_sig_problem(sig@) {
            None => r is Ok,
            Some(e) => r matches Err(x) && x@ == e,
        },
{
    if sig.c_variadic {
        return Err(Error::new("C variadic functions are not supported (b/254097223)"));
    }
    Ok(())
}

/// The first parameter at or after `from` whose type does not cross the
/// boundary by value.
pub open spec fn first_nontrivial_param(inputs: Seq<Ty>, from: int) -> Option<int>
    decreases inputs.len() - from,
{
    if from < 0 || from >= inputs.len() {
        None
    } else if !abi_trivial(inputs[from]) {
        Some(from)
    } else {
        first_nontrivial_param(inputs, from + 1)
    }
}

/// Why a function with this signature can only be called through a thunk,
/// if it can: its calling convention is not that of C, or its return type
/// or the type of one of its parameters does not cross the boundary by
/// value.
pub open spec fn thunk_reason(sig: SigView) -> Option<Messages> {
    if !(sig.abi is C) {
        Some(seq!["Calling convention other than `extern \"C\"` requires a thunk"@])
    } else if !abi_trivial(sig.output) {
        Some(seq!["Return type requires a thunk"@])
    } else {
        match first_nontrivial_param(sig.inputs, 0) {
            Some(i) => Some(
                seq!["Type of parameter #"@ + decimal(i as nat) + " requires a thunk"@],
            ),
            None => None,
        }
    }
}

/// A signature needs no thunk exactly where its convention is that of C and
/// every type in it crosses the boundary by value.
pub proof fn lemma_thunk_reason(sig: SigView)
    ensures
        thunk_reason(sig) is None <==> (sig.abi is C && abi_trivial(sig.output) && forall|i: int|
            0 <= i < sig.inputs.len() ==> abi_trivial(#[trigger] sig.inputs[i])),
{
    lemma_first_nontrivial(sig.inputs, 0);
}

/// `first_nontrivial_param` finds the first such parameter, and none where
/// there is none.
pub proof fn lemma_first_nontrivial(inputs: Seq<Ty>, from: int)
    requires
        0 <= from <= inputs.len(),
    ensures
        match first_nontrivial_param(inputs, from) {
            Some(i) => from <= i < inputs.len() && !abi_trivial(inputs[i]) && forall|j: int|
                from <= j < i ==> abi_trivial(#[trigger] inputs[j]),
            None => forall|j: int| from <= j < inputs.len() ==> abi_trivial(#[trigger] inputs[j]),
        },
    decreases inputs.len() - from,
{
    if from < inputs.len() && abi_trivial(inputs[from]) {
        lemma_first_nontrivial(inputs, from + 1);
    }
}

/// `Ok` where no thunk is required; otherwise the error says why one is.
pub fn is_thunk_required(sig: &FnSig) -> (r: Result<(), Error>)
    ensures
        match thunk_reason(sig@) {
            None => r is Ok,
            Some(e) => r matches Err(x) && x@ == e,
        },
{
    if !sig.abi.is_c() {
        return Err(Error::new("Calling convention other than `extern \"C\"` requires a thunk"));
    }
    if !is_c_abi_compatible_by_value(&sig.output) {
        return Err(Error::new("Return type requires a thunk"));
    }
    let mut i: usize = 0;
    while i < sig.inputs.len()
        invariant
            i <= sig.inputs.len(),
            sig.abi is C,
            abi_trivial(sig.output),
            first_nontrivial_param(sig.inputs@, 0) == first_nontrivial_param(sig.inputs@, i as int),
        decreases sig.inputs.len() - i,
    {
        if !is_c_abi_compatible_by_value(&sig.inputs[i]) {
            assert(first_nontrivial_param(sig.inputs@, i as int) == Some(i as int));
            let mut m = String::from_str("Type of parameter #");
            push_decimal(&mut m, i as u64);
            m.append(" requires a thunk");
            return Err(Error::msg(m));
        }
        i += 1;
    }
    Ok(())
}

/// The annotation that carries a lifetime's name into C++.
pub open spec fn cc_lifetime(name: Seq<char>) -> Seq<char> {
    "[ [ clang :: annotate_type ( \"lifetime\" , "@ + string_literal_text(name) + " ) ] ] "@
}

/// Writes a lifetime as a C++ annotation.
pub fn format_region_as_cc_lifetime(name: &str) -> (r: String)
    ensures
        r@ == cc_lifetime(name@),
{
    let mut s = String::from_str("[ [ clang :: annotate_type ( \"lifetime\" , ");
    s.append(string_literal(name).as_str());
    s.append(" ) ] ] ");
    s
}

/// A lifetime as Rust writes it.
pub open spec fn rs_lifetime(name: Seq<char>) -> Seq<char> {
    "'"@ + name + " "@
}

/// Writes a lifetime for Rust.
pub fn format_region_as_rs_lifetime(name: &str) -> (r: String)
    ensures
        r@ == rs_lifetime(name@),
{
    let mut s = String::from_str("'");
    s.append(name);
    s.append(" ");
    s
}

/// Whether a type is `core::ffi::c_void`.
pub open spec fn is_c_void(krate: Crate, t: Ty) -> bool {
    t matches Ty::Adt { def, .. } && adt_of(krate, def) matches Some(a) && a.is_c_void
}

/// What a type defined in the crate, or in one of its dependencies, needs
/// before it can be named; an error where its crate is no dependency.
pub open spec fn adt_prereqs(krate: Crate, def: usize, shown: Seq<char>) -> Result<
    PrereqsView,
    Messages,
> {
    let d = krate.defs@[def as int];
    if d.is_local {
        Ok(PrereqsView::empty().with_def(def))
    } else {
        match dependency_from(krate, d.krate@, 0) {
            Some(i) => Ok(
                PrereqsView {
                    includes: header_set(krate.dependencies@[i].includes@),
                    ..PrereqsView::empty()
                },
            ),
            None => Err(
                seq![
                    "Type `"@ + shown + "` comes from the `"@ + d.krate@
                        + "` crate, but no `--bindings-from-dependency` was specified for this crate"@,
                ],
            ),
        }
    }
}

/// How a struct, enum or union is spelled in C++: by its qualified name,
/// where the type is not generic, is public under its own path, lies in the
/// crate or in a dependency, and has a binding of its own.
pub open spec fn cc_adt_type(krate: Crate, def: usize, generic_args: usize, display: Seq<char>) -> Result<
    SnippetView,
    Messages,
> {
    if generic_args != 0 {
        Err(seq!["Generic types are not supported yet (b/259749095)"@])
    } else if adt_of(krate, def) is None {
        Err(seq!["The type `"@ + display + "` has no definition in the crate's table"@])
    } else if !krate.defs@[def as int].is_directly_public {
        Err(
            seq![
                "Not directly public type (re-exports are not supported yet - b/262052635)"@,
            ],
        )
    } else {
        match adt_prereqs(krate, def, display) {
            Err(e) => Err(e),
            Ok(prereqs) => match in_context(
                "Failed to generate bindings for the definition of `"@ + display + "`"@,
                adt_core(krate, def),
            ) {
                Err(e) => Err(e),
                Ok(_) => match def_cc_name(
                    krate.defs@[def as int],
                    opt_view(adt_of(krate, def)->0.cc_type),
                ) {
                    Err(e) => Err(e),
                    Ok(name) => Ok(SnippetView { tokens: name, prereqs }),
                },
            },
        }
    }
}

/// How a pointer to a function is spelled in C++, given the spellings of
/// its return type and of its parameter types. A signature that is generic
/// or variadic has none, nor has one that would need a thunk: there is no
/// call to wrap. At the top of a parameter or return type the pointer is
/// written as a reference, elsewhere as a pointer.
pub open spec fn cc_fn_ptr_type(
    krate: Crate,
    sig: FnSig,
    has_bound_vars: bool,
    location: TypeLocation,
    ret: Result<SnippetView, Messages>,
    params: Result<Seq<SnippetView>, Messages>,
) -> Result<SnippetView, Messages> {
    if has_bound_vars {
        Err(seq!["Generic functions are not supported yet (b/259749023)"@])
    } else if fn_sig_problem(sig@) is Some {
        Err(fn_sig_problem(sig@)->0)
    } else if thunk_reason(sig@) is Some {
        Err(seq!["Function pointers can't have a thunk"@] + thunk_reason(sig@)->0)
    } else {
        match in_context("Error formatting function return type"@, ret) {
            Err(e) => Err(e),
            Ok(ret) => match params {
                Err(e) => Err(e),
                Ok(params) => Ok(
                    SnippetView {
                        tokens: "crubit :: type_identity_t < "@ + ret.tokens + "( "@ + param_list(
                            params,
                            params.len() as int,
                        ) + ") > "@ + (if location == TypeLocation::Other {
                            "* "@
                        } else {
                            "& "@
                        }),
                        prereqs: all_prereqs(params, params.len() as int).plus(
                            PrereqsView::empty().with_include(
                                support_header_key(krate, "internal/cxx20_backports.h"@),
                            ).plus(ret.prereqs),
                        ),
                    },
                ),
            },
        }
    }
}

/// How a type is spelled in C++ at the given place, and what the spelling
/// needs before it; or why the type cannot be spelled there.
pub open spec fn cc_type(krate: Crate, t: Ty, location: TypeLocation) -> Result<
    SnippetView,
    Messages,
>
    decreases t, 0int,
{
    match t {
        Ty::Never => if location == TypeLocation::FnReturn {
            Ok(SnippetView::plain("void "@))
        } else {
            Err(seq!["The never type `!` is only supported as a return type (b/254507801)"@])
        },
        Ty::Unit => if location == TypeLocation::FnReturn {
            Ok(SnippetView::plain("void "@))
        } else {
            Err(seq!["`()` / `void` is only supported as a return type (b/254507801)"@])
        },
        Ty::Tuple(v) => if v@.len() == 0 {
            if location == TypeLocation::FnReturn {
                Ok(SnippetView::plain("void "@))
            } else {
                Err(seq!["`()` / `void` is only supported as a return type (b/254507801)"@])
            }
        } else {
            Err(seq!["Tuples are not supported yet: "@ + ty_display(t) + " (b/254099023)"@])
        },
        Ty::Bool => Ok(SnippetView::plain("bool "@)),
        Ty::Float(FloatTy::F32) => Ok(SnippetView::plain("float "@)),
        Ty::Float(FloatTy::F64) => Ok(SnippetView::plain("double "@)),
        Ty::Char => if char_is_u32(krate.char_layout) {
            Ok(
                SnippetView::needing(
                    "rs_std :: rs_char "@,
                    support_header_key(krate, "rs_std/rs_char.h"@),
                ),
            )
        } else {
            Err(seq!["`char` is not laid out as an unsigned integer of 32 bits"@])
        },
        Ty::Int(IntTy::I8) => Ok(
            SnippetView::needing("std :: int8_t "@, system_header_key("cstdint"@)),
        ),
        Ty::Int(IntTy::I16) => Ok(
            SnippetView::needing("std :: int16_t "@, system_header_key("cstdint"@)),
        ),
        Ty::Int(IntTy::I32) => Ok(
            SnippetView::needing("std :: int32_t "@, system_header_key("cstdint"@)),
        ),
        Ty::Int(IntTy::I64) => Ok(
            SnippetView::needing("std :: int64_t "@, system_header_key("cstdint"@)),
        ),
        Ty::Int(IntTy::Isize) => Ok(
            SnippetView::needing("std :: intptr_t "@, system_header_key("cstdint"@)),
        ),
        Ty::Uint(UintTy::U8) => Ok(
            SnippetView::needing("std :: uint8_t "@, system_header_key("cstdint"@)),
        ),
        Ty::Uint(UintTy::U16) => Ok(
            SnippetView::needing("std :: uint16_t "@, system_header_key("cstdint"@)),
        ),
        Ty::Uint(UintTy::U32) => Ok(
            SnippetView::needing("std :: uint32_t "@, system_header_key("cstdint"@)),
        ),
        Ty::Uint(UintTy::U64) => Ok(
            SnippetView::needing("std :: uint64_t "@, system_header_key("cstdint"@)),
        ),
        Ty::Uint(UintTy::Usize) => Ok(
            SnippetView::needing("std :: uintptr_t "@, system_header_key("cstdint"@)),
        ),
        Ty::Int(IntTy::I128) => Err(
            seq!["C++ doesn't have a standard equivalent of `"@ + ty_display(t) + "` (b/254094650)"@],
        ),
        Ty::Uint(UintTy::U128) => Err(
            seq!["C++ doesn't have a standard equivalent of `"@ + ty_display(t) + "` (b/254094650)"@],
        ),
        Ty::Adt { def, generic_args, display } => cc_adt_type(krate, def, generic_args, display@),
        Ty::RawPtr { pointee, mutable } => in_context(
            "Failed to format the pointee of the pointer type `"@ + ty_display(t) + "`"@,
            cc_pointer(krate, *pointee, mutable, "* "@, cc_type(krate, *pointee, TypeLocation::Other)),
        ),
        Ty::Ref { lifetime, referent, mutable } => if location == TypeLocation::Other {
            Err(
                seq![
                    "Can't format `"@ + ty_display(t)
                        + "`, because references are only supported in function parameter types and return types (b/286256327)"@,
                ],
            )
        } else {
            in_context(
                "Failed to format the referent of the reference type `"@ + ty_display(t) + "`"@,
                cc_pointer(
                    krate,
                    *referent,
                    mutable,
                    "& "@ + cc_lifetime(lifetime_name(lifetime)),
                    cc_type(krate, *referent, TypeLocation::Other),
                ),
            )
        },
        Ty::FnPtr { sig, has_bound_vars } => cc_fn_ptr_type(
            krate,
            *sig,
            has_bound_vars,
            location,
            cc_type(krate, sig.output, TypeLocation::FnReturn),
            cc_param_types(krate, sig.inputs@, sig.inputs@.len() as int),
        ),
        _ => Err(seq!["The following Rust type is not supported yet: "@ + ty_display(t)]),
    }
}

/// A pointer or a reference to a pointee whose own spelling is `inner`. A
/// pointer to `c_void` is `void *`. Any other pointee is spelled first,
/// then `const` where the pointer gives no right to write, then the sigil;
/// what the pointee needed by definition it now needs only by declaration.
pub open spec fn cc_pointer(
    krate: Crate,
    pointee: Ty,
    mutable: bool,
    sigil: Seq<char>,
    inner: Result<SnippetView, Messages>,
) -> Result<SnippetView, Messages> {
    let qualifier = if mutable {
        ""@
    } else {
        "const "@
    };
    if is_c_void(krate, pointee) {
        Ok(SnippetView::plain(qualifier + "void * "@))
    } else {
        match inner {
            Err(e) => Err(e),
            Ok(s) => Ok(
                SnippetView {
                    tokens: s.tokens + qualifier + sigil,
                    prereqs: s.prereqs.weakened(),
                },
            ),
        }
    }
}

/// The spellings of the first `n` parameter types; the error of the first
/// that has none.
pub open spec fn cc_param_types(krate: Crate, inputs: Seq<Ty>, n: int) -> Result<
    Seq<SnippetView>,
    Messages,
>
    decreases inputs, n,
{
    if n <= 0 || n > inputs.len() {
        Ok(Seq::empty())
    } else {
        match cc_param_types(krate, inputs, n - 1) {
            Err(e) => Err(e),
            Ok(before) => match in_context(
                "Error handling parameter #"@ + decimal((n - 1) as nat),
                cc_type(krate, inputs[n - 1], TypeLocation::FnParam),
            ) {
                Err(e) => Err(e),
                Ok(s) => Ok(before.push(s)),
            },
        }
    }
}

/// The tokens of the first `n` snippets with commas between them.
pub open spec fn param_list(params: Seq<SnippetView>, n: int) -> Seq<char>
    decreases n,
{
    if n <= 0 || n > params.len() {
        Seq::empty()
    } else if n == 1 {
        params[0].tokens
    } else {
        param_list(params, n - 1) + ", "@ + params[n - 1].tokens
    }
}

/// What the first `n` snippets need, taken together.
pub open spec fn all_prereqs(params: Seq<SnippetView>, n: int) -> PrereqsView
    decreases n,
{
    if n <= 0 || n > params.len() {
        PrereqsView::empty()
    } else {
        all_prereqs(params, n - 1).plus(params[n - 1].prereqs)
    }
}

/// Spells a struct, enum or union for C++.
pub fn format_adt_ty_for_cc(krate: &Crate, def: usize, generic_args: usize, display: &str) -> (r: Result<
    CcSnippet,
    Error,
>)
    ensures
        snippet_result_is(r, cc_adt_type(*krate, def, generic_args, display@)),
{
        if generic_args != 0 {
            return Err(Error::new("Generic types are not supported yet (b/259749095)"));
        }
        let adt = match krate.adt(def) {
            Some(a) => a,
            None => {
                let mut m = String::from_str("The type `");
                m.append(display);
                m.append("` has no definition in the crate's table");
                return Err(Error::msg(m));
            },
        };
        let d = &krate.defs[def];
        if !d.is_directly_public {
            return Err(
                Error::new(
                    "Not directly public type (re-exports are not supported yet - b/262052635)",
                ),
            );
        }
        let mut prereqs = CcPrerequisites::new();
        if d.is_local {
            prereqs.defs.insert(def);
        } else {
            match krate.dependency(d.krate.as_str()) {
                Some(i) => {
                    prereqs.includes.extend_from_list(&krate.dependencies[i].includes);
                    assert(prereqs@.includes =~= header_set(krate.dependencies@[i as int].includes@));
                },
                None => {
                    let mut m = String::from_str("Type `");
                    m.append(display);
                    m.append("` comes from the `");
                    m.append(d.krate.as_str());
                    m.append(
                        "` crate, but no `--bindings-from-dependency` was specified for this crate",
                    );
                    return Err(Error::msg(m));
                },
            }
        }
        match format_adt_core(krate, def) {
            Ok(_) => {},
            Err(e) => {
                let mut c = String::from_str(
                    "Failed to generate bindings for the definition of `",
                );
                c.append(display);
                c.append("`");
                return Err(e.context(c));
            },
        }
        match d.qualified_name(&adt.cc_type).format_for_cc() {
            Err(e) => Err(e),
            Ok(tokens) => Ok(CcSnippet { tokens, prereqs }),
        }
}

/// Spells a type for C++: for the declaration of a parameter, of a return
/// value or of a field.
pub fn format_ty_for_cc(krate: &Crate, ty: &Ty, location: TypeLocation) -> (r: Result<
    CcSnippet,
    Error,
>)
    ensures
        snippet_result_is(r, cc_type(*krate, *ty, location)),
    decreases ty, 0int,
{
    match ty {
        Ty::Never => match location {
            TypeLocation::FnReturn => Ok(CcSnippet::new(String::from_str("void "))),
            _ => Err(
                Error::new("The never type `!` is only supported as a return type (b/254507801)"),
            ),
        },
        Ty::Unit => match location {
            TypeLocation::FnReturn => Ok(CcSnippet::new(String::from_str("void "))),
            _ => Err(
                Error::new("`()` / `void` is only supported as a return type (b/254507801)"),
            ),
        },
        Ty::Tuple(types) => {
            if types.len() == 0 {
                match location {
                    TypeLocation::FnReturn => Ok(CcSnippet::new(String::from_str("void "))),
                    _ => Err(
                        Error::new(
                            "`()` / `void` is only supported as a return type (b/254507801)",
                        ),
                    ),
                }
            } else {
                let mut m = String::from_str("Tuples are not supported yet: ");
                m.append(ty.display().as_str());
                m.append(" (b/254099023)");
                Err(Error::msg(m))
            }
        },
        Ty::Bool => Ok(CcSnippet::new(String::from_str("bool "))),
        Ty::Float(FloatTy::F32) => Ok(CcSnippet::new(String::from_str("float "))),
        Ty::Float(FloatTy::F64) => Ok(CcSnippet::new(String::from_str("double "))),
        Ty::Char => if krate.char_layout.is_u32() {
            Ok(
                CcSnippet::with_include(
                    String::from_str("rs_std :: rs_char "),
                    krate.support_header("rs_std/rs_char.h"),
                ),
            )
        } else {
            Err(Error::new("`char` is not laid out as an unsigned integer of 32 bits"))
        },
        Ty::Int(IntTy::I8) => Ok(cstdint("std :: int8_t ")),
        Ty::Int(IntTy::I16) => Ok(cstdint("std :: int16_t ")),
        Ty::Int(IntTy::I32) => Ok(cstdint("std :: int32_t ")),
        Ty::Int(IntTy::I64) => Ok(cstdint("std :: int64_t ")),
        Ty::Int(IntTy::Isize) => Ok(cstdint("std :: intptr_t ")),
        Ty::Uint(UintTy::U8) => Ok(cstdint("std :: uint8_t ")),
        Ty::Uint(UintTy::U16) => Ok(cstdint("std :: uint16_t ")),
        Ty::Uint(UintTy::U32) => Ok(cstdint("std :: uint32_t ")),
        Ty::Uint(UintTy::U64) => Ok(cstdint("std :: uint64_t ")),
        Ty::Uint(UintTy::Usize) => Ok(cstdint("std :: uintptr_t ")),
        Ty::Int(IntTy::I128) | Ty::Uint(UintTy::U128) => {
            let mut m = String::from_str("C++ doesn't have a standard equivalent of `");
            m.append(ty.display().as_str());
            m.append("` (b/254094650)");
            Err(Error::msg(m))
        },
        Ty::Adt { def, generic_args, display } => format_adt_ty_for_cc(
            krate,
            *def,
            *generic_args,
            display.as_str(),
        ),
        Ty::RawPtr { pointee, mutable } => {
            let r = format_pointer_or_reference_ty_for_cc(krate, pointee, *mutable, "* ");
            match r {
                Ok(s) => Ok(s),
                Err(e) => {
                    let mut c = String::from_str("Failed to format the pointee of the pointer type `");
                    c.append(ty.display().as_str());
                    c.append("`");
                    Err(e.context(c))
                },
            }
        },
        Ty::Ref { lifetime, referent, mutable } => {
            match location {
                TypeLocation::FnReturn | TypeLocation::FnParam => {},
                TypeLocation::Other => {
                    let mut m = String::from_str("Can't format `");
                    m.append(ty.display().as_str());
                    m.append(
                        "`, because references are only supported in function parameter types and return types (b/286256327)",
                    );
                    return Err(Error::msg(m));
                },
            }
            let mut sigil = String::from_str("& ");
            sigil.append(format_region_as_cc_lifetime(lifetime.name().as_str()).as_str());
            let r = format_pointer_or_reference_ty_for_cc(krate, referent, *mutable, sigil.as_str());
            match r {
                Ok(s) => Ok(s),
                Err(e) => {
                    let mut c = String::from_str(
                        "Failed to format the referent of the reference type `",
                    );
                    c.append(ty.display().as_str());
                    c.append("`");
                    Err(e.context(c))
                },
            }
        },
        Ty::FnPtr { sig, has_bound_vars } => {
            if *has_bound_vars {
                return Err(Error::new("Generic functions are not supported yet (b/259749023)"));
            }
            match check_fn_sig(sig) {
                Ok(()) => {},
                Err(e) => {
                    return Err(e);
                },
            }
            match is_thunk_required(sig) {
                Ok(()) => {},
                Err(e) => {
                    return Err(e.context(String::from_str("Function pointers can't have a thunk")));
                },
            }
            let ret = match format_ty_for_cc(krate, &sig.output, TypeLocation::FnReturn) {
                Ok(s) => s,
                Err(e) => {
                    return Err(e.context(String::from_str("Error formatting function return type")));
                },
            };
            let params = match format_param_types_upto(krate, &sig.inputs, sig.inputs.len()) {
                Ok(p) => p,
                Err(e) => {
                    return Err(e);
                },
            };
            Ok(assemble_fn_ptr(krate, ret, params, location))
        },
        _ => {
            let mut m = String::from_str("The following Rust type is not supported yet: ");
            m.append(ty.display().as_str());
            Err(Error::msg(m))
        },
    }
}

/// Tokens that need `<cstdint>`.
fn cstdint(tokens: &str) -> (s: CcSnippet)
    ensures
        s@ == SnippetView::needing(tokens@, system_header_key("cstdint"@)),
{
    CcSnippet::with_include(String::from_str(tokens), CcInclude::cstdint())
}

/// The tokens of the snippets with commas between them; what the snippets
/// need is added to `prereqs`.
pub fn join_snippets(snippets: Vec<CcSnippet>, prereqs: &mut CcPrerequisites) -> (r: String)
    ensures
        r@ == param_list(snippet_views(snippets@), snippets@.len() as int),
        final(prereqs)@.includes =~= all_prereqs(
            snippet_views(snippets@),
            snippets@.len() as int,
        ).plus(old(prereqs)@).includes,
        final(prereqs)@.defs =~= all_prereqs(snippet_views(snippets@), snippets@.len() as int).plus(
            old(prereqs)@,
        ).defs,
        final(prereqs)@.fwd_decls =~= all_prereqs(
            snippet_views(snippets@),
            snippets@.len() as int,
        ).plus(old(prereqs)@).fwd_decls,
{
    let ghost views = snippet_views(snippets@);
    let mut out = String::new();
    assert(out@ =~= Seq::<char>::empty());
    let mut i: usize = 0;
    while i < snippets.len()
        invariant
            i <= snippets.len(),
            views == snippet_views(snippets@),
            out@ == param_list(views, i as int),
            prereqs@.includes =~= all_prereqs(views, i as int).plus(old(prereqs)@).includes,
            prereqs@.defs =~= all_prereqs(views, i as int).plus(old(prereqs)@).defs,
            prereqs@.fwd_decls =~= all_prereqs(views, i as int).plus(old(prereqs)@).fwd_decls,
        decreases snippets.len() - i,
    {
        assert(views[i as int] == snippets@[i as int]@);
        if i > 0 {
            out.append(", ");
        } else {
            assert(out@ + snippets@[0].tokens@ =~= snippets@[0].tokens@);
        }
        out.append(snippets[i].tokens.as_str());
        prereqs.add_assign(snippets[i].prereqs.copy());
        i += 1;
    }
    out
}

/// Puts the spelling of a pointer to a function together from the
/// spellings of its return type and of its parameter types.
pub fn assemble_fn_ptr(
    krate: &Crate,
    ret: CcSnippet,
    params: Vec<CcSnippet>,
    location: TypeLocation,
) -> (s: CcSnippet)
    ensures
        s.tokens@ == "crubit :: type_identity_t < "@ + ret.tokens@ + "( "@ + param_list(
            snippet_views(params@),
            params@.len() as int,
        ) + ") > "@ + (if location == TypeLocation::Other {
            "* "@
        } else {
            "& "@
        }),
        s.prereqs@ == all_prereqs(snippet_views(params@), params@.len() as int).plus(
            PrereqsView::empty().with_include(
                support_header_key(*krate, "internal/cxx20_backports.h"@),
            ).plus(ret.prereqs@),
        ),
{
    let ghost views = snippet_views(params@);
    let ghost n = params@.len() as int;
    let ghost ret_prereqs = ret.prereqs@;
    let mut prereqs = CcPrerequisites::new();
    prereqs.includes.insert(krate.support_header("internal/cxx20_backports.h"));
    let ret_type = ret.into_tokens(&mut prereqs);
    let mut tokens = String::from_str("crubit :: type_identity_t < ");
    tokens.append(ret_type.as_str());
    tokens.append("( ");
    let list = join_snippets(params, &mut prereqs);
    tokens.append(list.as_str());
    tokens.append(") > ");
    match location {
        TypeLocation::Other => tokens.append("* "),
        _ => tokens.append("& "),
    }
    let s = CcSnippet { tokens, prereqs };
    proof {
        let a = all_prereqs(views, n);
        let b = PrereqsView::empty().with_include(
            support_header_key(*krate, "internal/cxx20_backports.h"@),
        ).plus(ret_prereqs);
        assert(s.prereqs@.includes =~= a.plus(b).includes);
        assert(s.prereqs@.defs =~= a.plus(b).defs);
        assert(s.prereqs@.fwd_decls =~= a.plus(b).fwd_decls);
    }
    s
}

/// Spells a pointer or a reference to `pointee`.
fn format_pointer_or_reference_ty_for_cc(
    krate: &Crate,
    pointee: &Ty,
    mutable: bool,
    pointer_sigil: &str,
) -> (r: Result<CcSnippet, Error>)
    ensures
        snippet_result_is(
            r,
            cc_pointer(
                *krate,
                *pointee,
                mutable,
                pointer_sigil@,
                cc_type(*krate, *pointee, TypeLocation::Other),
            ),
        ),
    decreases pointee, 1int,
{
    let mut tokens: String;
    let void = match pointee {
        Ty::Adt { def, .. } => match krate.adt(*def) {
            Some(a) => a.is_c_void,
            None => false,
        },
        _ => false,
    };
    if void {
        tokens = if mutable {
            String::from_str("")
        } else {
            String::from_str("const ")
        };
        tokens.append("void * ");
        return Ok(CcSnippet::new(tokens));
    }
    match format_ty_for_cc(krate, pointee, TypeLocation::Other) {
        Err(e) => Err(e),
        Ok(inner) => {
            let CcSnippet { tokens: inner_tokens, prereqs: mut prereqs } = inner;
            prereqs.move_defs_to_fwd_decls();
            tokens = inner_tokens;
            if mutable {
                tokens.append("");
            } else {
                tokens.append("const ");
            }
            tokens.append(pointer_sigil);
            Ok(CcSnippet { tokens, prereqs })
        },
    }
}

/// Spells the first `n` parameter types.
pub fn format_param_types_upto(krate: &Crate, inputs: &Vec<Ty>, n: usize) -> (r: Result<
    Vec<CcSnippet>,
    Error,
>)
    requires
        n <= inputs.len(),
    ensures
        match cc_param_types(*krate, inputs@, n as int) {
            Ok(v) => r matches Ok(s) && snippet_views(s@) == v,
            Err(e) => r matches Err(x) && x@ == e,
        },
    decreases inputs, n,
{
    if n == 0 {
        let v: Vec<CcSnippet> = Vec::new();
        assert(snippet_views(v@) =~= Seq::<SnippetView>::empty());
        return Ok(v);
    }
    let mut before = match format_param_types_upto(krate, inputs, n - 1) {
        Err(e) => {
            return Err(e);
        },
        Ok(b) => b,
    };
    proof {
        vstd::std_specs::vec::axiom_vec_index_decreases(*inputs, n - 1);
    }
    match format_ty_for_cc(krate, &inputs[n - 1], TypeLocation::FnParam) {
        Err(e) => {
            let mut c = String::from_str("Error handling parameter #");
            push_decimal(&mut c, (n - 1) as u64);
            Err(e.context(c))
        },
        Ok(s) => {
            let ghost old_views = snippet_views(before@);
            let ghost sv = s@;
            before.push(s);
            assert(snippet_views(before@) =~= old_views.push(sv));
            Ok(before)
        },
    }
}

/// Spells the types of the parameters of a signature.
pub fn format_param_types_for_cc(krate: &Crate, sig: &FnSig) -> (r: Result<Vec<CcSnippet>, Error>)
    ensures
        match cc_param_types(*krate, sig.inputs@, sig.inputs@.len() as int) {
            Ok(v) => r matches Ok(s) && snippet_views(s@) == v,
            Err(e) => r matches Err(x) && x@ == e,
        },
{
    format_param_types_upto(krate, &sig.inputs, sig.inputs.len())
}

/// How the return type of a signature is spelled in C++.
pub open spec fn cc_ret_type(krate: Crate, sig: SigView) -> Result<SnippetView, Messages> {
    in_context(
        "Error formatting function return type"@,
        cc_type(krate, sig.output, TypeLocation::FnReturn),
    )
}

/// Spells the return type of a signature.
pub fn format_ret_ty_for_cc(krate: &Crate, sig: &FnSig) -> (r: Result<CcSnippet, Error>)
    ensures
        snippet_result_is(r, cc_ret_type(*krate, sig@)),
{
    match format_ty_for_cc(krate, &sig.output, TypeLocation::FnReturn) {
        Ok(s) => Ok(s),
        Err(e) => Err(e.context(String::from_str("Error formatting function return type"))),
    }
}

/// How a type is spelled in Rust code that lies outside the crate; or why
/// it cannot be spelled.
pub open spec fn rs_type(krate: Crate, t: Ty) -> Result<Seq<char>, Messages>
    decreases t,
{
    match t {
        Ty::Bool => Ok(ty_display(t) + " "@),
        Ty::Float(_) => Ok(ty_display(t) + " "@),
        Ty::Char => Ok(ty_display(t) + " "@),
        Ty::Int(_) => Ok(ty_display(t) + " "@),
        Ty::Uint(_) => Ok(ty_display(t) + " "@),
        Ty::Never => Ok(ty_display(t) + " "@),
        Ty::FnPtr { .. } => match token_text(ty_display(t)) {
            Some(tokens) => Ok(tokens + " "@),
            None => Err(seq!["The following Rust type is not supported yet: "@ + ty_display(t)]),
        },
        Ty::Unit => Ok("( ) "@),
        Ty::Tuple(v) => if v@.len() == 0 {
            Ok("( ) "@)
        } else {
            Err(seq!["Tuples are not supported yet: "@ + ty_display(t) + " (b/254099023)"@])
        },
        Ty::Adt { def, generic_args, display } => if generic_args != 0 {
            Err(seq!["Generic types are not supported yet (b/259749095)"@])
        } else if def >= krate.defs@.len() || krate.defs@[def as int].name is None {
            Err(seq!["The type `"@ + display@ + "` has no definition in the crate's table"@])
        } else {
            Ok(def_rs_name(krate.defs@[def as int]) + " "@)
        },
        Ty::RawPtr { pointee, mutable } => match in_context(
            "Failed to format the pointee of the pointer type `"@ + ty_display(t) + "`"@,
            rs_type(krate, *pointee),
        ) {
            Err(e) => Err(e),
            Ok(inner) => Ok(
                (if mutable {
                    "* mut "@
                } else {
                    "* const "@
                }) + inner,
            ),
        },
        Ty::Ref { lifetime, referent, mutable } => match in_context(
            "Failed to format the referent of the reference type `"@ + ty_display(t) + "`"@,
            rs_type(krate, *referent),
        ) {
            Err(e) => Err(e),
            Ok(inner) => Ok(
                "& "@ + rs_lifetime(lifetime_name(lifetime)) + (if mutable {
                    "mut "@
                } else {
                    ""@
                }) + inner,
            ),
        },
        _ => Err(seq!["The following Rust type is not supported yet: "@ + ty_display(t)]),
    }
}

/// Decides the Rust spelling of a pointer to a function from what the
/// tokenizer made of the type as the compiler prints it.
pub fn fn_ptr_for_rs(shown: String, tokens: Option<String>) -> (r: Result<String, Error>)
    ensures
        match tokens {
            Some(t) => r matches Ok(s) && s@ == t@ + " "@,
            None => r matches Err(x) && x@ == seq![
                "The following Rust type is not supported yet: "@ + shown@,
            ],
        },
{
    match tokens {
        Some(t) => {
            let mut t = t;
            t.append(" ");
            Ok(t)
        },
        None => {
            let mut m = String::from_str("The following Rust type is not supported yet: ");
            m.append(shown.as_str());
            Err(Error::msg(m))
        },
    }
}

/// Spells a type for Rust code that lies outside the crate, so that names
/// are written with their crate.
pub fn format_ty_for_rs(krate: &Crate, ty: &Ty) -> (r: Result<String, Error>)
    ensures
        text_result_is(r, rs_type(*krate, *ty)),
    decreases ty,
{
    match ty {
        Ty::Bool | Ty::Float(_) | Ty::Char | Ty::Int(_) | Ty::Uint(_) | Ty::Never => {
            let mut s = ty.display();
            s.append(" ");
            Ok(s)
        },
        Ty::FnPtr { .. } => {
            let shown = ty.display();
            let tokens = tokenize(shown.as_str());
            fn_ptr_for_rs(shown, tokens)
        },
        Ty::Unit => Ok(String::from_str("( ) ")),
        Ty::Tuple(types) => {
            if types.len() == 0 {
                Ok(String::from_str("( ) "))
            } else {
                let mut m = String::from_str("Tuples are not supported yet: ");
                m.append(ty.display().as_str());
                m.append(" (b/254099023)");
                Err(Error::msg(m))
            }
        },
        Ty::Adt { def, generic_args, display } => {
            if *generic_args != 0 {
                return Err(Error::new("Generic types are not supported yet (b/259749095)"));
            }
            if *def >= krate.defs.len() || krate.defs[*def].name.is_none() {
                let mut m = String::from_str("The type `");
                m.append(display.as_str());
                m.append("` has no definition in the crate's table");
                return Err(Error::msg(m));
            }
            let mut s = krate.defs[*def].qualified_name(&None).format_for_rs();
            s.append(" ");
            Ok(s)
        },
        Ty::RawPtr { pointee, mutable } => {
            match format_ty_for_rs(krate, pointee) {
                Err(e) => {
                    let mut c = String::from_str("Failed to format the pointee of the pointer type `");
                    c.append(ty.display().as_str());
                    c.append("`");
                    Err(e.context(c))
                },
                Ok(inner) => {
                    let mut s = if *mutable {
                        String::from_str("* mut ")
                    } else {
                        String::from_str("* const ")
                    };
                    s.append(inner.as_str());
                    Ok(s)
                },
            }
        },
        Ty::Ref { lifetime, referent, mutable } => {
            match format_ty_for_rs(krate, referent) {
                Err(e) => {
                    let mut c = String::from_str(
                        "Failed to format the referent of the reference type `",
                    );
                    c.append(ty.display().as_str());
                    c.append("`");
                    Err(e.context(c))
                },
                Ok(inner) => {
                    let mut s = String::from_str("& ");
                    s.append(format_region_as_rs_lifetime(lifetime.name().as_str()).as_str());
                    if *mutable {
                        s.append("mut ");
                    } else {
                        s.append("");
                    }
                    s.append(inner.as_str());
                    Ok(s)
                },
            }
        },
        _ => {
            let mut m = String::from_str("The following Rust type is not supported yet: ");
            m.append(ty.display().as_str());
            Err(Error::msg(m))
        },
    }
}

} // verus!
