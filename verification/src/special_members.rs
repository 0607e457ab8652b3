//! The special member functions of a bound type: default constructor, copy
//! and move operations, each from what the Rust type can do. Where the
//! type cannot do what an operation needs, the operation is deleted, with
//! a comment that says why.

use vstd::prelude::*;
use vstd::string::*;
use crate::cc_ident::{
    cc_ident, escape_non_identifier_chars, escaped_symbol, format_cc_ident, make_rs_ident,
    rs_ident,
};
use crate::error::{full_message, Error};
use crate::prereqs::{
    ApiSnippets, ApiView, CcInclude, CcPrerequisites, CcSnippet, PrereqsView, SnippetView,
};
use crate::rs_model::{Abi, Crate, FnSig, Lifetime, SigView, Ty};
use crate::text::views;
use crate::thunks::{
    comment_tokens, format_comment, format_thunk_decl, format_thunk_impl, thunk_decl, thunk_impl,
};
use crate::type_map::{
    adt_of, support_header_key, system_header_key, AdtCoreBindings, AdtCoreView, Messages,
};

verus! {

/// The type that `def` names, as a type of the crate.
pub open spec fn self_ty(krate: Crate, def: usize) -> Ty {
    Ty::Adt { def, generic_args: 0, display: krate.defs@[def as int].path_display }
}

/// The type that `def` names, as a type of the crate.
pub fn make_self_ty(krate: &Crate, def: usize) -> (r: Ty)
    requires
        def < krate.defs@.len(),
    ensures
        r == self_ty(*krate, def),
{
    Ty::Adt { def, generic_args: 0, display: krate.defs[def].path_display.clone() }
}

/// A reference to the type itself with the `n`-th lifetime that the source
/// leaves out.
pub open spec fn self_ref(krate: Crate, def: usize, n: u32, mutable: bool) -> Ty {
    Ty::Ref {
        lifetime: Lifetime::Anonymous(n),
        referent: Box::new(self_ty(krate, def)),
        mutable,
    }
}

/// The signature of a method of a trait, all of which have the convention
/// of Rust and are safe.
pub open spec fn method_sig(inputs: Seq<Ty>, output: Ty) -> SigView {
    SigView { inputs, output, c_variadic: false, is_unsafe: false, abi: Abi::Rust }
}

/// `fn default() -> Self`
pub open spec fn default_sig(krate: Crate, def: usize) -> SigView {
    method_sig(Seq::empty(), self_ty(krate, def))
}

/// `fn clone(&self) -> Self`
pub open spec fn clone_sig(krate: Crate, def: usize) -> SigView {
    method_sig(seq![self_ref(krate, def, 1, false)], self_ty(krate, def))
}

/// `fn clone_from(&mut self, source: &Self)`
pub open spec fn clone_from_sig(krate: Crate, def: usize) -> SigView {
    method_sig(seq![self_ref(krate, def, 1, true), self_ref(krate, def, 2, false)], Ty::Unit)
}

/// `fn drop(&mut self)`
pub open spec fn drop_sig(krate: Crate, def: usize) -> SigView {
    method_sig(seq![self_ref(krate, def, 1, true)], Ty::Unit)
}

/// The thunk of one method of a trait.
#[derive(Debug)]
pub struct MethodThunk {
    /// The thunk's name in C++.
    pub cc_name: String,
    /// The thunk's declaration in C++.
    pub decl: CcSnippet,
    /// The thunk's definition in Rust.
    pub rs_impl: String,
}

/// The values of a `MethodThunk`.
pub struct MethodThunkView {
    pub cc_name: Seq<char>,
    pub decl: SnippetView,
    pub rs_impl: Seq<char>,
}

impl View for MethodThunk {
    type V = MethodThunkView;

    open spec fn view(&self) -> MethodThunkView {
        MethodThunkView { cc_name: self.cc_name@, decl: self.decl@, rs_impl: self.rs_impl@ }
    }
}

/// The name of the thunk of the function with the given linker symbol.
pub open spec fn thunk_name_of(symbol: Seq<char>) -> Seq<char> {
    "__crubit_thunk_"@ + escaped_symbol(symbol)
}

/// How a thunk names the method of a trait that it calls.
pub open spec fn trait_callee(struct_name: Seq<char>, trait_name: Seq<char>, method: Seq<char>) -> Seq<
    char,
> {
    "< "@ + struct_name + " as "@ + trait_name + " > :: "@ + rs_ident(method) + " "@
}

/// The thunk of a method that is called through its trait.
pub open spec fn method_thunk(
    krate: Crate,
    sig: SigView,
    names: Seq<Seq<char>>,
    symbol: Seq<char>,
    callee: Seq<char>,
) -> Result<MethodThunkView, Messages> {
    match cc_ident(thunk_name_of(symbol)) {
        Err(e) => Err(e),
        Ok(cc_name) => match thunk_decl(krate, sig, cc_name) {
            Err(e) => Err(e),
            Ok(decl) => match thunk_impl(krate, sig, names, thunk_name_of(symbol), callee) {
                Err(e) => Err(e),
                Ok(rs_impl) => Ok(MethodThunkView { cc_name, decl, rs_impl }),
            },
        },
    }
}

/// The thunk that drops a value in place. It is written out here, as Rust
/// lets nobody name the method `drop` of the trait `Drop`.
pub open spec fn drop_thunk(krate: Crate, def: usize, struct_name: Seq<char>, symbol: Seq<char>) -> Result<
    MethodThunkView,
    Messages,
> {
    match cc_ident(thunk_name_of(symbol)) {
        Err(e) => Err(e),
        Ok(cc_name) => match thunk_decl(krate, drop_sig(krate, def), cc_name) {
            Err(e) => Err(e),
            Ok(decl) => Ok(
                MethodThunkView {
                    cc_name,
                    decl,
                    rs_impl: "# [ no_mangle ] extern \"C\" fn "@ + rs_ident(thunk_name_of(symbol))
                        + " ( __self : & mut :: core :: mem :: MaybeUninit < "@ + struct_name
                        + " > ) { unsafe { __self . assume_init_drop ( ) } ; } "@,
                },
            ),
        },
    }
}

/// A method thunk result and the function's result agree.
pub open spec fn method_thunk_is(
    r: Result<MethodThunk, Error>,
    expected: Result<MethodThunkView, Messages>,
) -> bool {
    match expected {
        Ok(v) => r matches Ok(t) && t@ == v,
        Err(e) => r matches Err(x) && x@ == e,
    }
}

/// The name of the thunk of the function with the given linker symbol.
pub fn make_thunk_name(symbol: &str) -> (r: String)
    ensures
        r@ == thunk_name_of(symbol@),
{
    let mut s = String::from_str("__crubit_thunk_");
    s.append(escape_non_identifier_chars(symbol).as_str());
    s
}

/// Binds one method of a trait through a thunk.
pub fn format_method_thunk(
    krate: &Crate,
    sig: &FnSig,
    param_names: &Vec<String>,
    symbol: &str,
    callee: &str,
) -> (r: Result<MethodThunk, Error>)
    ensures
        method_thunk_is(r, method_thunk(*krate, sig@, views(param_names@), symbol@, callee@)),
{
    let thunk_name = make_thunk_name(symbol);
    let cc_name = match format_cc_ident(thunk_name.as_str()) {
        Ok(n) => n,
        Err(e) => {
            return Err(e);
        },
    };
    let decl = match format_thunk_decl(krate, sig, cc_name.as_str()) {
        Ok(d) => d,
        Err(e) => {
            return Err(e);
        },
    };
    let rs_impl = match format_thunk_impl(krate, sig, param_names, thunk_name.as_str(), callee) {
        Ok(i) => i,
        Err(e) => {
            return Err(e);
        },
    };
    Ok(MethodThunk { cc_name, decl, rs_impl })
}

/// Writes how a thunk names the method of a trait that it calls.
pub fn format_trait_callee(struct_name: &str, trait_name: &str, method: &str) -> (r: String)
    ensures
        r@ == trait_callee(struct_name@, trait_name@, method@),
{
    let mut s = String::from_str("< ");
    s.append(struct_name);
    s.append(" as ");
    s.append(trait_name);
    s.append(" > :: ");
    s.append(make_rs_ident(method).as_str());
    s.append(" ");
    s
}

/// A reference to the type itself.
fn make_self_ref(krate: &Crate, def: usize, n: u32, mutable: bool) -> (r: Ty)
    requires
        def < krate.defs@.len(),
    ensures
        r == self_ref(*krate, def, n, mutable),
{
    Ty::Ref {
        lifetime: Lifetime::Anonymous(n),
        referent: Box::new(make_self_ty(krate, def)),
        mutable,
    }
}

/// The signature of a method of a trait.
fn make_method_sig(inputs: Vec<Ty>, output: Ty) -> (r: FnSig)
    ensures
        r@ == method_sig(inputs@, output),
{
    FnSig { inputs, output, c_variadic: false, is_unsafe: false, abi: Abi::Rust }
}

/// Why the type lacks the thunks of `Default`, or the thunk of `default`.
pub open spec fn default_thunks(krate: Crate, core: AdtCoreView) -> Result<
    MethodThunkView,
    Messages,
> {
    let adt = adt_of(krate, core.def)->0;
    if !adt.implements_default {
        Err(
            seq![
                "`"@ + krate.defs@[core.def as int].path_display@
                    + "` doesn't implement the `Default` trait"@,
            ],
        )
    } else {
        method_thunk(
            krate,
            default_sig(krate, core.def),
            Seq::empty(),
            adt.default_symbol@,
            trait_callee(
                core.rs_fully_qualified_name,
                ":: core :: default :: Default"@,
                "default"@,
            ),
        )
    }
}

/// Binds `Default::default` through a thunk.
pub fn format_default_thunks(krate: &Crate, core: &AdtCoreBindings) -> (r: Result<
    MethodThunk,
    Error,
>)
    requires
        adt_of(*krate, core.def) is Some,
    ensures
        method_thunk_is(r, default_thunks(*krate, core@)),
{
    let adt = match krate.adt(core.def) {
        Some(a) => a,
        None => {
            return Err(Error::new(""));
        },
    };
    if !adt.implements_default {
        let mut m = String::from_str("`");
        m.append(krate.defs[core.def].path_display.as_str());
        m.append("` doesn't implement the `Default` trait");
        return Err(Error::msg(m));
    }
    let sig = make_method_sig(Vec::new(), make_self_ty(krate, core.def));
    assert(sig@.inputs =~= Seq::<Ty>::empty());
    let names: Vec<String> = Vec::new();
    assert(views(names@) =~= Seq::<Seq<char>>::empty());
    let callee = format_trait_callee(
        core.rs_fully_qualified_name.as_str(),
        ":: core :: default :: Default",
        "default",
    );
    format_method_thunk(krate, &sig, &names, adt.default_symbol.as_str(), callee.as_str())
}

/// The declaration of a default constructor that is bound, or that is
/// deleted for the given reason.
pub open spec fn default_ctor_api(core: AdtCoreView, thunk: Result<MethodThunkView, Messages>) -> Result<
    ApiView,
    ApiView,
> {
    let name = core.cc_short_name;
    match thunk {
        Ok(t) => Ok(
            ApiView {
                main_tokens: "__NEWLINE__ "@ + comment_tokens("Default::default"@) + name
                    + " ( ) ; __NEWLINE__ __NEWLINE__ "@,
                main_prereqs: PrereqsView::empty(),
                details_tokens: t.decl.tokens + "inline "@ + name + " :: "@ + name
                    + " ( ) { __crubit_internal :: "@ + t.cc_name + " ( this ) ; } "@,
                details_prereqs: PrereqsView::empty().plus(t.decl.prereqs),
                rs_details: t.rs_impl,
            },
        ),
        Err(e) => Err(
            ApiView::main_only(
                "__NEWLINE__ "@ + comment_tokens(full_message(e)) + name
                    + " ( ) = delete ; __NEWLINE__ "@,
            ),
        ),
    }
}

/// The default constructor of a bound type. It calls `Default::default`
/// through a thunk; a type that does not implement `Default` has it
/// deleted.
pub open spec fn default_ctor(krate: Crate, core: AdtCoreView) -> Result<ApiView, ApiView> {
    default_ctor_api(core, default_thunks(krate, core))
}

/// A bundle result and the function's result agree.
pub open spec fn api_result_is(
    r: Result<ApiSnippets, ApiSnippets>,
    expected: Result<ApiView, ApiView>,
) -> bool {
    match expected {
        Ok(v) => r matches Ok(a) && a@ == v,
        Err(v) => r matches Err(a) && a@ == v,
    }
}

/// Writes a declaration from a comment and what follows it.
fn commented(comment: &str, rest_a: &str, rest_b: &str, rest_c: &str) -> (r: String)
    ensures
        r@ == "__NEWLINE__ "@ + comment_tokens(comment@) + rest_a@ + rest_b@ + rest_c@,
{
    let mut s = String::from_str("__NEWLINE__ ");
    s.append(format_comment(comment).as_str());
    s.append(rest_a);
    s.append(rest_b);
    s.append(rest_c);
    s
}

/// Binds the default constructor of a type, if the type implements
/// `Default`; the error holds the deleted constructor.
pub fn format_default_ctor(krate: &Crate, core: &AdtCoreBindings) -> (r: Result<
    ApiSnippets,
    ApiSnippets,
>)
    requires
        adt_of(*krate, core.def) is Some,
    ensures
        api_result_is(r, default_ctor(*krate, core@)),
{
    let name = core.cc_short_name.as_str();
    match format_default_thunks(krate, core) {
        Ok(t) => {
            let main = commented("Default::default", name, " ( ) ; __NEWLINE__ __NEWLINE__ ", "");
            assert(main@ =~= "__NEWLINE__ "@ + comment_tokens("Default::default"@) + name@
                + " ( ) ; __NEWLINE__ __NEWLINE__ "@) by {
                reveal_strlit("");
            }
            let MethodThunk { cc_name, decl, rs_impl } = t;
            let mut prereqs = CcPrerequisites::new();
            let mut tokens = decl.into_tokens(&mut prereqs);
            tokens.append("inline ");
            tokens.append(name);
            tokens.append(" :: ");
            tokens.append(name);
            tokens.append(" ( ) { __crubit_internal :: ");
            tokens.append(cc_name.as_str());
            tokens.append(" ( this ) ; } ");
            Ok(
                ApiSnippets {
                    main_api: CcSnippet::new(main),
                    cc_details: CcSnippet { tokens, prereqs },
                    rs_details: rs_impl,
                },
            )
        },
        Err(e) => {
            let msg = e.full_message();
            let main = commented(msg.as_str(), name, " ( ) = delete ; __NEWLINE__ ", "");
            assert(main@ =~= "__NEWLINE__ "@ + comment_tokens(msg@) + name@
                + " ( ) = delete ; __NEWLINE__ "@) by {
                reveal_strlit("");
            }
            Err(ApiSnippets::main_only(main))
        },
    }
}

/// Why the type lacks the thunks of `Clone`, or the thunks of `clone` and
/// of `clone_from`.
pub open spec fn clone_thunks(krate: Crate, core: AdtCoreView) -> Result<
    (MethodThunkView, MethodThunkView),
    Messages,
> {
    let adt = adt_of(krate, core.def)->0;
    if !adt.implements_clone {
        Err(
            seq![
                "`"@ + krate.defs@[core.def as int].path_display@
                    + "` doesn't implement the `Clone` trait"@,
            ],
        )
    } else {
        match method_thunk(
            krate,
            clone_sig(krate, core.def),
            seq!["self"@],
            adt.clone_symbol@,
            trait_callee(core.rs_fully_qualified_name, ":: core :: clone :: Clone"@, "clone"@),
        ) {
            Err(e) => Err(e),
            Ok(c) => match method_thunk(
                krate,
                clone_from_sig(krate, core.def),
                seq!["self"@, "source"@],
                adt.clone_from_symbol@,
                trait_callee(
                    core.rs_fully_qualified_name,
                    ":: core :: clone :: Clone"@,
                    "clone_from"@,
                ),
            ) {
                Err(e) => Err(e),
                Ok(f) => Ok((c, f)),
            },
        }
    }
}

/// Binds `Clone::clone` and `Clone::clone_from` through thunks.
pub fn format_clone_thunks(krate: &Crate, core: &AdtCoreBindings) -> (r: Result<
    (MethodThunk, MethodThunk),
    Error,
>)
    requires
        adt_of(*krate, core.def) is Some,
    ensures
        match clone_thunks(*krate, core@) {
            Ok(v) => r matches Ok(t) && t.0@ == v.0 && t.1@ == v.1,
            Err(e) => r matches Err(x) && x@ == e,
        },
{
    let adt = match krate.adt(core.def) {
        Some(a) => a,
        None => {
            return Err(Error::new(""));
        },
    };
    if !adt.implements_clone {
        let mut m = String::from_str("`");
        m.append(krate.defs[core.def].path_display.as_str());
        m.append("` doesn't implement the `Clone` trait");
        return Err(Error::msg(m));
    }
    let mut inputs: Vec<Ty> = Vec::new();
    inputs.push(make_self_ref(krate, core.def, 1, false));
    let sig = make_method_sig(inputs, make_self_ty(krate, core.def));
    assert(sig@.inputs =~= seq![self_ref(*krate, core.def, 1, false)]);
    let mut names: Vec<String> = Vec::new();
    names.push(String::from_str("self"));
    assert(views(names@) =~= seq!["self"@]);
    let callee = format_trait_callee(
        core.rs_fully_qualified_name.as_str(),
        ":: core :: clone :: Clone",
        "clone",
    );
    let c = match format_method_thunk(
        krate,
        &sig,
        &names,
        adt.clone_symbol.as_str(),
        callee.as_str(),
    ) {
        Ok(t) => t,
        Err(e) => {
            return Err(e);
        },
    };
    let mut inputs: Vec<Ty> = Vec::new();
    inputs.push(make_self_ref(krate, core.def, 1, true));
    inputs.push(make_self_ref(krate, core.def, 2, false));
    let sig = make_method_sig(inputs, Ty::Unit);
    assert(sig@.inputs =~= seq![
        self_ref(*krate, core.def, 1, true),
        self_ref(*krate, core.def, 2, false),
    ]);
    names.push(String::from_str("source"));
    assert(views(names@) =~= seq!["self"@, "source"@]);
    let callee = format_trait_callee(
        core.rs_fully_qualified_name.as_str(),
        ":: core :: clone :: Clone",
        "clone_from",
    );
    let f = match format_method_thunk(
        krate,
        &sig,
        &names,
        adt.clone_from_symbol.as_str(),
        callee.as_str(),
    ) {
        Ok(t) => t,
        Err(e) => {
            return Err(e);
        },
    };
    Ok((c, f))
}

/// The copy operations of a type that is `Copy`: those that the compiler
/// gives, with assertions that they are trivial.
pub open spec fn trivial_copy(name: Seq<char>) -> ApiView {
    ApiView {
        main_tokens: "__NEWLINE__ "@ + comment_tokens(
            "Rust types that are `Copy` get trivial, `default` C++ copy constructor and assignment operator."@,
        ) + name + " ( const "@ + name + " & ) = default ; __NEWLINE__ "@ + name
            + " & operator = ( const "@ + name + " & ) = default ; "@,
        main_prereqs: PrereqsView::empty(),
        details_tokens: "static_assert ( std :: is_trivially_copy_constructible_v < "@ + name
            + " > ) ; static_assert ( std :: is_trivially_copy_assignable_v < "@ + name
            + " > ) ; "@,
        details_prereqs: PrereqsView::empty().with_include(system_header_key("type_traits"@)),
        rs_details: Seq::empty(),
    }
}

/// The copy operations of a type that implements `Clone`, through thunks.
pub open spec fn cloning_copy(name: Seq<char>, c: MethodThunkView, f: MethodThunkView) -> ApiView {
    ApiView {
        main_tokens: "__NEWLINE__ "@ + comment_tokens("Clone::clone"@) + name + " ( const "@ + name
            + " & ) ; __NEWLINE__ __NEWLINE__ "@ + comment_tokens("Clone::clone_from"@) + name
            + " & operator = ( const "@ + name + " & ) ; __NEWLINE__ __NEWLINE__ "@,
        main_prereqs: PrereqsView::empty(),
        details_tokens: c.decl.tokens + f.decl.tokens + "inline "@ + name + " :: "@ + name
            + " ( const "@ + name + " & other ) { __crubit_internal :: "@ + c.cc_name
            + " ( other , this ) ; } inline "@ + name + " & "@ + name + " :: operator = ( const "@
            + name + " & other ) { if ( this != & other ) { __crubit_internal :: "@ + f.cc_name
            + " ( * this , other ) ; } return * this ; } "@,
        details_prereqs: PrereqsView::empty().plus(c.decl.prereqs).plus(f.decl.prereqs),
        rs_details: c.rs_impl + f.rs_impl,
    }
}

/// The copy operations, deleted for the given reason.
pub open spec fn deleted_copy(name: Seq<char>, reason: Seq<char>) -> ApiView {
    ApiView::main_only(
        "__NEWLINE__ "@ + comment_tokens(reason) + name + " ( const "@ + name
            + " & ) = delete ; __NEWLINE__ "@ + name + " & operator = ( const "@ + name
            + " & ) = delete ; "@,
    )
}

/// The copy constructor and the copy assignment of a bound type. A type
/// that is `Copy` gets the trivial ones. A type that implements `Clone`
/// gets ones that call `clone` and `clone_from` through thunks. Any other
/// type has them deleted.
pub open spec fn copy_ctor(krate: Crate, core: AdtCoreView) -> Result<ApiView, ApiView> {
    let adt = adt_of(krate, core.def)->0;
    if adt.is_copy {
        Ok(trivial_copy(core.cc_short_name))
    } else {
        match clone_thunks(krate, core) {
            Ok(t) => Ok(cloning_copy(core.cc_short_name, t.0, t.1)),
            Err(e) => Err(deleted_copy(core.cc_short_name, full_message(e))),
        }
    }
}

/// Writes the trivial copy operations.
fn format_trivial_copy(name: &str) -> (r: ApiSnippets)
    ensures
        r@ == trivial_copy(name@),
{
    let mut main = String::from_str("__NEWLINE__ ");
    main.append(
        format_comment(
            "Rust types that are `Copy` get trivial, `default` C++ copy constructor and assignment operator.",
        ).as_str(),
    );
    main.append(name);
    main.append(" ( const ");
    main.append(name);
    main.append(" & ) = default ; __NEWLINE__ ");
    main.append(name);
    main.append(" & operator = ( const ");
    main.append(name);
    main.append(" & ) = default ; ");
    let mut details = String::from_str("static_assert ( std :: is_trivially_copy_constructible_v < ");
    details.append(name);
    details.append(" > ) ; static_assert ( std :: is_trivially_copy_assignable_v < ");
    details.append(name);
    details.append(" > ) ; ");
    let r = ApiSnippets {
        main_api: CcSnippet::new(main),
        cc_details: CcSnippet::with_include(details, CcInclude::type_traits()),
        rs_details: String::new(),
    };
    assert(r@.rs_details =~= Seq::<char>::empty());
    r
}

/// Writes the copy operations that call `Clone` through thunks.
fn format_cloning_copy(name: &str, c: MethodThunk, f: MethodThunk) -> (r: ApiSnippets)
    ensures
        r@ == cloning_copy(name@, c@, f@),
{
    let mut main = String::from_str("__NEWLINE__ ");
    main.append(format_comment("Clone::clone").as_str());
    main.append(name);
    main.append(" ( const ");
    main.append(name);
    main.append(" & ) ; __NEWLINE__ __NEWLINE__ ");
    main.append(format_comment("Clone::clone_from").as_str());
    main.append(name);
    main.append(" & operator = ( const ");
    main.append(name);
    main.append(" & ) ; __NEWLINE__ __NEWLINE__ ");
    let MethodThunk { cc_name: clone_name, decl: clone_decl, rs_impl: clone_impl } = c;
    let MethodThunk { cc_name: clone_from_name, decl: clone_from_decl, rs_impl: clone_from_impl } =
        f;
    let mut prereqs = CcPrerequisites::new();
    let mut tokens = clone_decl.into_tokens(&mut prereqs);
    tokens.append(clone_from_decl.into_tokens(&mut prereqs).as_str());
    tokens.append("inline ");
    tokens.append(name);
    tokens.append(" :: ");
    tokens.append(name);
    tokens.append(" ( const ");
    tokens.append(name);
    tokens.append(" & other ) { __crubit_internal :: ");
    tokens.append(clone_name.as_str());
    tokens.append(" ( other , this ) ; } inline ");
    tokens.append(name);
    tokens.append(" & ");
    tokens.append(name);
    tokens.append(" :: operator = ( const ");
    tokens.append(name);
    tokens.append(" & other ) { if ( this != & other ) { __crubit_internal :: ");
    tokens.append(clone_from_name.as_str());
    tokens.append(" ( * this , other ) ; } return * this ; } ");
    let mut rs_details = clone_impl;
    rs_details.append(clone_from_impl.as_str());
    ApiSnippets {
        main_api: CcSnippet::new(main),
        cc_details: CcSnippet { tokens, prereqs },
        rs_details,
    }
}

/// Writes the deleted copy operations.
fn format_deleted_copy(name: &str, reason: &str) -> (r: ApiSnippets)
    ensures
        r@ == deleted_copy(name@, reason@),
{
    let mut main = String::from_str("__NEWLINE__ ");
    main.append(format_comment(reason).as_str());
    main.append(name);
    main.append(" ( const ");
    main.append(name);
    main.append(" & ) = delete ; __NEWLINE__ ");
    main.append(name);
    main.append(" & operator = ( const ");
    main.append(name);
    main.append(" & ) = delete ; ");
    ApiSnippets::main_only(main)
}

/// Binds the copy constructor and the copy assignment of a type, if the
/// type is `Copy` or implements `Clone`; the error holds the deleted
/// operations.
pub fn format_copy_ctor_and_assignment_operator(krate: &Crate, core: &AdtCoreBindings) -> (r: Result<
    ApiSnippets,
    ApiSnippets,
>)
    requires
        adt_of(*krate, core.def) is Some,
    ensures
        api_result_is(r, copy_ctor(*krate, core@)),
{
    let name = core.cc_short_name.as_str();
    let is_copy = match krate.adt(core.def) {
        Some(a) => a.is_copy,
        None => false,
    };
    if is_copy {
        return Ok(format_trivial_copy(name));
    }
    match format_clone_thunks(krate, core) {
        Ok(t) => Ok(format_cloning_copy(name, t.0, t.1)),
        Err(e) => Err(format_deleted_copy(name, e.full_message().as_str())),
    }
}

/// The move operations of a type whose values are dropped without running
/// code: those that the compiler gives, with assertions that they are
/// trivial. Every Rust value may be moved by copying its bytes.
pub open spec fn trivial_move(name: Seq<char>) -> ApiView {
    ApiView {
        main_tokens: name + " ( "@ + name + " && ) = default ; __NEWLINE__ "@ + name
            + " & operator = ( "@ + name + " && ) = default ; __NEWLINE__ __NEWLINE__ "@,
        main_prereqs: PrereqsView::empty(),
        details_tokens: "static_assert ( std :: is_trivially_move_constructible_v < "@ + name
            + " > ) ; static_assert ( std :: is_trivially_move_assignable_v < "@ + name
            + " > ) ; "@,
        details_prereqs: PrereqsView::empty().with_include(system_header_key("type_traits"@)),
        rs_details: Seq::empty(),
    }
}

/// The move operations of a type with a default constructor whose values
/// do not mind where they lie: construct, then swap the bytes.
pub open spec fn swapping_move(krate: Crate, name: Seq<char>) -> ApiView {
    ApiView {
        main_tokens: name + " ( "@ + name + " && ) ; __NEWLINE__ "@ + name + " & operator = ( "@
            + name + " && ) ; __NEWLINE__ "@,
        main_prereqs: PrereqsView::empty(),
        details_tokens: "inline "@ + name + " :: "@ + name + " ( "@ + name + " && other ) : "@
            + name + " ( ) { * this = std :: move ( other ) ; } inline "@ + name + " & "@ + name
            + " :: operator = ( "@ + name
            + " && other ) { crubit :: MemSwap ( * this , other ) ; return * this ; } "@,
        details_prereqs: PrereqsView::empty().with_include(
            support_header_key(krate, "internal/memswap.h"@),
        ).with_include(system_header_key("utility"@)),
        rs_details: Seq::empty(),
    }
}

/// The move operations, deleted for the given reason.
pub open spec fn deleted_move(name: Seq<char>, reason: Seq<char>) -> ApiView {
    ApiView::main_only(
        "__NEWLINE__ "@ + comment_tokens(reason) + name + " ( "@ + name
            + " && ) = delete ; __NEWLINE__ "@ + name + " & operator = ( "@ + name
            + " && ) = delete ; "@,
    )
}

/// The move constructor and the move assignment of a bound type.
///
/// A type whose values are dropped without running code gets the trivial
/// ones. Of the other types, one that has a default constructor and whose
/// values do not mind where they lie gets ones that construct and swap.
/// One that has copy operations gets no move operations at all, so that
/// a move copies. Any other type has them deleted.
pub open spec fn move_ctor(krate: Crate, core: AdtCoreView) -> Result<ApiView, ApiView> {
    let adt = adt_of(krate, core.def)->0;
    if adt.needs_drop {
        if default_ctor(krate, core) is Ok && adt.is_unpin {
            Ok(swapping_move(krate, core.cc_short_name))
        } else if copy_ctor(krate, core) is Ok {
            Ok(ApiView::empty())
        } else {
            Err(
                deleted_move(
                    core.cc_short_name,
                    "C++ moves are deleted because there's no non-destructive implementation available."@,
                ),
            )
        }
    } else {
        Ok(trivial_move(core.cc_short_name))
    }
}

/// Writes the trivial move operations.
fn format_trivial_move(name: &str) -> (r: ApiSnippets)
    ensures
        r@ == trivial_move(name@),
{
    let mut main = String::from_str(name);
    main.append(" ( ");
    main.append(name);
    main.append(" && ) = default ; __NEWLINE__ ");
    main.append(name);
    main.append(" & operator = ( ");
    main.append(name);
    main.append(" && ) = default ; __NEWLINE__ __NEWLINE__ ");
    let mut details = String::from_str("static_assert ( std :: is_trivially_move_constructible_v < ");
    details.append(name);
    details.append(" > ) ; static_assert ( std :: is_trivially_move_assignable_v < ");
    details.append(name);
    details.append(" > ) ; ");
    let r = ApiSnippets {
        main_api: CcSnippet::new(main),
        cc_details: CcSnippet::with_include(details, CcInclude::type_traits()),
        rs_details: String::new(),
    };
    assert(r@.rs_details =~= Seq::<char>::empty());
    r
}

/// Writes the move operations that construct and swap.
fn format_swapping_move(krate: &Crate, name: &str) -> (r: ApiSnippets)
    ensures
        r@ == swapping_move(*krate, name@),
{
    let mut main = String::from_str(name);
    main.append(" ( ");
    main.append(name);
    main.append(" && ) ; __NEWLINE__ ");
    main.append(name);
    main.append(" & operator = ( ");
    main.append(name);
    main.append(" && ) ; __NEWLINE__ ");
    let mut prereqs = CcPrerequisites::new();
    prereqs.includes.insert(krate.support_header("internal/memswap.h"));
    prereqs.includes.insert(CcInclude::utility());
    let mut tokens = String::from_str("inline ");
    tokens.append(name);
    tokens.append(" :: ");
    tokens.append(name);
    tokens.append(" ( ");
    tokens.append(name);
    tokens.append(" && other ) : ");
    tokens.append(name);
    tokens.append(" ( ) { * this = std :: move ( other ) ; } inline ");
    tokens.append(name);
    tokens.append(" & ");
    tokens.append(name);
    tokens.append(" :: operator = ( ");
    tokens.append(name);
    tokens.append(" && other ) { crubit :: MemSwap ( * this , other ) ; return * this ; } ");
    let r = ApiSnippets {
        main_api: CcSnippet::new(main),
        cc_details: CcSnippet { tokens, prereqs },
        rs_details: String::new(),
    };
    assert(r@.rs_details =~= Seq::<char>::empty());
    r
}

/// Writes the deleted move operations.
fn format_deleted_move(name: &str, reason: &str) -> (r: ApiSnippets)
    ensures
        r@ == deleted_move(name@, reason@),
{
    let mut main = String::from_str("__NEWLINE__ ");
    main.append(format_comment(reason).as_str());
    main.append(name);
    main.append(" ( ");
    main.append(name);
    main.append(" && ) = delete ; __NEWLINE__ ");
    main.append(name);
    main.append(" & operator = ( ");
    main.append(name);
    main.append(" && ) = delete ; ");
    ApiSnippets::main_only(main)
}

/// Binds the move constructor and the move assignment of a type; the error
/// holds the deleted operations.
pub fn format_move_ctor_and_assignment_operator(krate: &Crate, core: &AdtCoreBindings) -> (r: Result<
    ApiSnippets,
    ApiSnippets,
>)
    requires
        adt_of(*krate, core.def) is Some,
    ensures
        api_result_is(r, move_ctor(*krate, core@)),
{
    let name = core.cc_short_name.as_str();
    let (needs_drop, is_unpin) = match krate.adt(core.def) {
        Some(a) => (a.needs_drop, a.is_unpin),
        None => (false, false),
    };
    if needs_drop {
        let has_default_ctor = format_default_ctor(krate, core).is_ok();
        if has_default_ctor && is_unpin {
            Ok(format_swapping_move(krate, name))
        } else if format_copy_ctor_and_assignment_operator(krate, core).is_ok() {
            Ok(ApiSnippets::empty())
        } else {
            Err(
                format_deleted_move(
                    name,
                    "C++ moves are deleted because there's no non-destructive implementation available.",
                ),
            )
        }
    } else {
        Ok(format_trivial_move(name))
    }
}

/// The destructor of a type whose values are dropped without running code:
/// the one that the compiler gives, with an assertion that it is trivial.
pub open spec fn trivial_dtor(name: Seq<char>) -> ApiView {
    ApiView {
        main_tokens: "__NEWLINE__ "@ + comment_tokens(
            "No custom `Drop` impl and no custom \"drop glue\" required"@,
        ) + "~ "@ + name + " ( ) = default ; __NEWLINE__ "@,
        main_prereqs: PrereqsView::empty(),
        details_tokens: "static_assert ( std :: is_trivially_destructible_v < "@ + name
            + " > ) ; "@,
        details_prereqs: PrereqsView::empty().with_include(system_header_key("type_traits"@)),
        rs_details: Seq::empty(),
    }
}

/// The destructor that drops the value through a thunk.
pub open spec fn dropping_dtor(name: Seq<char>, t: MethodThunkView) -> ApiView {
    ApiView {
        main_tokens: "__NEWLINE__ "@ + comment_tokens("Drop::drop"@) + "~ "@ + name
            + " ( ) ; __NEWLINE__ __NEWLINE__ "@,
        main_prereqs: PrereqsView::empty(),
        details_tokens: t.decl.tokens + "inline "@ + name + " :: ~ "@ + name
            + " ( ) { __crubit_internal :: "@ + t.cc_name + " ( * this ) ; } "@,
        details_prereqs: PrereqsView::empty().plus(t.decl.prereqs),
        rs_details: t.rs_impl,
    }
}

/// The destructor of a bound type, or why it cannot be bound.
pub open spec fn dtor(krate: Crate, core: AdtCoreView) -> Result<ApiView, Messages> {
    let adt = adt_of(krate, core.def)->0;
    if adt.needs_drop {
        match drop_thunk(krate, core.def, core.rs_fully_qualified_name, adt.drop_symbol@) {
            Ok(t) => Ok(dropping_dtor(core.cc_short_name, t)),
            Err(e) => Err(e),
        }
    } else {
        Ok(trivial_dtor(core.cc_short_name))
    }
}

/// Binds the thunk that drops a value in place.
pub fn format_drop_thunk(krate: &Crate, core: &AdtCoreBindings) -> (r: Result<MethodThunk, Error>)
    requires
        adt_of(*krate, core.def) is Some,
    ensures
        method_thunk_is(
            r,
            drop_thunk(
                *krate,
                core.def,
                core.rs_fully_qualified_name@,
                adt_of(*krate, core.def)->0.drop_symbol@,
            ),
        ),
{
    let adt = match krate.adt(core.def) {
        Some(a) => a,
        None => {
            return Err(Error::new(""));
        },
    };
    let thunk_name = make_thunk_name(adt.drop_symbol.as_str());
    let cc_name = match format_cc_ident(thunk_name.as_str()) {
        Ok(n) => n,
        Err(e) => {
            return Err(e);
        },
    };
    let mut inputs: Vec<Ty> = Vec::new();
    inputs.push(make_self_ref(krate, core.def, 1, true));
    let sig = make_method_sig(inputs, Ty::Unit);
    assert(sig@.inputs =~= seq![self_ref(*krate, core.def, 1, true)]);
    let decl = match format_thunk_decl(krate, &sig, cc_name.as_str()) {
        Ok(d) => d,
        Err(e) => {
            return Err(e);
        },
    };
    let mut rs_impl = String::from_str("# [ no_mangle ] extern \"C\" fn ");
    rs_impl.append(make_rs_ident(thunk_name.as_str()).as_str());
    rs_impl.append(" ( __self : & mut :: core :: mem :: MaybeUninit < ");
    rs_impl.append(core.rs_fully_qualified_name.as_str());
    rs_impl.append(" > ) { unsafe { __self . assume_init_drop ( ) } ; } ");
    Ok(MethodThunk { cc_name, decl, rs_impl })
}

/// Binds the destructor of a type.
pub fn format_dtor(krate: &Crate, core: &AdtCoreBindings) -> (r: Result<ApiSnippets, Error>)
    requires
        adt_of(*krate, core.def) is Some,
    ensures
        match dtor(*krate, core@) {
            Ok(v) => r matches Ok(a) && a@ == v,
            Err(e) => r matches Err(x) && x@ == e,
        },
{
    let name = core.cc_short_name.as_str();
    let needs_drop = match krate.adt(core.def) {
        Some(a) => a.needs_drop,
        None => false,
    };
    if needs_drop {
        let t = match format_drop_thunk(krate, core) {
            Ok(t) => t,
            Err(e) => {
                return Err(e);
            },
        };
        let main = commented("Drop::drop", "~ ", name, " ( ) ; __NEWLINE__ __NEWLINE__ ");
        let MethodThunk { cc_name, decl, rs_impl } = t;
        let mut prereqs = CcPrerequisites::new();
        let mut tokens = decl.into_tokens(&mut prereqs);
        tokens.append("inline ");
        tokens.append(name);
        tokens.append(" :: ~ ");
        tokens.append(name);
        tokens.append(" ( ) { __crubit_internal :: ");
        tokens.append(cc_name.as_str());
        tokens.append(" ( * this ) ; } ");
        Ok(
            ApiSnippets {
                main_api: CcSnippet::new(main),
                cc_details: CcSnippet { tokens, prereqs },
                rs_details: rs_impl,
            },
        )
    } else {
        let main = commented(
            "No custom `Drop` impl and no custom \"drop glue\" required",
            "~ ",
            name,
            " ( ) = default ; __NEWLINE__ ",
        );
        let mut details = String::from_str("static_assert ( std :: is_trivially_destructible_v < ");
        details.append(name);
        details.append(" > ) ; ");
        let r = ApiSnippets {
            main_api: CcSnippet::new(main),
            cc_details: CcSnippet::with_include(details, CcInclude::type_traits()),
            rs_details: String::new(),
        };
        assert(r@.rs_details =~= Seq::<char>::empty());
        Ok(r)
    }
}

} // verus!
