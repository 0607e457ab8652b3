//! The binding of one function: its declaration in C++, the definition
//! that calls its thunk, and the thunk in Rust.

use vstd::prelude::*;
use vstd::string::*;
use crate::cc_ident::{cc_ident, format_cc_ident, make_rs_ident, rs_ident};
use crate::error::Error;
use crate::prereqs::{
    snippet_views, ApiSnippets, ApiView, CcInclude, CcPrerequisites, CcSnippet, PrereqsView,
    SnippetView,
};
use crate::rs_model::{lifetime_name, Crate, Def, DefKind, FnDef, Ty};
use crate::special_members::{
    format_move_ctor_and_assignment_operator, make_thunk_name, move_ctor, thunk_name_of,
};
use crate::text::{decimal, join, join_strings, push_decimal, str_eq, views};
use crate::thunks::{
    deprecated_tag, doc_comment, format_deprecated_tag, format_doc_comment, format_nodiscard_tag,
    format_thunk_decl, format_thunk_impl, lemma_cc_param_types_len, nodiscard_tag, thunk_decl,
    thunk_impl,
};
use crate::type_map::{
    abi_trivial, adt_core, adt_of, cc_lifetime, cc_param_types, cc_ret_type, check_fn_sig,
    def_rs_name, fn_sig_problem, format_adt_core, format_param_types_for_cc,
    format_region_as_cc_lifetime, format_ret_ty_for_cc, in_context, is_c_abi_compatible_by_value,
    is_thunk_required, support_header_key, system_header_key, thunk_reason, Messages,
};

verus! {

/// How a function relates to a type.
#[derive(Debug, Eq, PartialEq, Clone, Copy, Structural)]
pub enum FunctionKind {
    /// A function that is no method.
    Free,
    /// A method whose first parameter is not `self`.
    StaticMethod,
    /// A method that takes `self` by value.
    MethodTakingSelfByValue,
    /// A method that takes `&self` or `&mut self`.
    MethodTakingSelfByRef,
}

impl FunctionKind {
    pub open spec fn takes_self(self) -> bool {
        self == FunctionKind::MethodTakingSelfByValue || self == FunctionKind::MethodTakingSelfByRef
    }

    pub fn has_self_param(&self) -> (r: bool)
        ensures
            r == self.takes_self(),
    {
        match self {
            FunctionKind::MethodTakingSelfByValue | FunctionKind::MethodTakingSelfByRef => true,
            FunctionKind::Free | FunctionKind::StaticMethod => false,
        }
    }
}

/// The function that `f` names, where it names one.
pub open spec fn fn_of(krate: Crate, f: usize) -> Option<FnDef> {
    if f < krate.defs@.len() {
        match krate.defs@[f as int].kind {
            DefKind::Fn(d) => Some(d),
            _ => None,
        }
    } else {
        None
    }
}

impl Crate {
    /// The function that `f` names, where it names one.
    pub fn function(&self, f: usize) -> (r: Option<&FnDef>)
        ensures
            r is Some == fn_of(*self, f) is Some,
            r matches Some(d) ==> *d == fn_of(*self, f)->0,
    {
        if f < self.defs.len() {
            match &self.defs[f].kind {
                DefKind::Fn(d) => Some(d),
                _ => None,
            }
        } else {
            None
        }
    }
}

/// Whether the function must be called through a thunk: because its
/// signature asks for one, or because the symbol under which it is linked
/// was not fixed by the source.
pub open spec fn needs_thunk(fd: FnDef) -> bool {
    thunk_reason(fd.sig@) is Some || (!fd.no_mangle && !fd.export_name)
}

/// The symbol that the C++ side calls: the thunk where the function needs
/// one, else the function itself.
pub open spec fn call_target(fd: FnDef) -> Seq<char> {
    if needs_thunk(fd) {
        thunk_name_of(fd.symbol_name@)
    } else {
        fd.symbol_name@
    }
}

/// The number of parameters that have both a name and a type.
pub open spec fn param_count(fd: FnDef) -> int {
    if fd.param_names@.len() <= fd.sig.inputs@.len() {
        fd.param_names@.len() as int
    } else {
        fd.sig.inputs@.len() as int
    }
}

/// The name of the `i`-th parameter in C++: its own where C++ can spell
/// it, else a numbered one.
pub open spec fn cc_param_name(name: Seq<char>, i: int) -> Seq<char> {
    match cc_ident(name) {
        Ok(t) => t,
        Err(_) => "__param_"@ + decimal(i as nat),
    }
}

/// The names of the first `n` parameters in C++.
pub open spec fn cc_param_names(names: Seq<Seq<char>>, n: int) -> Seq<Seq<char>>
    decreases n,
{
    if n <= 0 || n > names.len() {
        Seq::empty()
    } else {
        cc_param_names(names, n - 1).push(cc_param_name(names[n - 1], n - 1))
    }
}

/// What `start` and the first `n` snippets need, taken together.
pub open spec fn fold_prereqs(start: PrereqsView, snippets: Seq<SnippetView>, n: int) -> PrereqsView
    decreases n,
{
    if n <= 0 || n > snippets.len() {
        start
    } else {
        fold_prereqs(start, snippets, n - 1).plus(snippets[n - 1].prereqs)
    }
}

/// The tokens of the first `n` snippets.
pub open spec fn tokens_of(snippets: Seq<SnippetView>, n: int) -> Seq<Seq<char>>
    decreases n,
{
    if n <= 0 || n > snippets.len() {
        Seq::empty()
    } else {
        tokens_of(snippets, n - 1).push(snippets[n - 1].tokens)
    }
}

/// Whether a type is the struct, enum or union that `adt` names.
pub open spec fn is_adt(t: Ty, adt: usize) -> bool {
    t matches Ty::Adt { def, .. } && def == adt
}

/// How the function relates to a type. A function of an impl whose first
/// parameter is named `self` is a method that takes the type by value or
/// by reference; no other type of `self` is bound.
pub open spec fn function_kind(fd: FnDef) -> Result<FunctionKind, Messages> {
    match fd.impl_of {
        None => Ok(FunctionKind::Free),
        Some(adt) => if param_count(fd) > 0 && fd.param_names@[0]@ == "self"@ {
            let first = fd.sig.inputs@[0];
            if is_adt(first, adt) {
                Ok(FunctionKind::MethodTakingSelfByValue)
            } else if first matches Ty::Ref { referent, .. } && is_adt(*referent, adt) {
                Ok(FunctionKind::MethodTakingSelfByRef)
            } else {
                Err(seq!["Unsupported `self` type"@])
            }
        } else {
            Ok(FunctionKind::StaticMethod)
        },
    }
}

/// What follows the parameters of a method in C++: a method that takes
/// `self` by value can only be called on a value that is given up; one
/// that takes it by reference says whether it writes, and for how long it
/// borrows.
pub open spec fn method_qualifiers(kind: FunctionKind, fd: FnDef) -> Seq<char> {
    match kind {
        FunctionKind::Free => ""@,
        FunctionKind::StaticMethod => ""@,
        FunctionKind::MethodTakingSelfByValue => "&& "@,
        FunctionKind::MethodTakingSelfByRef => match fd.sig.inputs@[0] {
            Ty::Ref { lifetime, referent, mutable } => if mutable {
                ""@ + cc_lifetime(lifetime_name(lifetime))
            } else {
                "const "@ + cc_lifetime(lifetime_name(lifetime))
            },
            _ => ""@,
        },
    }
}

/// What the parts of a function's binding have in common.
#[derive(Debug)]
pub struct FnParts {
    /// The function's name in C++.
    pub fn_name: String,
    /// The return type in C++.
    pub ret_type: String,
    /// The parameters' names in C++.
    pub param_names: Vec<String>,
    /// The parameters' types in C++.
    pub param_types: Vec<String>,
    /// What the return type and the parameters' types need.
    pub prereqs: CcPrerequisites,
    pub kind: FunctionKind,
    /// What follows the parameters of a method.
    pub qualifiers: String,
}

/// The values of an `FnParts`.
pub struct FnPartsView {
    pub fn_name: Seq<char>,
    pub ret_type: Seq<char>,
    pub param_names: Seq<Seq<char>>,
    pub param_types: Seq<Seq<char>>,
    pub prereqs: PrereqsView,
    pub kind: FunctionKind,
    pub qualifiers: Seq<char>,
}

impl View for FnParts {
    type V = FnPartsView;

    open spec fn view(&self) -> FnPartsView {
        FnPartsView {
            fn_name: self.fn_name@,
            ret_type: self.ret_type@,
            param_names: views(self.param_names@),
            param_types: views(self.param_types@),
            prereqs: self.prereqs@,
            kind: self.kind,
            qualifiers: self.qualifiers@,
        }
    }
}

/// The name under which a function is bound: the one set for C++, else its
/// own.
pub open spec fn bound_name(d: Def, fd: FnDef) -> Seq<char> {
    match fd.cpp_name {
        Some(n) => n@,
        None => d.name->0@,
    }
}

/// The common parts of the binding of the function that `f` names, or why
/// the function cannot be bound: it is generic or variadic, it has no name
/// that C++ can spell, one of its types has no spelling in C++, or it takes
/// `self` in a way that is not bound.
pub open spec fn fn_parts(krate: Crate, f: usize) -> Result<FnPartsView, Messages>
    recommends
        fn_of(krate, f) is Some,
{
    let d = krate.defs@[f as int];
    let fd = fn_of(krate, f)->0;
    if fd.generic_params != 0 {
        Err(seq!["Generic functions are not supported yet (b/259749023)"@])
    } else if fn_sig_problem(fd.sig@) is Some {
        Err(fn_sig_problem(fd.sig@)->0)
    } else if d.name is None {
        Err(seq!["An item without a name has no C++ name"@])
    } else {
        match in_context("Error formatting function name"@, cc_ident(bound_name(d, fd))) {
            Err(e) => Err(e),
            Ok(fn_name) => match cc_ret_type(krate, fd.sig@) {
                Err(e) => Err(e),
                Ok(ret) => match cc_param_types(
                    krate,
                    fd.sig.inputs@,
                    fd.sig.inputs@.len() as int,
                ) {
                    Err(e) => Err(e),
                    Ok(cc_types) => match function_kind(fd) {
                        Err(e) => Err(e),
                        Ok(kind) => Ok(
                            FnPartsView {
                                fn_name,
                                ret_type: ret.tokens,
                                param_names: cc_param_names(views(fd.param_names@), param_count(fd)),
                                param_types: tokens_of(cc_types, param_count(fd)),
                                prereqs: fold_prereqs(
                                    PrereqsView::empty().plus(ret.prereqs),
                                    cc_types,
                                    param_count(fd),
                                ),
                                kind,
                                qualifiers: method_qualifiers(kind, fd),
                            },
                        ),
                    },
                },
            },
        }
    }
}

/// Decides how a function relates to a type.
pub fn classify_function(fd: &FnDef) -> (r: Result<FunctionKind, Error>)
    ensures
        match function_kind(*fd) {
            Ok(k) => r == Ok::<FunctionKind, Error>(k),
            Err(e) => r matches Err(x) && x@ == e,
        },
{
    match fd.impl_of {
        None => Ok(FunctionKind::Free),
        Some(adt) => {
            if fd.param_names.len() > 0 && fd.sig.inputs.len() > 0 && str_eq(
                fd.param_names[0].as_str(),
                "self",
            ) {
                match &fd.sig.inputs[0] {
                    Ty::Adt { def, .. } => {
                        if *def == adt {
                            Ok(FunctionKind::MethodTakingSelfByValue)
                        } else {
                            Err(Error::new("Unsupported `self` type"))
                        }
                    },
                    Ty::Ref { referent, .. } => {
                        let by_ref = match &**referent {
                            Ty::Adt { def, .. } => *def == adt,
                            _ => false,
                        };
                        if by_ref {
                            Ok(FunctionKind::MethodTakingSelfByRef)
                        } else {
                            Err(Error::new("Unsupported `self` type"))
                        }
                    },
                    _ => Err(Error::new("Unsupported `self` type")),
                }
            } else {
                Ok(FunctionKind::StaticMethod)
            }
        },
    }
}

/// Writes what follows the parameters of a method.
pub fn format_method_qualifiers(kind: FunctionKind, fd: &FnDef) -> (r: String)
    requires
        function_kind(*fd) == Ok::<FunctionKind, Messages>(kind),
    ensures
        r@ == method_qualifiers(kind, *fd),
{
    match kind {
        FunctionKind::Free => String::from_str(""),
        FunctionKind::StaticMethod => String::from_str(""),
        FunctionKind::MethodTakingSelfByValue => String::from_str("&& "),
        FunctionKind::MethodTakingSelfByRef => {
            match &fd.sig.inputs[0] {
                Ty::Ref { lifetime, mutable, .. } => {
                    let mut s = if *mutable {
                        String::from_str("")
                    } else {
                        String::from_str("const ")
                    };
                    s.append(format_region_as_cc_lifetime(lifetime.name().as_str()).as_str());
                    s
                },
                _ => String::from_str(""),
            }
        },
    }
}

/// Names the `i`-th parameter in C++.
pub fn format_cc_param_name(name: &str, i: usize) -> (r: String)
    ensures
        r@ == cc_param_name(name@, i as int),
{
    match format_cc_ident(name) {
        Ok(t) => t,
        Err(_) => {
            let mut s = String::from_str("__param_");
            push_decimal(&mut s, i as u64);
            s
        },
    }
}

/// Computes the common parts of the binding of a function.
pub fn format_fn_parts(krate: &Crate, f: usize) -> (r: Result<FnParts, Error>)
    requires
        fn_of(*krate, f) is Some,
    ensures
        match fn_parts(*krate, f) {
            Ok(v) => r matches Ok(p) && p@ == v,
            Err(e) => r matches Err(x) && x@ == e,
        },
{
    let d = &krate.defs[f];
    let fd = match krate.function(f) {
        Some(fd) => fd,
        None => {
            return Err(Error::new(""));
        },
    };
    if fd.generic_params != 0 {
        return Err(Error::new("Generic functions are not supported yet (b/259749023)"));
    }
    match check_fn_sig(&fd.sig) {
        Ok(()) => {},
        Err(e) => {
            return Err(e);
        },
    }
    let own_name = match &d.name {
        Some(n) => n,
        None => {
            return Err(Error::new("An item without a name has no C++ name"));
        },
    };
    let bound = match &fd.cpp_name {
        Some(n) => n,
        None => own_name,
    };
    let fn_name = match format_cc_ident(bound.as_str()) {
        Ok(n) => n,
        Err(e) => {
            return Err(e.context(String::from_str("Error formatting function name")));
        },
    };
    let mut prereqs = CcPrerequisites::new();
    let ret = match format_ret_ty_for_cc(krate, &fd.sig) {
        Ok(s) => s,
        Err(e) => {
            return Err(e);
        },
    };
    let ret_type = ret.into_tokens(&mut prereqs);
    let cc_types = match format_param_types_for_cc(krate, &fd.sig) {
        Ok(v) => v,
        Err(e) => {
            return Err(e);
        },
    };
    proof {
        lemma_cc_param_types_len(*krate, fd.sig.inputs@, fd.sig.inputs@.len() as int);
    }
    let count = if fd.param_names.len() <= fd.sig.inputs.len() {
        fd.param_names.len()
    } else {
        fd.sig.inputs.len()
    };
    let ghost cc_views = snippet_views(cc_types@);
    let ghost start = prereqs@;
    let ghost names = views(fd.param_names@);
    let mut param_names: Vec<String> = Vec::new();
    let mut param_types: Vec<String> = Vec::new();
    assert(views(param_names@) =~= Seq::<Seq<char>>::empty());
    assert(views(param_types@) =~= Seq::<Seq<char>>::empty());
    let mut i: usize = 0;
    while i < count
        invariant
            i <= count,
            count <= fd.param_names.len(),
            count <= cc_types.len(),
            cc_views == snippet_views(cc_types@),
            names == views(fd.param_names@),
            views(param_names@) == cc_param_names(names, i as int),
            views(param_types@) == tokens_of(cc_views, i as int),
            prereqs@ == fold_prereqs(start, cc_views, i as int),
        decreases count - i,
    {
        assert(cc_views[i as int] == cc_types@[i as int]@);
        assert(names[i as int] == fd.param_names@[i as int]@);
        let ghost names_before = views(param_names@);
        let ghost types_before = views(param_types@);
        let n = format_cc_param_name(fd.param_names[i].as_str(), i);
        let t = cc_types[i].tokens.clone();
        prereqs.add_assign(cc_types[i].prereqs.copy());
        param_names.push(n);
        param_types.push(t);
        assert(views(param_names@) =~= names_before.push(n@));
        assert(views(param_types@) =~= types_before.push(t@));
        i += 1;
    }
    let kind = match classify_function(fd) {
        Ok(k) => k,
        Err(e) => {
            return Err(e);
        },
    };
    let qualifiers = format_method_qualifiers(kind, fd);
    Ok(FnParts { fn_name, ret_type, param_names, param_types, prereqs, kind, qualifiers })
}

/// The first `n` parameters of a declaration from `from` on: each type
/// followed by the name.
pub open spec fn decl_params(
    types: Seq<Seq<char>>,
    names: Seq<Seq<char>>,
    from: int,
    n: int,
) -> Seq<Seq<char>>
    decreases n,
{
    if n <= from || n > types.len() || n > names.len() || from < 0 {
        Seq::empty()
    } else {
        decl_params(types, names, from, n - 1).push(types[n - 1] + names[n - 1] + " "@)
    }
}

/// The parameters of the declaration in C++, without `self`.
pub open spec fn main_api_params(p: FnPartsView) -> Seq<char> {
    join(
        decl_params(
            p.param_types,
            p.param_names,
            if p.kind.takes_self() {
                1
            } else {
                0
            },
            p.param_names.len() as int,
        ),
        ", "@,
    )
}

/// Writes the parameters of the declaration in C++.
pub fn format_main_api_params(p: &FnParts) -> (r: String)
    requires
        p.param_names@.len() == p.param_types@.len(),
    ensures
        r@ == main_api_params(p@),
{
    let from: usize = if p.kind.has_self_param() {
        1
    } else {
        0
    };
    let ghost types = views(p.param_types@);
    let ghost names = views(p.param_names@);
    let mut list: Vec<String> = Vec::new();
    assert(views(list@) =~= Seq::<Seq<char>>::empty());
    let mut i: usize = from;
    if from > p.param_names.len() {
        return join_strings(&list, ", ");
    }
    while i < p.param_names.len()
        invariant
            from <= i <= p.param_names.len(),
            p.param_names@.len() == p.param_types@.len(),
            types == views(p.param_types@),
            names == views(p.param_names@),
            views(list@) == decl_params(types, names, from as int, i as int),
        decreases p.param_names.len() - i,
    {
        assert(types[i as int] == p.param_types@[i as int]@);
        assert(names[i as int] == p.param_names@[i as int]@);
        let ghost before = views(list@);
        let mut s = p.param_types[i].clone();
        s.append(p.param_names[i].as_str());
        s.append(" ");
        list.push(s);
        assert(views(list@) =~= before.push(s@));
        i += 1;
    }
    join_strings(&list, ", ")
}

/// The declaration of the function in C++. The types of the parameters
/// and of the result are needed by declaration only.
pub open spec fn fn_main_api(d: Def, fd: FnDef, p: FnPartsView) -> SnippetView {
    SnippetView {
        tokens: "__NEWLINE__ "@ + ("__NEWLINE__ "@ + doc_comment(d)) + (if bound_target_is_own(
            d,
            fd,
        ) {
            "extern \"C\" "@
        } else {
            ""@
        }) + nodiscard_tag(fd.must_use) + deprecated_tag(fd.deprecated) + deprecated_tag(
            fd.parent_deprecated,
        ) + (if p.kind == FunctionKind::StaticMethod {
            "static "@
        } else {
            ""@
        }) + p.ret_type + p.fn_name + " ( "@ + main_api_params(p) + ") "@ + p.qualifiers
            + "; __NEWLINE__ "@,
        prereqs: p.prereqs.weakened(),
    }
}

/// Whether C++ can call the function under its own name, so that the
/// binding is a declaration without a definition.
pub open spec fn bound_target_is_own(d: Def, fd: FnDef) -> bool {
    d.name->0@ == call_target(fd)
}

/// Whether the function must be called through a thunk.
pub fn fn_needs_thunk(fd: &FnDef) -> (r: bool)
    ensures
        r == needs_thunk(*fd),
{
    is_thunk_required(&fd.sig).is_err() || (!fd.no_mangle && !fd.export_name)
}

/// The symbol that the C++ side calls.
pub fn fn_call_target(fd: &FnDef) -> (r: String)
    ensures
        r@ == call_target(*fd),
{
    if fn_needs_thunk(fd) {
        make_thunk_name(fd.symbol_name.as_str())
    } else {
        fd.symbol_name.clone()
    }
}

/// Writes the declaration of the function in C++.
pub fn format_fn_main_api(d: &Def, fd: &FnDef, p: &FnParts) -> (r: CcSnippet)
    requires
        d.name is Some,
        p.param_names@.len() == p.param_types@.len(),
    ensures
        r@ == fn_main_api(*d, *fd, p@),
{
    let own = match &d.name {
        Some(n) => str_eq(n.as_str(), fn_call_target(fd).as_str()),
        None => false,
    };
    let mut doc = String::from_str("__NEWLINE__ ");
    doc.append(format_doc_comment(d).as_str());
    let mut tokens = String::from_str("__NEWLINE__ ");
    tokens.append(doc.as_str());
    if own {
        tokens.append("extern \"C\" ");
    } else {
        tokens.append("");
    }
    tokens.append(format_nodiscard_tag(&fd.must_use).as_str());
    tokens.append(format_deprecated_tag(&fd.deprecated).as_str());
    tokens.append(format_deprecated_tag(&fd.parent_deprecated).as_str());
    match p.kind {
        FunctionKind::StaticMethod => tokens.append("static "),
        _ => tokens.append(""),
    }
    tokens.append(p.ret_type.as_str());
    tokens.append(p.fn_name.as_str());
    tokens.append(" ( ");
    tokens.append(format_main_api_params(p).as_str());
    tokens.append(") ");
    tokens.append(p.qualifiers.as_str());
    tokens.append("; __NEWLINE__ ");
    let mut prereqs = p.prereqs.copy();
    prereqs.move_defs_to_fwd_decls();
    CcSnippet { tokens, prereqs }
}

/// The first `n` arguments with which the definition in C++ calls the
/// thunk. The object stands for `self`. A value that does not cross the
/// boundary by value is passed by address.
pub open spec fn thunk_args(kind: FunctionKind, inputs: Seq<Ty>, names: Seq<Seq<char>>, n: int) -> Seq<
    Seq<char>,
>
    decreases n,
{
    if n <= 0 || n > inputs.len() || n > names.len() {
        Seq::empty()
    } else {
        thunk_args(kind, inputs, names, n - 1).push(
            if n == 1 && kind.takes_self() {
                if kind == FunctionKind::MethodTakingSelfByValue {
                    "this "@
                } else {
                    "* this "@
                }
            } else if abi_trivial(inputs[n - 1]) {
                names[n - 1] + " "@
            } else {
                "& "@ + names[n - 1] + " "@
            },
        )
    }
}

/// Writes the arguments with which the definition in C++ calls the thunk.
pub fn format_thunk_args(kind: FunctionKind, inputs: &Vec<Ty>, names: &Vec<String>) -> (r: Vec<
    String,
>)
    requires
        names@.len() <= inputs@.len(),
    ensures
        views(r@) == thunk_args(kind, inputs@, views(names@), names@.len() as int),
{
    let ghost spec_names = views(names@);
    let mut args: Vec<String> = Vec::new();
    assert(views(args@) =~= Seq::<Seq<char>>::empty());
    let mut i: usize = 0;
    while i < names.len()
        invariant
            i <= names.len(),
            names@.len() <= inputs@.len(),
            spec_names == views(names@),
            views(args@) == thunk_args(kind, inputs@, spec_names, i as int),
        decreases names.len() - i,
    {
        assert(spec_names[i as int] == names@[i as int]@);
        let ghost before = views(args@);
        let a = if i == 0 && kind.has_self_param() {
            match kind {
                FunctionKind::MethodTakingSelfByValue => String::from_str("this "),
                _ => String::from_str("* this "),
            }
        } else if is_c_abi_compatible_by_value(&inputs[i]) {
            let mut s = names[i].clone();
            s.append(" ");
            s
        } else {
            let mut s = String::from_str("& ");
            s.append(names[i].as_str());
            s.append(" ");
            s
        };
        args.push(a);
        assert(views(args@) =~= before.push(a@));
        i += 1;
    }
    args
}

/// Why a value of the type cannot be returned by value, if it cannot: a
/// struct, enum or union must have a binding with move operations.
pub open spec fn return_by_value_problem(krate: Crate, output: Ty) -> Option<Messages> {
    match output {
        Ty::Adt { def, .. } => if adt_of(krate, def) is Some {
            match adt_core(krate, def) {
                Err(e) => Some(e),
                Ok(core) => if move_ctor(krate, core) is Err {
                    Some(
                        seq![
                            "Can't pass the return type by value without a move constructor"@,
                        ],
                    )
                } else {
                    None
                },
            }
        } else {
            None
        },
        _ => None,
    }
}

/// Checks that a value of the type can be returned by value.
pub fn check_return_by_value(krate: &Crate, output: &Ty) -> (r: Result<(), Error>)
    ensures
        match return_by_value_problem(*krate, *output) {
            None => r is Ok,
            Some(e) => r matches Err(x) && x@ == e,
        },
{
    match output {
        Ty::Adt { def, .. } => {
            if krate.adt(*def).is_some() {
                let core = match format_adt_core(krate, *def) {
                    Ok(c) => c,
                    Err(e) => {
                        return Err(e);
                    },
                };
                if format_move_ctor_and_assignment_operator(krate, &core).is_err() {
                    return Err(
                        Error::new("Can't pass the return type by value without a move constructor"),
                    );
                }
            }
            Ok(())
        },
        _ => Ok(()),
    }
}

/// The body of the definition in C++. A result that crosses the boundary
/// by value is returned from the thunk. Any other is written by the thunk
/// to a slot, whose address is the last argument, and moved out of it.
pub open spec fn impl_body(
    returns_by_value: bool,
    ret_type: Seq<char>,
    thunk: Seq<char>,
    args: Seq<Seq<char>>,
) -> Seq<char> {
    if returns_by_value {
        "return __crubit_internal :: "@ + thunk + " ( "@ + join(args, ", "@) + ") ; "@
    } else {
        "crubit :: ReturnValueSlot < "@ + ret_type + "> __ret_slot ; __crubit_internal :: "@ + thunk
            + " ( "@ + join(args.push("__ret_slot . Get ( ) "@), ", "@)
            + ") ; return std :: move ( __ret_slot ) . AssumeInitAndTakeValue ( ) ; "@
    }
}

/// Writes the body of the definition in C++.
pub fn format_impl_body(returns_by_value: bool, ret_type: &str, thunk: &str, args: Vec<String>) -> (r:
    String)
    ensures
        r@ == impl_body(returns_by_value, ret_type@, thunk@, views(args@)),
{
    if returns_by_value {
        let mut s = String::from_str("return __crubit_internal :: ");
        s.append(thunk);
        s.append(" ( ");
        s.append(join_strings(&args, ", ").as_str());
        s.append(") ; ");
        s
    } else {
        let mut args = args;
        let ghost before = views(args@);
        let slot = String::from_str("__ret_slot . Get ( ) ");
        args.push(slot);
        assert(views(args@) =~= before.push("__ret_slot . Get ( ) "@));
        let mut s = String::from_str("crubit :: ReturnValueSlot < ");
        s.append(ret_type);
        s.append("> __ret_slot ; __crubit_internal :: ");
        s.append(thunk);
        s.append(" ( ");
        s.append(join_strings(&args, ", ").as_str());
        s.append(") ; return std :: move ( __ret_slot ) . AssumeInitAndTakeValue ( ) ; ");
        s
    }
}

/// The name of the type before the name of a method in its definition.
pub open spec fn struct_prefix(krate: Crate, fd: FnDef) -> Result<Seq<char>, Messages> {
    match fd.impl_of {
        None => Ok(""@),
        Some(adt) => if adt < krate.defs@.len() && krate.defs@[adt as int].name is Some {
            match cc_ident(krate.defs@[adt as int].name->0@) {
                Err(e) => Err(e),
                Ok(n) => Ok(n + " :: "@),
            }
        } else {
            Err(seq!["An item without a name has no C++ name"@])
        },
    }
}

/// Writes the name of the type before the name of a method.
pub fn format_struct_prefix(krate: &Crate, fd: &FnDef) -> (r: Result<String, Error>)
    ensures
        crate::names::text_result_is(r, struct_prefix(*krate, *fd)),
{
    match fd.impl_of {
        None => Ok(String::from_str("")),
        Some(adt) => {
            if adt < krate.defs.len() {
                match &krate.defs[adt].name {
                    Some(n) => match format_cc_ident(n.as_str()) {
                        Err(e) => Err(e),
                        Ok(mut s) => {
                            s.append(" :: ");
                            Ok(s)
                        },
                    },
                    None => Err(Error::new("An item without a name has no C++ name")),
                }
            } else {
                Err(Error::new("An item without a name has no C++ name"))
            }
        },
    }
}

/// The details of the binding in C++: nothing where C++ calls the function
/// under its own name; else the declaration of the thunk and the
/// definition that calls it.
pub open spec fn fn_cc_details(krate: Crate, f: usize, p: FnPartsView) -> Result<
    SnippetView,
    Messages,
>
    recommends
        fn_of(krate, f) is Some,
{
    let d = krate.defs@[f as int];
    let fd = fn_of(krate, f)->0;
    if bound_target_is_own(d, fd) {
        Ok(SnippetView::plain(Seq::empty()))
    } else {
        match in_context("Error formatting thunk name"@, cc_ident(call_target(fd))) {
            Err(e) => Err(e),
            Ok(thunk) => match struct_prefix(krate, fd) {
                Err(e) => Err(e),
                Ok(prefix) => match thunk_decl(krate, fd.sig@, thunk) {
                    Err(e) => Err(e),
                    Ok(decl) => if abi_trivial(fd.sig.output) {
                        Ok(
                            SnippetView {
                                tokens: fn_definition(
                                    p,
                                    decl.tokens,
                                    prefix,
                                    impl_body(
                                        true,
                                        p.ret_type,
                                        thunk,
                                        thunk_args(
                                            p.kind,
                                            fd.sig.inputs@,
                                            p.param_names,
                                            p.param_names.len() as int,
                                        ),
                                    ),
                                ),
                                prereqs: p.prereqs.plus(decl.prereqs),
                            },
                        )
                    } else if return_by_value_problem(krate, fd.sig.output) is Some {
                        Err(return_by_value_problem(krate, fd.sig.output)->0)
                    } else {
                        Ok(
                            SnippetView {
                                tokens: fn_definition(
                                    p,
                                    decl.tokens,
                                    prefix,
                                    impl_body(
                                        false,
                                        p.ret_type,
                                        thunk,
                                        thunk_args(
                                            p.kind,
                                            fd.sig.inputs@,
                                            p.param_names,
                                            p.param_names.len() as int,
                                        ),
                                    ),
                                ),
                                prereqs: p.prereqs.plus(decl.prereqs).with_include(
                                    system_header_key("utility"@),
                                ).with_include(
                                    support_header_key(krate, "internal/return_value_slot.h"@),
                                ),
                            },
                        )
                    },
                },
            },
        }
    }
}

/// The declaration of the thunk and the definition that calls it.
pub open spec fn fn_definition(
    p: FnPartsView,
    thunk_decl: Seq<char>,
    struct_prefix: Seq<char>,
    body: Seq<char>,
) -> Seq<char> {
    "__NEWLINE__ "@ + thunk_decl + "inline "@ + p.ret_type + struct_prefix + p.fn_name + " ( "@
        + main_api_params(p) + ") "@ + p.qualifiers + "{ "@ + body + "} __NEWLINE__ "@
}

/// Writes the details of the binding in C++.
pub fn format_fn_cc_details(krate: &Crate, f: usize, p: &FnParts) -> (r: Result<CcSnippet, Error>)
    requires
        fn_of(*krate, f) is Some,
        krate.defs@[f as int].name is Some,
        p.param_names@.len() == p.param_types@.len(),
        p.param_names@.len() <= fn_of(*krate, f)->0.sig.inputs@.len(),
    ensures
        crate::type_map::snippet_result_is(r, fn_cc_details(*krate, f, p@)),
{
    let d = &krate.defs[f];
    let fd = match krate.function(f) {
        Some(fd) => fd,
        None => {
            return Err(Error::new(""));
        },
    };
    let target = fn_call_target(fd);
    let own = match &d.name {
        Some(n) => str_eq(n.as_str(), target.as_str()),
        None => false,
    };
    if own {
        return Ok(CcSnippet::empty());
    }
    let thunk = match format_cc_ident(target.as_str()) {
        Ok(t) => t,
        Err(e) => {
            return Err(e.context(String::from_str("Error formatting thunk name")));
        },
    };
    let prefix = match format_struct_prefix(krate, fd) {
        Ok(s) => s,
        Err(e) => {
            return Err(e);
        },
    };
    let mut prereqs = p.prereqs.copy();
    let decl = match format_thunk_decl(krate, &fd.sig, thunk.as_str()) {
        Ok(s) => s,
        Err(e) => {
            return Err(e);
        },
    };
    let decl_tokens = decl.into_tokens(&mut prereqs);
    let args = format_thunk_args(p.kind, &fd.sig.inputs, &p.param_names);
    let by_value = is_c_abi_compatible_by_value(&fd.sig.output);
    if !by_value {
        match check_return_by_value(krate, &fd.sig.output) {
            Ok(()) => {},
            Err(e) => {
                return Err(e);
            },
        }
        prereqs.includes.insert(CcInclude::utility());
        prereqs.includes.insert(krate.support_header("internal/return_value_slot.h"));
    }
    let body = format_impl_body(by_value, p.ret_type.as_str(), thunk.as_str(), args);
    let mut tokens = String::from_str("__NEWLINE__ ");
    tokens.append(decl_tokens.as_str());
    tokens.append("inline ");
    tokens.append(p.ret_type.as_str());
    tokens.append(prefix.as_str());
    tokens.append(p.fn_name.as_str());
    tokens.append(" ( ");
    tokens.append(format_main_api_params(p).as_str());
    tokens.append(") ");
    tokens.append(p.qualifiers.as_str());
    tokens.append("{ ");
    tokens.append(body.as_str());
    tokens.append("} __NEWLINE__ ");
    Ok(CcSnippet { tokens, prereqs })
}

/// How the thunk names the function that it calls.
pub open spec fn fn_callee(krate: Crate, f: usize) -> Seq<char>
    recommends
        fn_of(krate, f) is Some,
{
    let d = krate.defs@[f as int];
    let fd = fn_of(krate, f)->0;
    match fd.impl_of {
        Some(adt) => if adt < krate.defs@.len() && krate.defs@[adt as int].name is Some {
            def_rs_name(krate.defs@[adt as int]) + " :: "@ + rs_ident(d.name->0@) + " "@
        } else {
            def_rs_name(d) + " "@
        },
        None => def_rs_name(d) + " "@,
    }
}

/// The details of the binding in Rust: the thunk, where one is needed.
pub open spec fn fn_rs_details(krate: Crate, f: usize) -> Result<Seq<char>, Messages>
    recommends
        fn_of(krate, f) is Some,
{
    let fd = fn_of(krate, f)->0;
    if !needs_thunk(fd) {
        Ok(""@)
    } else {
        thunk_impl(
            krate,
            fd.sig@,
            views(fd.param_names@),
            thunk_name_of(fd.symbol_name@),
            fn_callee(krate, f),
        )
    }
}

/// Writes the details of the binding in Rust.
pub fn format_fn_rs_details(krate: &Crate, f: usize) -> (r: Result<String, Error>)
    requires
        fn_of(*krate, f) is Some,
        krate.defs@[f as int].name is Some,
    ensures
        crate::names::text_result_is(r, fn_rs_details(*krate, f)),
{
    let d = &krate.defs[f];
    let fd = match krate.function(f) {
        Some(fd) => fd,
        None => {
            return Err(Error::new(""));
        },
    };
    if !fn_needs_thunk(fd) {
        return Ok(String::from_str(""));
    }
    let own = match &d.name {
        Some(n) => n,
        None => {
            return Err(Error::new(""));
        },
    };
    let mut callee: String;
    let in_struct = match fd.impl_of {
        Some(adt) => adt < krate.defs.len() && krate.defs[adt].name.is_some(),
        None => false,
    };
    if in_struct {
        let adt = fd.impl_of.unwrap();
        callee = krate.defs[adt].qualified_name(&None).format_for_rs();
        callee.append(" :: ");
        callee.append(make_rs_ident(own.as_str()).as_str());
        callee.append(" ");
    } else {
        callee = d.qualified_name(&None).format_for_rs();
        callee.append(" ");
    }
    let thunk_name = make_thunk_name(fd.symbol_name.as_str());
    format_thunk_impl(krate, &fd.sig, &fd.param_names, thunk_name.as_str(), callee.as_str())
}

/// The binding of the function that `f` names, or why it has none.
pub open spec fn fn_binding(krate: Crate, f: usize) -> Result<ApiView, Messages>
    recommends
        fn_of(krate, f) is Some,
{
    match fn_parts(krate, f) {
        Err(e) => Err(e),
        Ok(p) => match fn_cc_details(krate, f, p) {
            Err(e) => Err(e),
            Ok(details) => match fn_rs_details(krate, f) {
                Err(e) => Err(e),
                Ok(rs) => {
                    let main = fn_main_api(krate.defs@[f as int], fn_of(krate, f)->0, p);
                    Ok(
                        ApiView {
                            main_tokens: main.tokens,
                            main_prereqs: main.prereqs,
                            details_tokens: details.tokens,
                            details_prereqs: details.prereqs,
                            rs_details: rs,
                        },
                    )
                },
            },
        },
    }
}

/// There are as many names and types among the parts as parameters with a
/// name and a type.
pub proof fn lemma_fn_parts_len(names: Seq<Seq<char>>, cc_types: Seq<SnippetView>, n: int)
    requires
        0 <= n <= names.len(),
        n <= cc_types.len(),
    ensures
        cc_param_names(names, n).len() == n,
        tokens_of(cc_types, n).len() == n,
    decreases n,
{
    if n > 0 {
        lemma_fn_parts_len(names, cc_types, n - 1);
    }
}

/// A bundle result and the function's result agree.
pub open spec fn binding_result_is(
    r: Result<ApiSnippets, Error>,
    expected: Result<ApiView, Messages>,
) -> bool {
    match expected {
        Ok(v) => r matches Ok(a) && a@ == v,
        Err(e) => r matches Err(x) && x@ == e,
    }
}

/// Binds the function that `f` names.
pub fn format_fn(krate: &Crate, f: usize) -> (r: Result<ApiSnippets, Error>)
    requires
        fn_of(*krate, f) is Some,
    ensures
        binding_result_is(r, fn_binding(*krate, f)),
{
    let parts = match format_fn_parts(krate, f) {
        Ok(p) => p,
        Err(e) => {
            return Err(e);
        },
    };
    let d = &krate.defs[f];
    let fd = match krate.function(f) {
        Some(fd) => fd,
        None => {
            return Err(Error::new(""));
        },
    };
    proof {
        lemma_cc_param_types_len(*krate, fd.sig.inputs@, fd.sig.inputs@.len() as int);
        lemma_fn_parts_len(
            views(fd.param_names@),
            cc_param_types(*krate, fd.sig.inputs@, fd.sig.inputs@.len() as int)->Ok_0,
            param_count(*fd),
        );
    }
    let main_api = format_fn_main_api(d, fd, &parts);
    let cc_details = match format_fn_cc_details(krate, f, &parts) {
        Ok(s) => s,
        Err(e) => {
            return Err(e);
        },
    };
    let rs_details = match format_fn_rs_details(krate, f) {
        Ok(s) => s,
        Err(e) => {
            return Err(e);
        },
    };
    Ok(ApiSnippets { main_api, cc_details, rs_details })
}

} // verus!
