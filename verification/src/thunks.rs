//! Thunks: the functions with the C calling convention through which C++
//! calls what Rust defines. A thunk is declared in C++ and defined in Rust.

use vstd::prelude::*;
use vstd::string::*;
use crate::cc_ident::{make_rs_ident, rs_ident, string_literal, string_literal_text};
use crate::error::Error;
use crate::names::text_result_is;
use crate::prereqs::{snippet_views, CcPrerequisites, CcSnippet, SnippetView};
use crate::rs_model::{lifetime_name, Crate, Def, FnSig, Lifetime, SigView, TextAttr, Ty};
use crate::text::{decimal, join, join_strings, push_decimal, str_eq, text_lt, views, compare_text, TextOrder};
use crate::type_map::{
    abi_trivial, adt_of, all_prereqs, cc_param_types, cc_ret_type, format_param_types_for_cc,
    format_ret_ty_for_cc, format_ty_for_rs, in_context, is_c_abi_compatible_by_value, rs_lifetime,
    rs_type, snippet_result_is, Messages,
};

verus! {

/// A comment among tokens: the marker and the text as a string literal.
pub open spec fn comment_tokens(text: Seq<char>) -> Seq<char> {
    "__COMMENT__ "@ + string_literal_text(text) + " "@
}

/// Writes a comment among tokens, given its text as a string literal.
pub fn comment_from_literal(literal: &str) -> (r: String)
    ensures
        r@ == "__COMMENT__ "@ + literal@ + " "@,
{
    let mut s = String::from_str("__COMMENT__ ");
    s.append(literal);
    s.append(" ");
    s
}

/// Writes a comment among tokens.
pub fn format_comment(text: &str) -> (r: String)
    ensures
        r@ == comment_tokens(text@),
{
    comment_from_literal(string_literal(text).as_str())
}

/// The text of the comment above an item: its documentation, then where it
/// is defined, with an empty line between each two.
pub open spec fn doc_comment_text(docs: Seq<Seq<char>>, location: Seq<char>) -> Seq<char> {
    join(docs.push("Generated from: "@ + location), "\n\n"@)
}

/// The comment above an item.
pub open spec fn doc_comment(d: Def) -> Seq<char> {
    comment_tokens(doc_comment_text(views(d.doc_comments@), d.source_location@))
}

/// Writes the comment above an item from its documentation and the place
/// of its definition.
pub fn format_doc_comment_from(docs: &Vec<String>, location: &str) -> (r: String)
    ensures
        r@ == comment_tokens(doc_comment_text(views(docs@), location@)),
{
    let mut parts: Vec<String> = Vec::new();
    let mut i: usize = 0;
    while i < docs.len()
        invariant
            i <= docs.len(),
            views(parts@) == views(docs@).take(i as int),
        decreases docs.len() - i,
    {
        let ghost before = views(parts@);
        let c = docs[i].clone();
        parts.push(c);
        assert(views(parts@) =~= before.push(c@));
        assert(views(docs@)[i as int] == c@);
        assert(views(parts@) =~= views(docs@).take(i + 1));
        i += 1;
    }
    assert(views(docs@).take(docs.len() as int) =~= views(docs@));
    let mut last = String::from_str("Generated from: ");
    last.append(location);
    let ghost before = views(parts@);
    parts.push(last);
    assert(views(parts@) =~= before.push(last@));
    let text = join_strings(&parts, "\n\n");
    format_comment(text.as_str())
}

/// Writes the comment above an item.
pub fn format_doc_comment(d: &Def) -> (r: String)
    ensures
        r@ == doc_comment(*d),
{
    format_doc_comment_from(&d.doc_comments, d.source_location.as_str())
}

/// The C++ attribute for a deprecation.
pub open spec fn deprecated_tag(attr: TextAttr) -> Seq<char> {
    match attr {
        TextAttr::Absent => ""@,
        TextAttr::Bare => "[ [ deprecated ] ] "@,
        TextAttr::With(note) => "[ [ deprecated ( "@ + string_literal_text(note@) + " ) ] ] "@,
    }
}

/// Writes the C++ attribute for a deprecation, if there is one.
pub fn format_deprecated_tag(attr: &TextAttr) -> (r: String)
    ensures
        r@ == deprecated_tag(*attr),
{
    match attr {
        TextAttr::Absent => String::from_str(""),
        TextAttr::Bare => String::from_str("[ [ deprecated ] ] "),
        TextAttr::With(note) => {
            let mut s = String::from_str("[ [ deprecated ( ");
            s.append(string_literal(note.as_str()).as_str());
            s.append(" ) ] ] ");
            s
        },
    }
}

/// The C++ attribute for a result that must be used.
pub open spec fn nodiscard_tag(attr: TextAttr) -> Seq<char> {
    match attr {
        TextAttr::Absent => ""@,
        TextAttr::Bare => "[ [ nodiscard ] ] "@,
        TextAttr::With(message) => "[ [ nodiscard ( "@ + string_literal_text(message@) + " ) ] ] "@,
    }
}

/// Writes the C++ attribute for a result that must be used, if it must.
pub fn format_nodiscard_tag(attr: &TextAttr) -> (r: String)
    ensures
        r@ == nodiscard_tag(*attr),
{
    match attr {
        TextAttr::Absent => String::from_str(""),
        TextAttr::Bare => String::from_str("[ [ nodiscard ] ] "),
        TextAttr::With(message) => {
            let mut s = String::from_str("[ [ nodiscard ( ");
            s.append(string_literal(message.as_str()).as_str());
            s.append(" ) ] ] ");
            s
        },
    }
}

/// Whether dropping a value of the type runs code.
pub open spec fn ty_needs_drop(krate: Crate, t: Ty) -> bool {
    t matches Ty::Adt { def, .. } && adt_of(krate, def) matches Some(a) && a.needs_drop
}

/// Whether dropping a value of the type runs code.
pub fn needs_drop(krate: &Crate, ty: &Ty) -> (r: bool)
    ensures
        r == ty_needs_drop(*krate, *ty),
{
    match ty {
        Ty::Adt { def, .. } => match krate.adt(*def) {
            Some(a) => a.needs_drop,
            None => false,
        },
        _ => false,
    }
}

/// The first `n` parameters of the declaration of a thunk. A type that
/// crosses the boundary by value is passed as it is. Any other is passed
/// by address, and only where dropping it runs no code, as the thunk
/// moves the value out by copying its bytes.
pub open spec fn thunk_decl_params(
    krate: Crate,
    inputs: Seq<Ty>,
    cc_types: Seq<SnippetView>,
    n: int,
) -> Result<Seq<Seq<char>>, Messages>
    decreases n,
{
    if n <= 0 || n > inputs.len() || n > cc_types.len() {
        Ok(Seq::empty())
    } else {
        match thunk_decl_params(krate, inputs, cc_types, n - 1) {
            Err(e) => Err(e),
            Ok(before) => if abi_trivial(inputs[n - 1]) {
                Ok(before.push(cc_types[n - 1].tokens))
            } else if ty_needs_drop(krate, inputs[n - 1]) {
                Err(
                    seq![
                        "Only trivially-movable and trivially-destructible types may be passed by value over the FFI boundary"@,
                    ],
                )
            } else {
                Ok(before.push(cc_types[n - 1].tokens + "* "@))
            },
        }
    }
}

/// The declaration of a thunk in C++: inside the namespace for internals, a
/// function with the C calling convention. Where the return type does not
/// cross the boundary by value, the thunk returns nothing and takes, last,
/// the address of the place that will hold the result.
pub open spec fn thunk_decl(krate: Crate, sig: SigView, thunk_name: Seq<char>) -> Result<
    SnippetView,
    Messages,
> {
    match cc_ret_type(krate, sig) {
        Err(e) => Err(e),
        Ok(ret) => match cc_param_types(krate, sig.inputs, sig.inputs.len() as int) {
            Err(e) => Err(e),
            Ok(cc_types) => match thunk_decl_params(
                krate,
                sig.inputs,
                cc_types,
                cc_types.len() as int,
            ) {
                Err(e) => Err(e),
                Ok(params) => Ok(
                    SnippetView {
                        tokens: thunk_decl_tokens(
                            abi_trivial(sig.output),
                            ret.tokens,
                            thunk_name,
                            params,
                        ),
                        prereqs: all_prereqs(cc_types, cc_types.len() as int).plus(ret.prereqs),
                    },
                ),
            },
        }
    }
}

/// The tokens of the declaration of a thunk.
pub open spec fn thunk_decl_tokens(
    returns_by_value: bool,
    ret: Seq<char>,
    thunk_name: Seq<char>,
    params: Seq<Seq<char>>,
) -> Seq<char> {
    if returns_by_value {
        "namespace __crubit_internal { extern \"C\" "@ + ret + thunk_name + " ( "@ + join(
            params,
            ", "@,
        ) + ") ; } "@
    } else {
        "namespace __crubit_internal { extern \"C\" "@ + "void "@ + thunk_name + " ( "@ + join(
            params.push(ret + "* __ret_ptr "@),
            ", "@,
        ) + ") ; } "@
    }
}

/// Declares in C++ the thunk that wraps a function with the given
/// signature.
pub fn format_thunk_decl(krate: &Crate, sig: &FnSig, thunk_name: &str) -> (r: Result<
    CcSnippet,
    Error,
>)
    ensures
        snippet_result_is(r, thunk_decl(*krate, sig@, thunk_name@)),
{
    let mut prereqs = CcPrerequisites::new();
    let ret = match format_ret_ty_for_cc(krate, sig) {
        Ok(s) => s,
        Err(e) => {
            return Err(e);
        },
    };
    let ghost ret_view = ret@;
    let main_api_ret_type = ret.into_tokens(&mut prereqs);
    let cc_types = match format_param_types_for_cc(krate, sig) {
        Ok(v) => v,
        Err(e) => {
            return Err(e);
        },
    };
    let ghost cc_views = snippet_views(cc_types@);
    assert(cc_types@.len() == sig.inputs@.len()) by {
        lemma_cc_param_types_len(*krate, sig.inputs@, sig.inputs@.len() as int);
    }
    let mut thunk_params: Vec<String> = Vec::new();
    assert(views(thunk_params@) =~= Seq::<Seq<char>>::empty());
    let mut i: usize = 0;
    while i < cc_types.len()
        invariant
            i <= cc_types.len(),
            cc_types@.len() == sig.inputs@.len(),
            cc_views == snippet_views(cc_types@),
            cc_ret_type(*krate, sig@) is Ok,
            cc_param_types(*krate, sig.inputs@, sig.inputs@.len() as int) == Ok::<
                Seq<SnippetView>,
                Messages,
            >(cc_views),
            thunk_decl_params(*krate, sig.inputs@, cc_views, i as int) == Ok::<
                Seq<Seq<char>>,
                Messages,
            >(views(thunk_params@)),
        decreases cc_types.len() - i,
    {
        assert(cc_views[i as int] == cc_types@[i as int]@);
        let ghost before = views(thunk_params@);
        let mut p = cc_types[i].tokens.clone();
        if is_c_abi_compatible_by_value(&sig.inputs[i]) {
        } else {
            if needs_drop(krate, &sig.inputs[i]) {
                proof {
                    lemma_thunk_decl_params_error(
                        *krate,
                        sig.inputs@,
                        cc_views,
                        i as int + 1,
                        cc_views.len() as int,
                    );
                }
                return Err(
                    Error::new(
                        "Only trivially-movable and trivially-destructible types may be passed by value over the FFI boundary",
                    ),
                );
            }
            p.append("* ");
        }
        thunk_params.push(p);
        assert(views(thunk_params@) =~= before.push(p@));
        i += 1;
    }
    let mut ignored = String::new();
    let list = crate::type_map::join_snippets(cc_types, &mut prereqs);
    let ghost params_before = views(thunk_params@);
    let mut tokens = String::from_str("namespace __crubit_internal { extern \"C\" ");
    if is_c_abi_compatible_by_value(&sig.output) {
        tokens.append(main_api_ret_type.as_str());
    } else {
        tokens.append("void ");
        let mut last = main_api_ret_type;
        last.append("* __ret_ptr ");
        thunk_params.push(last);
        assert(views(thunk_params@) =~= params_before.push(last@));
    }
    tokens.append(thunk_name);
    tokens.append(" ( ");
    tokens.append(join_strings(&thunk_params, ", ").as_str());
    tokens.append(") ; } ");
    let s = CcSnippet { tokens, prereqs };
    proof {
        let a = all_prereqs(cc_views, cc_views.len() as int).plus(ret_view.prereqs);
        assert(s.prereqs@.includes =~= a.includes);
        assert(s.prereqs@.defs =~= a.defs);
        assert(s.prereqs@.fwd_decls =~= a.fwd_decls);
    }
    Ok(s)
}

/// Where every parameter type has a spelling, there are as many spellings
/// as parameters.
pub proof fn lemma_cc_param_types_len(krate: Crate, inputs: Seq<Ty>, n: int)
    requires
        0 <= n <= inputs.len(),
    ensures
        cc_param_types(krate, inputs, n) matches Ok(v) ==> v.len() == n,
    decreases n,
{
    if n > 0 {
        lemma_cc_param_types_len(krate, inputs, n - 1);
    }
}

/// Once a parameter is refused, so is every longer list.
pub proof fn lemma_thunk_decl_params_error(
    krate: Crate,
    inputs: Seq<Ty>,
    cc_types: Seq<SnippetView>,
    n: int,
    m: int,
)
    requires
        0 <= n <= m,
        m <= inputs.len(),
        m <= cc_types.len(),
        thunk_decl_params(krate, inputs, cc_types, n) is Err,
    ensures
        thunk_decl_params(krate, inputs, cc_types, m) == thunk_decl_params(
            krate,
            inputs,
            cc_types,
            n,
        ),
    decreases m - n,
{
    if n < m {
        lemma_thunk_decl_params_error(krate, inputs, cc_types, n, m - 1);
    }
}

/// A list of names in dictionary order with one more name in its place; a
/// name that the list holds already is not added again.
pub open spec fn insert_sorted(s: Seq<Seq<char>>, x: Seq<char>) -> Seq<Seq<char>>
    decreases s.len(),
{
    if s.len() == 0 {
        seq![x]
    } else if x == s[0] {
        s
    } else if text_lt(x, s[0]) {
        seq![x] + s
    } else {
        seq![s[0]] + insert_sorted(s.subrange(1, s.len() as int), x)
    }
}

/// Puts a name in its place in a list in dictionary order.
pub fn insert_name_sorted(names: &mut Vec<String>, name: String)
    ensures
        views(final(names)@) == insert_sorted(views(old(names)@), name@),
{
    let ghost s = views(names@);
    assert(s.subrange(0, s.len() as int) =~= s);
    assert(s.subrange(0, 0) + insert_sorted(s, name@) =~= insert_sorted(s, name@));
    let mut i: usize = 0;
    let mut stop = false;
    while i < names.len() && !stop
        invariant
            i <= names.len(),
            names@ == old(names)@,
            s == views(names@),
            insert_sorted(s, name@) == s.subrange(0, i as int) + insert_sorted(
                s.subrange(i as int, s.len() as int),
                name@,
            ),
            stop ==> i < names.len() && text_lt(name@, s[i as int]),
        decreases names.len() - i + (if stop { 0int } else { 1int }),
    {
        assert(s[i as int] == names@[i as int]@);
        let ghost rest = s.subrange(i as int, s.len() as int);
        assert(rest[0] == s[i as int]);
        match compare_text(name.as_str(), names[i].as_str()) {
            TextOrder::Same => {
                assert(insert_sorted(rest, name@) == rest);
                assert(s.subrange(0, i as int) + rest =~= s);
                return ;
            },
            TextOrder::Before => {
                stop = true;
            },
            TextOrder::After => {
                assert(rest.subrange(1, rest.len() as int) =~= s.subrange(i + 1, s.len() as int));
                assert(s.subrange(0, i as int) + (seq![rest[0]] + insert_sorted(
                    s.subrange(i + 1, s.len() as int),
                    name@,
                )) =~= s.subrange(0, i + 1) + insert_sorted(
                    s.subrange(i + 1, s.len() as int),
                    name@,
                ));
                i += 1;
            },
        }
    }
    proof {
        let rest = s.subrange(i as int, s.len() as int);
        if i < names.len() {
            assert(rest[0] == s[i as int]);
            crate::text::lemma_text_lt_asymmetric(name@, name@, 0);
            assert(name@ != rest[0]);
            assert(insert_sorted(rest, name@) == seq![name@] + rest);
        } else {
            assert(insert_sorted(rest, name@) == seq![name@]);
        }
        assert(s.subrange(0, i as int) + (seq![name@] + rest) =~= s.insert(i as int, name@));
    }
    names.insert(i, name);
    assert(views(names@) =~= s.insert(i as int, name@));
}

/// The names with the name of one more lifetime, where the lifetime is
/// not `static` and is of the kind asked for: one that the source names,
/// or one that it leaves out.
pub open spec fn with_lifetime(s: Seq<Seq<char>>, l: Lifetime, anonymous: bool) -> Seq<Seq<char>> {
    if lifetime_name(l) == "static"@ || (l is Anonymous) != anonymous {
        s
    } else {
        insert_sorted(s, lifetime_name(l))
    }
}

/// The names in `acc` and the lifetimes of one kind that a type mentions,
/// `static` excepted, in dictionary order and once each.
pub open spec fn ty_lifetimes(t: Ty, acc: Seq<Seq<char>>, anonymous: bool) -> Seq<Seq<char>>
    decreases t, 0int,
{
    match t {
        Ty::Tuple(v) => tys_lifetimes(v@, v@.len() as int, acc, anonymous),
        Ty::RawPtr { pointee, .. } => ty_lifetimes(*pointee, acc, anonymous),
        Ty::Ref { lifetime, referent, .. } => ty_lifetimes(
            *referent,
            with_lifetime(acc, lifetime, anonymous),
            anonymous,
        ),
        Ty::FnPtr { sig, .. } => ty_lifetimes(
            sig.output,
            tys_lifetimes(sig.inputs@, sig.inputs@.len() as int, acc, anonymous),
            anonymous,
        ),
        Ty::Array(elem, _) => ty_lifetimes(*elem, acc, anonymous),
        Ty::Slice(elem) => ty_lifetimes(*elem, acc, anonymous),
        _ => acc,
    }
}

/// The names in `acc` and the lifetimes of one kind that the first `n`
/// types mention.
pub open spec fn tys_lifetimes(v: Seq<Ty>, n: int, acc: Seq<Seq<char>>, anonymous: bool) -> Seq<
    Seq<char>,
>
    decreases v, n,
{
    if n <= 0 || n > v.len() {
        acc
    } else {
        ty_lifetimes(v[n - 1], tys_lifetimes(v, n - 1, acc, anonymous), anonymous)
    }
}

/// Adds the lifetimes of one kind that a type mentions to a list in
/// dictionary order.
pub fn collect_lifetimes(ty: &Ty, names: &mut Vec<String>, anonymous: bool)
    ensures
        views(final(names)@) == ty_lifetimes(*ty, views(old(names)@), anonymous),
    decreases ty, 0int,
{
    match ty {
        Ty::Tuple(v) => collect_lifetimes_upto(v, v.len(), names, anonymous),
        Ty::RawPtr { pointee, .. } => collect_lifetimes(pointee, names, anonymous),
        Ty::Ref { lifetime, referent, .. } => {
            let name = lifetime.name();
            let is_anonymous = match lifetime {
                Lifetime::Anonymous(_) => true,
                _ => false,
            };
            if !str_eq(name.as_str(), "static") && is_anonymous == anonymous {
                insert_name_sorted(names, name);
            }
            collect_lifetimes(referent, names, anonymous);
        },
        Ty::FnPtr { sig, .. } => {
            collect_lifetimes_upto(&sig.inputs, sig.inputs.len(), names, anonymous);
            collect_lifetimes(&sig.output, names, anonymous);
        },
        Ty::Array(elem, _) => collect_lifetimes(elem, names, anonymous),
        Ty::Slice(elem) => collect_lifetimes(elem, names, anonymous),
        _ => {},
    }
}

/// Adds the lifetimes of one kind that the first `n` types mention.
pub fn collect_lifetimes_upto(v: &Vec<Ty>, n: usize, names: &mut Vec<String>, anonymous: bool)
    requires
        n <= v.len(),
    ensures
        views(final(names)@) == tys_lifetimes(v@, n as int, views(old(names)@), anonymous),
    decreases v, n,
{
    if n > 0 {
        collect_lifetimes_upto(v, n - 1, names, anonymous);
        proof {
            vstd::std_specs::vec::axiom_vec_index_decreases(*v, n - 1);
        }
        collect_lifetimes(&v[n - 1], names, anonymous);
    }
}

/// The lifetimes of one kind that a signature mentions.
pub open spec fn sig_lifetimes(sig: SigView, anonymous: bool) -> Seq<Seq<char>> {
    ty_lifetimes(
        sig.output,
        tys_lifetimes(sig.inputs, sig.inputs.len() as int, Seq::empty(), anonymous),
        anonymous,
    )
}

/// The generic parameters of a thunk: the lifetimes that its signature
/// mentions, `static` excepted; first those that the source names, then
/// those that it leaves out, each kind in dictionary order.
pub open spec fn thunk_generics(sig: SigView) -> Seq<char> {
    let names = sig_lifetimes(sig, false) + sig_lifetimes(sig, true);
    if names.len() == 0 {
        ""@
    } else {
        "< "@ + join(names.map_values(|n: Seq<char>| rs_lifetime(n)), ", "@) + "> "@
    }
}

/// Writes the generic parameters of a thunk.
pub fn format_thunk_generics(sig: &FnSig) -> (r: String)
    ensures
        r@ == thunk_generics(sig@),
{
    let mut names: Vec<String> = Vec::new();
    assert(views(names@) =~= Seq::<Seq<char>>::empty());
    collect_lifetimes_upto(&sig.inputs, sig.inputs.len(), &mut names, false);
    collect_lifetimes(&sig.output, &mut names, false);
    let mut left_out: Vec<String> = Vec::new();
    assert(views(left_out@) =~= Seq::<Seq<char>>::empty());
    collect_lifetimes_upto(&sig.inputs, sig.inputs.len(), &mut left_out, true);
    collect_lifetimes(&sig.output, &mut left_out, true);
    let ghost named = views(names@);
    let ghost unnamed = views(left_out@);
    names.append(&mut left_out);
    assert(views(names@) =~= named + unnamed);
    if names.len() == 0 {
        return String::from_str("");
    }
    let ghost spec_names = views(names@);
    let mut shown: Vec<String> = Vec::new();
    let mut i: usize = 0;
    while i < names.len()
        invariant
            i <= names.len(),
            spec_names == views(names@),
            views(shown@) == spec_names.map_values(|n: Seq<char>| rs_lifetime(n)).take(i as int),
        decreases names.len() - i,
    {
        let ghost before = views(shown@);
        assert(spec_names[i as int] == names@[i as int]@);
        let mut l = String::from_str("'");
        l.append(names[i].as_str());
        l.append(" ");
        shown.push(l);
        assert(views(shown@) =~= before.push(l@));
        assert(views(shown@) =~= spec_names.map_values(|n: Seq<char>| rs_lifetime(n)).take(i + 1));
        i += 1;
    }
    assert(spec_names.map_values(|n: Seq<char>| rs_lifetime(n)).take(names.len() as int)
        =~= spec_names.map_values(|n: Seq<char>| rs_lifetime(n)));
    let mut out = String::from_str("< ");
    out.append(join_strings(&shown, ", ").as_str());
    out.append("> ");
    out
}

/// The name of the `i`-th parameter of a thunk in Rust: a parameter without
/// a name is numbered, and `self` cannot keep its name.
pub open spec fn thunk_param_name(name: Seq<char>, i: int) -> Seq<char> {
    if name.len() == 0 {
        "__param_"@ + decimal(i as nat)
    } else if name == "self"@ {
        "__self"@
    } else {
        rs_ident(name)
    }
}

/// Names the `i`-th parameter of a thunk in Rust.
pub fn format_thunk_param_name(name: &str, i: usize) -> (r: String)
    ensures
        r@ == thunk_param_name(name@, i as int),
{
    if name.unicode_len() == 0 {
        let mut s = String::from_str("__param_");
        push_decimal(&mut s, i as u64);
        s
    } else if str_eq(name, "self") {
        String::from_str("__self")
    } else {
        make_rs_ident(name)
    }
}

/// The first `n` parameters of the definition of a thunk, and the first `n`
/// arguments of the call that it makes. A parameter whose type does not
/// cross the boundary by value is taken by address and read out for the
/// call.
pub open spec fn thunk_impl_params(
    krate: Crate,
    sig: SigView,
    names: Seq<Seq<char>>,
    n: int,
) -> Result<(Seq<Seq<char>>, Seq<Seq<char>>), Messages>
    decreases n,
{
    if n <= 0 || n > sig.inputs.len() || n > names.len() {
        Ok((Seq::empty(), Seq::empty()))
    } else {
        match thunk_impl_params(krate, sig, names, n - 1) {
            Err(e) => Err(e),
            Ok(before) => {
                let name = thunk_param_name(names[n - 1], n - 1);
                match in_context(
                    "Error handling parameter `"@ + name + "`"@,
                    rs_type(krate, sig.inputs[n - 1]),
                ) {
                    Err(e) => Err(e),
                    Ok(ty) => if abi_trivial(sig.inputs[n - 1]) {
                        Ok((before.0.push(name + " : "@ + ty), before.1.push(name + " "@)))
                    } else {
                        Ok(
                            (
                                before.0.push(
                                    name + " : & mut :: core :: mem :: MaybeUninit < "@ + ty
                                        + "> "@,
                                ),
                                before.1.push(
                                    if sig.is_unsafe {
                                        name + " . assume_init_read ( ) "@
                                    } else {
                                        "unsafe { "@ + name + " . assume_init_read ( ) } "@
                                    },
                                ),
                            ),
                        )
                    },
                }
            },
        }
    }
}

/// The definition of a thunk in Rust, given its parameters, the arguments
/// of the call and the spelling of the return type.
pub open spec fn thunk_impl_tokens(
    sig: SigView,
    thunk_name: Seq<char>,
    callee: Seq<char>,
    params: Seq<Seq<char>>,
    args: Seq<Seq<char>>,
    ret: Seq<char>,
) -> Seq<char> {
    let call = callee + "( "@ + join(args, ", "@) + ") "@;
    let body = if sig.is_unsafe {
        "unsafe { "@ + call + "} "@
    } else {
        call
    };
    let qualifier = if sig.is_unsafe {
        "unsafe "@
    } else {
        ""@
    };
    if abi_trivial(sig.output) {
        "# [ no_mangle ] "@ + qualifier + "extern \"C\" fn "@ + rs_ident(thunk_name) + " "@
            + thunk_generics(sig) + "( "@ + join(params, ", "@) + ") -> "@ + ret + "{ "@ + body
            + "} "@
    } else {
        "# [ no_mangle ] "@ + qualifier + "extern \"C\" fn "@ + rs_ident(thunk_name) + " "@
            + thunk_generics(sig) + "( "@ + join(
            params.push("__ret_slot : & mut :: core :: mem :: MaybeUninit < "@ + ret + "> "@),
            ", "@,
        ) + ") -> "@ + "( ) "@ + "{ "@ + ("__ret_slot . write ( "@ + body + ") ; "@) + "} "@
    }
}

/// The number of parameters that have both a name and a type.
pub open spec fn named_params(sig: SigView, names: Seq<Seq<char>>) -> int {
    if names.len() <= sig.inputs.len() {
        names.len() as int
    } else {
        sig.inputs.len() as int
    }
}

/// The definition of a thunk in Rust: a function with the C calling
/// convention and an unmangled name that calls `callee`. Where the return
/// type does not cross the boundary by value, the thunk writes the result
/// to the place whose address it takes last.
pub open spec fn thunk_impl(
    krate: Crate,
    sig: SigView,
    names: Seq<Seq<char>>,
    thunk_name: Seq<char>,
    callee: Seq<char>,
) -> Result<Seq<char>, Messages> {
    match thunk_impl_params(krate, sig, names, named_params(sig, names)) {
        Err(e) => Err(e),
        Ok(pa) => match rs_type(krate, sig.output) {
            Err(e) => Err(e),
            Ok(ret) => Ok(thunk_impl_tokens(sig, thunk_name, callee, pa.0, pa.1, ret)),
        },
    }
}

/// Once a parameter is refused, so is every longer list.
pub proof fn lemma_thunk_impl_params_error(
    krate: Crate,
    sig: SigView,
    names: Seq<Seq<char>>,
    n: int,
    m: int,
)
    requires
        0 <= n <= m,
        m <= sig.inputs.len(),
        m <= names.len(),
        thunk_impl_params(krate, sig, names, n) is Err,
    ensures
        thunk_impl_params(krate, sig, names, m) == thunk_impl_params(krate, sig, names, n),
    decreases m - n,
{
    if n < m {
        lemma_thunk_impl_params_error(krate, sig, names, n, m - 1);
    }
}

/// Defines in Rust the thunk that gives a function the C calling
/// convention. `fully_qualified_fn_name` says how the thunk names the
/// function that it calls.
pub fn format_thunk_impl(
    krate: &Crate,
    sig: &FnSig,
    param_names: &Vec<String>,
    thunk_name: &str,
    fully_qualified_fn_name: &str,
) -> (r: Result<String, Error>)
    ensures
        text_result_is(
            r,
            thunk_impl(
                *krate,
                sig@,
                views(param_names@),
                thunk_name@,
                fully_qualified_fn_name@,
            ),
        ),
{
    let count = if param_names.len() <= sig.inputs.len() {
        param_names.len()
    } else {
        sig.inputs.len()
    };
    let ghost names = views(param_names@);
    let mut params: Vec<String> = Vec::new();
    let mut args: Vec<String> = Vec::new();
    assert(views(params@) =~= Seq::<Seq<char>>::empty());
    assert(views(args@) =~= Seq::<Seq<char>>::empty());
    let mut i: usize = 0;
    while i < count
        invariant
            i <= count,
            count as int == named_params(sig@, names),
            names == views(param_names@),
            thunk_impl_params(*krate, sig@, names, i as int) == Ok::<
                (Seq<Seq<char>>, Seq<Seq<char>>),
                Messages,
            >((views(params@), views(args@))),
        decreases count - i,
    {
        assert(names[i as int] == param_names@[i as int]@);
        let ghost params_before = views(params@);
        let ghost args_before = views(args@);
        let name = format_thunk_param_name(param_names[i].as_str(), i);
        let ty = match format_ty_for_rs(krate, &sig.inputs[i]) {
            Ok(t) => t,
            Err(e) => {
                let mut c = String::from_str("Error handling parameter `");
                c.append(name.as_str());
                c.append("`");
                proof {
                    lemma_thunk_impl_params_error(*krate, sig@, names, i as int + 1, count as int);
                }
                return Err(e.context(c));
            },
        };
        let mut p = name.clone();
        let mut a: String;
        if is_c_abi_compatible_by_value(&sig.inputs[i]) {
            p.append(" : ");
            p.append(ty.as_str());
            a = name;
            a.append(" ");
        } else {
            p.append(" : & mut :: core :: mem :: MaybeUninit < ");
            p.append(ty.as_str());
            p.append("> ");
            if sig.is_unsafe {
                a = name;
                a.append(" . assume_init_read ( ) ");
            } else {
                a = String::from_str("unsafe { ");
                a.append(name.as_str());
                a.append(" . assume_init_read ( ) } ");
            }
        }
        params.push(p);
        args.push(a);
        assert(views(params@) =~= params_before.push(p@));
        assert(views(args@) =~= args_before.push(a@));
        i += 1;
    }
    let ret = match format_ty_for_rs(krate, &sig.output) {
        Ok(t) => t,
        Err(e) => {
            return Err(e);
        },
    };
    Ok(assemble_thunk_impl(sig, thunk_name, fully_qualified_fn_name, params, args, ret))
}

/// Puts the definition of a thunk together.
pub fn assemble_thunk_impl(
    sig: &FnSig,
    thunk_name: &str,
    callee: &str,
    params: Vec<String>,
    args: Vec<String>,
    ret: String,
) -> (r: String)
    ensures
        r@ == thunk_impl_tokens(sig@, thunk_name@, callee@, views(params@), views(args@), ret@),
{
    let mut call = String::from_str(callee);
    call.append("( ");
    call.append(join_strings(&args, ", ").as_str());
    call.append(") ");
    let body = if sig.is_unsafe {
        let mut b = String::from_str("unsafe { ");
        b.append(call.as_str());
        b.append("} ");
        b
    } else {
        call
    };
    let mut out = String::from_str("# [ no_mangle ] ");
    if sig.is_unsafe {
        out.append("unsafe ");
    } else {
        out.append("");
    }
    out.append("extern \"C\" fn ");
    out.append(make_rs_ident(thunk_name).as_str());
    out.append(" ");
    out.append(format_thunk_generics(sig).as_str());
    out.append("( ");
    if is_c_abi_compatible_by_value(&sig.output) {
        out.append(join_strings(&params, ", ").as_str());
        out.append(") -> ");
        out.append(ret.as_str());
        out.append("{ ");
        out.append(body.as_str());
        out.append("} ");
    } else {
        let mut params = params;
        let ghost before = views(params@);
        let mut slot = String::from_str("__ret_slot : & mut :: core :: mem :: MaybeUninit < ");
        slot.append(ret.as_str());
        slot.append("> ");
        params.push(slot);
        assert(views(params@) =~= before.push(slot@));
        out.append(join_strings(&params, ", ").as_str());
        out.append(") -> ");
        out.append("( ) ");
        out.append("{ ");
        let mut write = String::from_str("__ret_slot . write ( ");
        write.append(body.as_str());
        write.append(") ; ");
        out.append(write.as_str());
        out.append("} ");
    }
    out
}

} // verus!
