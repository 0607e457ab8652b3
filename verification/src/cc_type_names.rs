//! How the types of a C++ interface are spelled in the C++ code that
//! stands behind its Rust bindings.

use vstd::prelude::*;
use vstd::string::*;
use crate::cc_ident::{cc_ident, format_cc_ident, token_text, tokenize};
use crate::error::Error;
use crate::ir::{
    item_enclosing_id, item_id, record_keyword, CcType, Enum, IncompleteRecord, Item, ItemId,
    Record, TypeAlias, TypeMapOverride,
};
use crate::ir_db::IR;
use crate::ir_queries::{namespace_qualifier_of, GenericItem};
use crate::names::{cc_path_prefix, text_result_is};
use crate::text::{chars_of, decimal, str_eq};
use crate::type_map::Messages;

verus! {

/// The attribute that gives a function type its calling convention, for
/// the conventions that are bound.
pub open spec fn call_conv_attribute(rs_abi: Seq<char>) -> Result<Seq<char>, Messages> {
    if rs_abi == "cdecl"@ {
        Ok(""@)
    } else if rs_abi == "fastcall"@ {
        Ok("__attribute__ ( ( fastcall ) ) "@)
    } else if rs_abi == "stdcall"@ {
        Ok("__attribute__ ( ( stdcall ) ) "@)
    } else if rs_abi == "thiscall"@ {
        Ok("__attribute__ ( ( thiscall ) ) "@)
    } else if rs_abi == "vectorcall"@ {
        Ok("__attribute__ ( ( vectorcall ) ) "@)
    } else {
        Err(seq!["Unsupported ABI: "@ + rs_abi])
    }
}

/// Maps a Rust calling convention to the attribute of the C++ compiler.
pub fn format_cc_call_conv_as_clang_attribute(rs_abi: &str) -> (r: Result<String, Error>)
    ensures
        text_result_is(r, call_conv_attribute(rs_abi@)),
{
    if str_eq(rs_abi, "cdecl") {
        Ok(String::from_str(""))
    } else if str_eq(rs_abi, "fastcall") {
        Ok(String::from_str("__attribute__ ( ( fastcall ) ) "))
    } else if str_eq(rs_abi, "stdcall") {
        Ok(String::from_str("__attribute__ ( ( stdcall ) ) "))
    } else if str_eq(rs_abi, "thiscall") {
        Ok(String::from_str("__attribute__ ( ( thiscall ) ) "))
    } else if str_eq(rs_abi, "vectorcall") {
        Ok(String::from_str("__attribute__ ( ( vectorcall ) ) "))
    } else {
        let mut m = String::from_str("Unsupported ABI: ");
        m.append(rs_abi);
        Err(Error::msg(m))
    }
}

/// The tag before the name of a record; none for a record without a name
/// of its own that a typedef names.
pub open spec fn tag_kind(record: Record) -> Seq<char> {
    if record.is_anon_record_with_typedef {
        ""@
    } else {
        record_keyword(record.record_type) + " "@
    }
}

/// Writes the tag before the name of a record.
pub fn cc_tag_kind(record: &Record) -> (r: String)
    ensures
        r@ == tag_kind(*record),
{
    if record.is_anon_record_with_typedef {
        String::from_str("")
    } else {
        let mut s = String::from_str(record.record_type.keyword());
        s.append(" ");
        s
    }
}

/// The namespaces of the item with the given id as C++ tokens.
pub open spec fn cc_namespace_prefix(ir: IR, id: ItemId) -> Result<Seq<char>, Messages> {
    match namespace_qualifier_of(ir, id) {
        Err(e) => Err(e),
        Ok(ns) => cc_path_prefix(ns, ns.len() as int),
    }
}

/// The name of a record with its namespaces and without its tag.
pub open spec fn tagless_record_name(ir: IR, record: Record) -> Result<Seq<char>, Messages> {
    match cc_ident(record.cc_name@) {
        Err(e) => Err(e),
        Ok(ident) => match cc_namespace_prefix(ir, record.id) {
            Err(e) => Err(e),
            Ok(ns) => Ok(ns + ident + " "@),
        },
    }
}

/// The name of a record with its namespaces and its tag.
pub open spec fn record_type_name(ir: IR, record: Record) -> Result<Seq<char>, Messages> {
    match tagless_record_name(ir, record) {
        Err(e) => Err(e),
        Ok(name) => Ok(tag_kind(record) + name),
    }
}

/// The namespaces and classes through which an item is reached: for
/// `namespace x { struct Y { using X = int; }; }`, that of `X` is
/// `x :: Y ::`.
pub open spec fn qualified_path_prefix(ir: IR, item: Item) -> Result<Seq<char>, Messages> {
    match item_enclosing_id(item) {
        None => Ok(""@),
        Some(parent) => match ir.item_with(parent) {
            None => Err(
                seq!["DeclId "@ + decimal(parent.0 as nat) + " doesn't refer to a "@ + "Item"@],
            ),
            Some(Item::Namespace(_)) => cc_namespace_prefix(ir, item_id(item)),
            Some(Item::Record(r)) => match tagless_record_name(ir, r) {
                Err(e) => Err(e),
                Ok(name) => Ok(name + ":: "@),
            },
            Some(_) => Err(seq!["Unexpected enclosing item"@]),
        },
    }
}

/// The name in C++ of the type that an item defines, or why the item has
/// none.
pub open spec fn item_type_name(ir: IR, item: Item) -> Result<Seq<char>, Messages> {
    match item {
        Item::IncompleteRecord(r) => match cc_ident(r.cc_name@) {
            Err(e) => Err(e),
            Ok(ident) => match cc_namespace_prefix(ir, r.id) {
                Err(e) => Err(e),
                Ok(ns) => Ok(record_keyword(r.record_type) + " "@ + ns + ident + " "@),
            },
        },
        Item::Record(r) => record_type_name(ir, r),
        Item::Enum(e) => match cc_ident(e.identifier.identifier@) {
            Err(x) => Err(x),
            Ok(ident) => match qualified_path_prefix(ir, item) {
                Err(x) => Err(x),
                Ok(q) => Ok(q + ident + " "@),
            },
        },
        Item::TypeAlias(a) => match cc_ident(a.identifier.identifier@) {
            Err(x) => Err(x),
            Ok(ident) => match qualified_path_prefix(ir, item) {
                Err(x) => Err(x),
                Ok(q) => Ok(q + ident + " "@),
            },
        },
        Item::TypeMapOverride(o) => match token_text(o.cc_name@) {
            Some(t) => Ok(t + " "@),
            None => Err(seq!["malformed type name: "@ + o.cc_name@]),
        },
        _ => Err(seq!["Item does not define a type"@]),
    }
}

/// Writes the namespaces of an item as C++ tokens.
fn format_cc_namespace_prefix<T: GenericItem>(ir: &IR, item: &T) -> (r: Result<String, Error>)
    ensures
        text_result_is(r, cc_namespace_prefix(*ir, item_id(item.as_item()))),
{
    match ir.namespace_qualifier(item) {
        Err(e) => Err(e),
        Ok(ns) => ns.format_for_cc(),
    }
}

/// Writes the name of a record with its namespaces and without its tag.
pub fn cc_tagless_type_name_for_record(record: &Record, ir: &IR) -> (r: Result<String, Error>)
    ensures
        text_result_is(r, tagless_record_name(*ir, *record)),
{
    let ident = match format_cc_ident(record.cc_name.as_str()) {
        Ok(i) => i,
        Err(e) => {
            return Err(e);
        },
    };
    let mut out = match format_cc_namespace_prefix(ir, record) {
        Ok(ns) => ns,
        Err(e) => {
            return Err(e);
        },
    };
    out.append(ident.as_str());
    out.append(" ");
    Ok(out)
}

/// Writes the name of a record with its namespaces and its tag.
pub fn cc_type_name_for_record(record: &Record, ir: &IR) -> (r: Result<String, Error>)
    ensures
        text_result_is(r, record_type_name(*ir, *record)),
{
    match cc_tagless_type_name_for_record(record, ir) {
        Err(e) => Err(e),
        Ok(tagless) => {
            let mut out = cc_tag_kind(record);
            out.append(tagless.as_str());
            Ok(out)
        },
    }
}

/// Writes the namespaces and classes through which an item is reached.
pub fn cc_qualified_path_prefix(item: &Item, ir: &IR) -> (r: Result<String, Error>)
    ensures
        text_result_is(r, qualified_path_prefix(*ir, *item)),
{
    let parent = match item.enclosing_item_id() {
        None => {
            return Ok(String::from_str(""));
        },
        Some(p) => p,
    };
    match ir.find_decl(parent) {
        Err(e) => Err(e),
        Ok(Item::Namespace(_)) => format_cc_namespace_prefix(ir, item),
        Ok(Item::Record(r)) => match cc_tagless_type_name_for_record(r, ir) {
            Err(e) => Err(e),
            Ok(mut name) => {
                name.append(":: ");
                Ok(name)
            },
        },
        Ok(_) => Err(Error::new("Unexpected enclosing item")),
    }
}

/// Decides the name of a type that stands for a type of Rust, from what
/// the tokenizer made of the name it was given.
pub fn type_map_override_name(cc_name: &str, tokens: Option<String>) -> (r: Result<String, Error>)
    ensures
        match tokens {
            Some(t) => r matches Ok(s) && s@ == t@ + " "@,
            None => r matches Err(e) && e@ == seq!["malformed type name: "@ + cc_name@],
        },
{
    match tokens {
        Some(mut t) => {
            t.append(" ");
            Ok(t)
        },
        None => {
            let mut m = String::from_str("malformed type name: ");
            m.append(cc_name);
            Err(Error::msg(m))
        },
    }
}

/// Writes the name in C++ of the type that an item defines.
pub fn cc_type_name_for_item(item: &Item, ir: &IR) -> (r: Result<String, Error>)
    ensures
        text_result_is(r, item_type_name(*ir, *item)),
{
    match item {
        Item::IncompleteRecord(incomplete_record) => {
            let ident = match format_cc_ident(incomplete_record.cc_name.as_str()) {
                Ok(i) => i,
                Err(e) => {
                    return Err(e);
                },
            };
            let ns = match format_cc_namespace_prefix(ir, incomplete_record) {
                Ok(n) => n,
                Err(e) => {
                    return Err(e);
                },
            };
            let mut out = String::from_str(incomplete_record.record_type.keyword());
            out.append(" ");
            out.append(ns.as_str());
            out.append(ident.as_str());
            out.append(" ");
            Ok(out)
        },
        Item::Record(record) => cc_type_name_for_record(record, ir),
        Item::Enum(enum_) => {
            let ident = match format_cc_ident(enum_.identifier.identifier.as_str()) {
                Ok(i) => i,
                Err(e) => {
                    return Err(e);
                },
            };
            match cc_qualified_path_prefix(item, ir) {
                Err(e) => Err(e),
                Ok(mut q) => {
                    q.append(ident.as_str());
                    q.append(" ");
                    Ok(q)
                },
            }
        },
        Item::TypeAlias(type_alias) => {
            let ident = match format_cc_ident(type_alias.identifier.identifier.as_str()) {
                Ok(i) => i,
                Err(e) => {
                    return Err(e);
                },
            };
            match cc_qualified_path_prefix(item, ir) {
                Err(e) => Err(e),
                Ok(mut q) => {
                    q.append(ident.as_str());
                    q.append(" ");
                    Ok(q)
                },
            }
        },
        Item::TypeMapOverride(type_map_override) => type_map_override_name(
            type_map_override.cc_name.as_str(),
            tokenize(type_map_override.cc_name.as_str()),
        ),
        _ => Err(Error::new("Item does not define a type")),
    }
}

/// Whether a text starts with another.
pub open spec fn has_prefix(s: Seq<char>, prefix: Seq<char>) -> bool {
    prefix.len() <= s.len() && s.subrange(0, prefix.len() as int) == prefix
}

/// What follows `prefix` in `s`, where `s` starts with it.
pub fn strip_prefix<'a>(s: &'a str, prefix: &str) -> (r: Option<&'a str>)
    ensures
        match r {
            Some(rest) => has_prefix(s@, prefix@) && rest@ == s@.subrange(
                prefix@.len() as int,
                s@.len() as int,
            ),
            None => !has_prefix(s@, prefix@),
        },
{
    let a = chars_of(s);
    let b = chars_of(prefix);
    if b.len() > a.len() {
        return None;
    }
    let mut i: usize = 0;
    while i < b.len()
        invariant
            i <= b.len(),
            b.len() <= a.len(),
            a@ == s@,
            b@ == prefix@,
            a@.subrange(0, i as int) == b@.subrange(0, i as int),
        decreases b.len() - i,
    {
        if a[i] != b[i] {
            assert(s@.subrange(0, prefix@.len() as int)[i as int] != prefix@[i as int]);
            return None;
        }
        assert(a@.subrange(0, i + 1) =~= a@.subrange(0, i as int).push(a@[i as int]));
        assert(b@.subrange(0, i + 1) =~= b@.subrange(0, i as int).push(b@[i as int]));
        i += 1;
    }
    assert(b@.subrange(0, b.len() as int) =~= b@);
    Some(s.substring_char(b.len(), a.len()))
}

/// The tokens of the first `n` types of a list, each spelled with
/// references kept, with commas between them.
pub open spec fn cc_type_list(ir: IR, types: Seq<CcType>, n: int) -> Result<Seq<char>, Messages>
    decreases types, n,
{
    if n <= 0 || n > types.len() {
        Ok(Seq::empty())
    } else {
        match cc_type_list(ir, types, n - 1) {
            Err(e) => Err(e),
            Ok(before) => match cc_type_inner(ir, types[n - 1], true) {
                Err(e) => Err(e),
                Ok(t) => if n == 1 {
                    Ok(t)
                } else {
                    Ok(before + ", "@ + t)
                },
            },
        }
    }
}

/// How a type is spelled in C++. A type with a name is a pointer, a
/// reference, a function or a type that the name says all of; a type
/// without a name is the type that an item defines. Where references are
/// not wanted, they are spelled as pointers, which are the same to the
/// calling convention.
pub open spec fn cc_type_inner(ir: IR, ty: CcType, references_ok: bool) -> Result<
    Seq<char>,
    Messages,
>
    decreases ty, 0int,
{
    let const_fragment = if ty.is_const {
        "const "@
    } else {
        ""@
    };
    match ty.name {
        Some(name) => if name@ == "*"@ || name@ == "&"@ || name@ == "&&"@ {
            if ty.type_args@.len() != 1 {
                Err(seq!["Invalid pointer type (need exactly 1 type argument): "@ + name@])
            } else {
                match cc_type_inner(ir, ty.type_args@[0], references_ok) {
                    Err(e) => Err(e),
                    Ok(nested) => Ok(
                        nested + (if !references_ok || name@ == "*"@ {
                            "* "@
                        } else if name@ == "&"@ {
                            "& "@
                        } else {
                            "&& "@
                        }) + const_fragment,
                    ),
                }
            }
        } else if has_prefix(name@, "#funcValue "@) {
            if ty.type_args@.len() == 0 {
                Err(seq!["funcValue type without a return type: "@ + name@])
            } else {
                match cc_type_inner(ir, ty.type_args@[ty.type_args@.len() - 1], true) {
                    Err(e) => Err(e),
                    Ok(ret) => match cc_type_list(ir, ty.type_args@, ty.type_args@.len() - 1) {
                        Err(e) => Err(e),
                        Ok(params) => match call_conv_attribute(
                            name@.subrange("#funcValue "@.len() as int, name@.len() as int),
                        ) {
                            Err(e) => Err(e),
                            Ok(attr) => Ok(
                                "crubit :: type_identity_t < "@ + ret + "( "@ + params + ") "@
                                    + attr + "> "@,
                            ),
                        },
                    },
                }
            }
        } else if ty.type_args@.len() != 0 {
            Err(seq!["Type not yet supported: "@ + name@])
        } else {
            match token_text(name@) {
                None => Err(seq!["malformed type name: "@ + name@]),
                Some(t) => Ok(t + " "@ + const_fragment),
            }
        },
        None => match ty.decl_id {
            None => Err(seq!["Type does not have an associated item."@]),
            Some(id) => match ir.item_with(id) {
                None => Err(
                    seq!["DeclId "@ + decimal(id.0 as nat) + " doesn't refer to a "@ + "Item"@],
                ),
                Some(item) => match item_type_name(ir, item) {
                    Err(e) => Err(e),
                    Ok(name) => Ok(const_fragment + name),
                },
            },
        },
    }
}

/// Spells a type for C++, with references as pointers: the two are the
/// same to the calling convention, and a function with C linkage should
/// not return a reference.
pub fn format_cc_type(ty: &CcType, ir: &IR) -> (r: Result<String, Error>)
    ensures
        text_result_is(r, cc_type_inner(*ir, *ty, false)),
{
    format_cc_type_inner(ty, ir, false)
}

/// Spells the first `n` types of a list, with references kept.
pub fn format_cc_type_list(types: &Vec<CcType>, n: usize, ir: &IR) -> (r: Result<String, Error>)
    requires
        n <= types@.len(),
    ensures
        text_result_is(r, cc_type_list(*ir, types@, n as int)),
    decreases types, n,
{
    if n == 0 {
        let s = String::new();
        assert(s@ =~= Seq::<char>::empty());
        return Ok(s);
    }
    let mut before = match format_cc_type_list(types, n - 1, ir) {
        Ok(b) => b,
        Err(e) => {
            return Err(e);
        },
    };
    proof {
        vstd::std_specs::vec::axiom_vec_index_decreases(*types, n - 1);
    }
    match format_cc_type_inner(&types[n - 1], ir, true) {
        Err(e) => Err(e),
        Ok(t) => {
            if n == 1 {
                Ok(t)
            } else {
                before.append(", ");
                before.append(t.as_str());
                Ok(before)
            }
        },
    }
}

/// Spells a type for C++.
pub fn format_cc_type_inner(ty: &CcType, ir: &IR, references_ok: bool) -> (r: Result<
    String,
    Error,
>)
    ensures
        text_result_is(r, cc_type_inner(*ir, *ty, references_ok)),
    decreases ty, 0int,
{
    let const_fragment = if ty.is_const {
        "const "
    } else {
        ""
    };
    match &ty.name {
        Some(name) => {
            let n = name.as_str();
            let is_ptr = str_eq(n, "*");
            let is_ref = str_eq(n, "&");
            let is_rvalue = str_eq(n, "&&");
            if is_ptr || is_ref || is_rvalue {
                if ty.type_args.len() != 1 {
                    let mut m = String::from_str(
                        "Invalid pointer type (need exactly 1 type argument): ",
                    );
                    m.append(n);
                    return Err(Error::msg(m));
                }
                proof {
                    vstd::std_specs::vec::axiom_vec_index_decreases(ty.type_args, 0);
                }
                let mut nested = match format_cc_type_inner(&ty.type_args[0], ir, references_ok) {
                    Ok(t) => t,
                    Err(e) => {
                        return Err(e);
                    },
                };
                if !references_ok || is_ptr {
                    nested.append("* ");
                } else if is_ref {
                    nested.append("& ");
                } else {
                    nested.append("&& ");
                }
                nested.append(const_fragment);
                return Ok(nested);
            }
            match strip_prefix(n, "#funcValue ") {
                Some(abi) => {
                    let len = ty.type_args.len();
                    if len == 0 {
                        let mut m = String::from_str("funcValue type without a return type: ");
                        m.append(n);
                        return Err(Error::msg(m));
                    }
                    proof {
                        vstd::std_specs::vec::axiom_vec_index_decreases(ty.type_args, len - 1);
                    }
                    let ret = match format_cc_type_inner(&ty.type_args[len - 1], ir, true) {
                        Ok(t) => t,
                        Err(e) => {
                            return Err(e);
                        },
                    };
                    let params = match format_cc_type_list(&ty.type_args, len - 1, ir) {
                        Ok(p) => p,
                        Err(e) => {
                            return Err(e);
                        },
                    };
                    let attr = match format_cc_call_conv_as_clang_attribute(abi) {
                        Ok(a) => a,
                        Err(e) => {
                            return Err(e);
                        },
                    };
                    let mut out = String::from_str("crubit :: type_identity_t < ");
                    out.append(ret.as_str());
                    out.append("( ");
                    out.append(params.as_str());
                    out.append(") ");
                    out.append(attr.as_str());
                    out.append("> ");
                    Ok(out)
                },
                None => {
                    if ty.type_args.len() != 0 {
                        let mut m = String::from_str("Type not yet supported: ");
                        m.append(n);
                        return Err(Error::msg(m));
                    }
                    plain_type_name(n, tokenize(n), const_fragment)
                },
            }
        },
        None => {
            let id = match ty.decl_id {
                Some(id) => id,
                None => {
                    return Err(Error::new("Type does not have an associated item."));
                },
            };
            let item = match ir.find_decl(id) {
                Ok(i) => i,
                Err(e) => {
                    return Err(e);
                },
            };
            match cc_type_name_for_item(item, ir) {
                Err(e) => Err(e),
                Ok(name) => {
                    let mut out = String::from_str(const_fragment);
                    out.append(name.as_str());
                    Ok(out)
                },
            }
        },
    }
}

/// Decides the spelling of a type that its name says all of, from what
/// the tokenizer made of the name.
pub fn plain_type_name(name: &str, tokens: Option<String>, const_fragment: &str) -> (r: Result<
    String,
    Error,
>)
    ensures
        match tokens {
            Some(t) => r matches Ok(s) && s@ == t@ + " "@ + const_fragment@,
            None => r matches Err(e) && e@ == seq!["malformed type name: "@ + name@],
        },
{
    match tokens {
        Some(mut t) => {
            t.append(" ");
            t.append(const_fragment);
            Ok(t)
        },
        None => {
            let mut m = String::from_str("malformed type name: ");
            m.append(name);
            Err(Error::msg(m))
        },
    }
}

} // verus!
