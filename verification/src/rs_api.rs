//! The Rust bindings of a C++ interface: what is written for an enum, an
//! alias, a namespace, a comment and an item without bindings, and how the
//! pieces of all items make the two documents. The bindings of functions
//! and records are made elsewhere and handed in.

use vstd::prelude::*;
use vstd::string::*;
use crate::cc_ident::{make_rs_ident, rs_ident, string_literal, string_literal_text};
use crate::error::Error;
use crate::ir::{
    Comment, Enum, Enumerator, FormattedError, HeaderName, IntegerConstant, SizeAlign, TypeAlias,
    TypeMapOverride, UnsupportedItem, UseMod,
};
use crate::ir_db::IR;
use crate::ir_queries::records_in;
use crate::prereqs::{includes_tokens, sorted_keys, CcInclude, IncludeKey, IncludeSet};
use crate::text::{decimal, join, join_strings, push_decimal, replace_all, replace_text, views};
use crate::thunks::{comment_tokens, format_comment};
use crate::type_map::{in_context, Messages};

verus! {

/// The pieces that binding one item yields.
#[derive(Debug)]
pub struct GeneratedItem {
    /// The Rust item itself.
    pub item: String,
    /// The declarations of the thunks that the item calls.
    pub thunks: String,
    /// The C++ code of those thunks.
    pub thunk_impls: String,
    /// The assertions on the layout of the item.
    pub assertions: String,
    /// The features of the Rust compiler that the item needs, in
    /// dictionary order and once each.
    pub features: Vec<String>,
}

/// The values of a `GeneratedItem`.
pub struct GeneratedView {
    pub item: Seq<char>,
    pub thunks: Seq<char>,
    pub thunk_impls: Seq<char>,
    pub assertions: Seq<char>,
    pub features: Seq<Seq<char>>,
}

impl View for GeneratedItem {
    type V = GeneratedView;

    open spec fn view(&self) -> GeneratedView {
        GeneratedView {
            item: self.item@,
            thunks: self.thunks@,
            thunk_impls: self.thunk_impls@,
            assertions: self.assertions@,
            features: views(self.features@),
        }
    }
}

impl GeneratedView {
    /// Nothing at all.
    pub open spec fn empty() -> GeneratedView {
        GeneratedView {
            item: Seq::empty(),
            thunks: Seq::empty(),
            thunk_impls: Seq::empty(),
            assertions: Seq::empty(),
            features: Seq::empty(),
        }
    }

    /// An item and nothing else.
    pub open spec fn of_item(item: Seq<char>) -> GeneratedView {
        GeneratedView { item, ..GeneratedView::empty() }
    }
}

impl GeneratedItem {
    /// Nothing at all.
    pub fn empty() -> (r: GeneratedItem)
        ensures
            r@ == GeneratedView::empty(),
    {
        let r = GeneratedItem {
            item: String::new(),
            thunks: String::new(),
            thunk_impls: String::new(),
            assertions: String::new(),
            features: Vec::new(),
        };
        assert(r@.features =~= Seq::<Seq<char>>::empty());
        r
    }

    /// An item and nothing else.
    pub fn of_item(item: String) -> (r: GeneratedItem)
        ensures
            r@ == GeneratedView::of_item(item@),
    {
        let r = GeneratedItem {
            item,
            thunks: String::new(),
            thunk_impls: String::new(),
            assertions: String::new(),
            features: Vec::new(),
        };
        assert(r@.features =~= Seq::<Seq<char>>::empty());
        r
    }

    /// A copy of the pieces.
    pub fn copy(&self) -> (r: GeneratedItem)
        ensures
            r@ == self@,
    {
        let mut features: Vec<String> = Vec::new();
        let mut i: usize = 0;
        while i < self.features.len()
            invariant
                i <= self.features.len(),
                views(features@) == views(self.features@).take(i as int),
            decreases self.features.len() - i,
        {
            let ghost before = views(features@);
            let c = self.features[i].clone();
            features.push(c);
            assert(views(features@) =~= before.push(c@));
            assert(views(features@) =~= views(self.features@).take(i + 1));
            i += 1;
        }
        assert(views(self.features@).take(self.features.len() as int) =~= views(self.features@));
        GeneratedItem {
            item: self.item.clone(),
            thunks: self.thunks.clone(),
            thunk_impls: self.thunk_impls.clone(),
            assertions: self.assertions.clone(),
            features,
        }
    }
}

/// The text of a doc comment: the comment, then where the item is
/// declared, with an empty line between the two; each line starts with a
/// space, so that the comment reads well behind `///`.
pub open spec fn doc_text(comment: Option<Seq<char>>, source_loc: Option<Seq<char>>) -> Seq<char> {
    let c = match comment {
        Some(c) => c,
        None => ""@,
    };
    let l = match source_loc {
        Some(l) => l,
        None => ""@,
    };
    let sep = if comment is Some && source_loc is Some {
        "\n\n"@
    } else {
        ""@
    };
    replace_all(" "@ + c + sep + l, "\n"@, "\n "@)
}

/// The doc comment of an item; nothing for an item without a comment and
/// without a place.
pub open spec fn doc_comment_attr(
    comment: Option<Seq<char>>,
    source_loc: Option<Seq<char>>,
    with_source_loc: bool,
) -> Seq<char> {
    let loc = if with_source_loc {
        source_loc
    } else {
        None
    };
    if comment is None && loc is None {
        ""@
    } else {
        "# [ doc = "@ + string_literal_text(doc_text(comment, loc)) + " ] "@
    }
}

/// Writes the doc comment of an item.
pub fn generate_doc_comment(
    comment: Option<&str>,
    source_loc: Option<&str>,
    generate_source_loc_doc_comment: bool,
) -> (r: String)
    ensures
        r@ == doc_comment_attr(
            match comment {
                Some(c) => Some(c@),
                None => None,
            },
            match source_loc {
                Some(l) => Some(l@),
                None => None,
            },
            generate_source_loc_doc_comment,
        ),
{
    let source_loc = if generate_source_loc_doc_comment {
        source_loc
    } else {
        None
    };
    let (comment, sep, source_loc) = match (comment, source_loc) {
        (None, None) => {
            return String::from_str("");
        },
        (None, Some(source_loc)) => ("", "", source_loc),
        (Some(comment), Some(source_loc)) => (comment, "\n\n", source_loc),
        (Some(comment), None) => (comment, "", ""),
    };
    let mut text = String::from_str(" ");
    text.append(comment);
    text.append(sep);
    text.append(source_loc);
    proof {
        reveal_strlit("\n");
    }
    let doc_comment = replace_text(text.as_str(), "\n", "\n ");
    let mut r = String::from_str("# [ doc = ");
    r.append(string_literal(doc_comment.as_str()).as_str());
    r.append(" ] ");
    r
}

/// The text that stands in Rust where an item has no bindings: where the
/// item is declared, its name, and the reasons.
pub open spec fn unsupported_text(
    source_loc: Option<Seq<char>>,
    name: Seq<char>,
    messages: Seq<Seq<char>>,
    with_source_loc: bool,
) -> Seq<char> {
    let loc = match source_loc {
        Some(l) => if with_source_loc {
            l
        } else {
            ""@
        },
        None => ""@,
    };
    loc + (if loc.len() == 0 {
        ""@
    } else {
        "\n"@
    }) + "Error while generating bindings for item '"@ + name + "':\n"@ + join(messages, "\n\n"@)
}

/// The text that stands in Rust where an item has no bindings.
pub open spec fn unsupported_message(item: UnsupportedItem, with_source_loc: bool) -> Seq<char> {
    unsupported_text(
        crate::text::opt_view(item.source_loc),
        item.name@,
        item.errors@.map_values(|e: FormattedError| e.message@),
        with_source_loc,
    )
}

/// Writes the comment that stands in Rust where an item has no bindings.
pub fn generate_unsupported(item: &UnsupportedItem, generate_source_loc_doc_comment: bool) -> (r:
    GeneratedItem)
    ensures
        r@ == GeneratedView::of_item(
            comment_tokens(unsupported_message(*item, generate_source_loc_doc_comment)),
        ),
{
    let mut message = match &item.source_loc {
        Some(loc) => if generate_source_loc_doc_comment {
            loc.clone()
        } else {
            String::from_str("")
        },
        None => String::from_str(""),
    };
    if message.as_str().unicode_len() == 0 {
        message.append("");
    } else {
        message.append("\n");
    }
    message.append("Error while generating bindings for item '");
    message.append(item.name.as_str());
    message.append("':\n");
    let ghost spec_errors = item.errors@.map_values(|e: FormattedError| e.message@);
    let mut texts: Vec<String> = Vec::new();
    let mut i: usize = 0;
    while i < item.errors.len()
        invariant
            i <= item.errors.len(),
            spec_errors == item.errors@.map_values(|e: FormattedError| e.message@),
            views(texts@) == spec_errors.take(i as int),
        decreases item.errors.len() - i,
    {
        let ghost before = views(texts@);
        let m = item.errors[i].message.clone();
        texts.push(m);
        assert(views(texts@) =~= before.push(m@));
        assert(views(texts@) =~= spec_errors.take(i + 1));
        i += 1;
    }
    assert(spec_errors.take(item.errors.len() as int) =~= spec_errors);
    message.append(join_strings(&texts, "\n\n").as_str());
    GeneratedItem::of_item(format_comment(message.as_str()))
}

/// Writes a comment of the C++ source into Rust.
pub fn generate_comment(comment: &Comment) -> (r: GeneratedItem)
    ensures
        r@ == GeneratedView::of_item(comment_tokens(comment.text@)),
{
    GeneratedItem::of_item(format_comment(comment.text.as_str()))
}

/// The value of a constant as a number with a sign: the bits of the
/// value read as a signed number of 64 bits.
pub open spec fn as_signed(value: u64) -> int {
    if value >= 0x8000_0000_0000_0000 {
        value - 0x1_0000_0000_0000_0000
    } else {
        value as int
    }
}

/// The value of an enumerator as Rust writes it.
pub open spec fn enumerator_value(value: IntegerConstant, is_bool: bool) -> Seq<char> {
    if is_bool {
        if value.wrapped_value == 0 {
            "false "@
        } else {
            "true "@
        }
    } else if value.is_negative && as_signed(value.wrapped_value) < 0 {
        "-"@ + decimal((-as_signed(value.wrapped_value)) as nat) + " "@
    } else {
        decimal(value.wrapped_value as nat) + " "@
    }
}

/// Writes the value of an enumerator.
pub fn format_enumerator_value(value: &IntegerConstant, is_bool: bool) -> (r: String)
    ensures
        r@ == enumerator_value(*value, is_bool),
{
    if is_bool {
        if value.wrapped_value == 0 {
            String::from_str("false ")
        } else {
            String::from_str("true ")
        }
    } else if value.is_negative && value.wrapped_value >= 0x8000_0000_0000_0000 {
        let magnitude: u64 = (u64::MAX - value.wrapped_value) + 1;
        let mut s = String::from_str("-");
        push_decimal(&mut s, magnitude);
        s.append(" ");
        s
    } else {
        let mut s = String::new();
        push_decimal(&mut s, value.wrapped_value);
        assert(s@ =~= decimal(value.wrapped_value as nat));
        s.append(" ");
        s
    }
}

/// One enumerator as a constant of the struct that stands for the enum; a
/// comment for an enumerator with attributes that are not understood.
pub open spec fn enumerator_tokens(name: Seq<char>, e: Enumerator, is_bool: bool) -> Seq<char> {
    match e.unknown_attr {
        Some(attr) => comment_tokens(
            "Omitting bindings for "@ + e.identifier.identifier@
                + "\nreason: unknown attribute(s): "@ + attr@,
        ),
        None => "pub const "@ + rs_ident(e.identifier.identifier@) + " : "@ + name + " = "@ + name
            + " ( "@ + enumerator_value(e.value, is_bool) + ") ; "@,
    }
}

/// The first `n` enumerators.
pub open spec fn enumerators_tokens(name: Seq<char>, es: Seq<Enumerator>, is_bool: bool, n: int) -> Seq<
    char,
>
    decreases n,
{
    if n <= 0 || n > es.len() {
        Seq::empty()
    } else {
        enumerators_tokens(name, es, is_bool, n - 1) + enumerator_tokens(name, es[n - 1], is_bool)
    }
}

/// An enum as a struct around its underlying type, with a constant for
/// each enumerator and the conversions from and to the underlying type.
pub open spec fn enum_tokens(name: Seq<char>, underlying: Seq<char>, enumerators: Seq<char>) -> Seq<
    char,
> {
    "# [ repr ( transparent ) ] # [ derive ( Debug , PartialEq , Eq , Copy , Clone , Hash , PartialOrd , Ord ) ] pub struct "@
        + name + " ( "@ + underlying + ") ; impl "@ + name + " { "@ + enumerators
        + "} impl From < "@ + underlying + "> for "@ + name + " { fn from ( value : "@ + underlying
        + ") -> "@ + name + " { "@ + name + " ( value ) } } impl From < "@ + name + " > for "@
        + underlying + "{ fn from ( value : "@ + name + " ) -> "@ + underlying + "{ value . 0 } } "@
}

/// How a type is spelled in Rust, and whether it is `bool`.
#[derive(Debug)]
pub struct TypeTokens {
    pub tokens: String,
    pub is_bool: bool,
}

/// The binding of an enum. An enum that is only declared has none, and
/// leaves a comment in its place.
pub open spec fn enum_binding(
    enum_: Enum,
    underlying: Seq<char>,
    is_bool: bool,
    with_source_loc: bool,
) -> GeneratedView {
    let name = rs_ident(enum_.identifier.identifier@);
    match enum_.enumerators {
        None => GeneratedView::of_item(
            comment_tokens(
                unsupported_text(
                    Some(enum_.source_loc@),
                    enum_.identifier.identifier@,
                    seq!["b/322391132: Forward-declared (opaque) enums are not supported yet"@],
                    with_source_loc,
                ),
            ),
        ),
        Some(es) => GeneratedView::of_item(
            enum_tokens(
                name,
                underlying,
                enumerators_tokens(name, es@, is_bool, es@.len() as int),
            ),
        ),
    }
}

/// Binds an enum, given the spelling of its underlying type.
pub fn generate_enum(enum_: &Enum, underlying_type: &TypeTokens, generate_source_loc_doc_comment: bool) -> (r:
    GeneratedItem)
    ensures
        r@ == enum_binding(
            *enum_,
            underlying_type.tokens@,
            underlying_type.is_bool,
            generate_source_loc_doc_comment,
        ),
{
    let name = make_rs_ident(enum_.identifier.identifier.as_str());
    let enumerators = match &enum_.enumerators {
        Some(es) => es,
        None => {
            let mut errors: Vec<FormattedError> = Vec::new();
            errors.push(
                FormattedError {
                    fmt: String::from_str("{}"),
                    message: String::from_str(
                        "b/322391132: Forward-declared (opaque) enums are not supported yet",
                    ),
                },
            );
            let unsupported = UnsupportedItem {
                name: enum_.identifier.identifier.clone(),
                errors,
                source_loc: Some(enum_.source_loc.clone()),
                id: enum_.id,
            };
            assert(unsupported.errors@.map_values(|e: FormattedError| e.message@) =~= seq![
                "b/322391132: Forward-declared (opaque) enums are not supported yet"@,
            ]);
            return generate_unsupported(&unsupported, generate_source_loc_doc_comment);
        },
    };
    let mut body = String::new();
    assert(body@ =~= Seq::<char>::empty());
    let mut i: usize = 0;
    while i < enumerators.len()
        invariant
            i <= enumerators.len(),
            body@ == enumerators_tokens(name@, enumerators@, underlying_type.is_bool, i as int),
        decreases enumerators.len() - i,
    {
        let e = &enumerators[i];
        match &e.unknown_attr {
            Some(attr) => {
                let mut c = String::from_str("Omitting bindings for ");
                c.append(e.identifier.identifier.as_str());
                c.append("\nreason: unknown attribute(s): ");
                c.append(attr.as_str());
                body.append(format_comment(c.as_str()).as_str());
            },
            None => {
                let mut t = String::from_str("pub const ");
                t.append(make_rs_ident(e.identifier.identifier.as_str()).as_str());
                t.append(" : ");
                t.append(name.as_str());
                t.append(" = ");
                t.append(name.as_str());
                t.append(" ( ");
                t.append(format_enumerator_value(&e.value, underlying_type.is_bool).as_str());
                t.append(") ; ");
                body.append(t.as_str());
            },
        }
        i += 1;
    }
    let u = underlying_type.tokens.as_str();
    let n = name.as_str();
    let mut item = String::from_str(
        "# [ repr ( transparent ) ] # [ derive ( Debug , PartialEq , Eq , Copy , Clone , Hash , PartialOrd , Ord ) ] pub struct ",
    );
    item.append(n);
    item.append(" ( ");
    item.append(u);
    item.append(") ; impl ");
    item.append(n);
    item.append(" { ");
    item.append(body.as_str());
    item.append("} impl From < ");
    item.append(u);
    item.append("> for ");
    item.append(n);
    item.append(" { fn from ( value : ");
    item.append(u);
    item.append(") -> ");
    item.append(n);
    item.append(" { ");
    item.append(n);
    item.append(" ( value ) } } impl From < ");
    item.append(n);
    item.append(" > for ");
    item.append(u);
    item.append("{ fn from ( value : ");
    item.append(n);
    item.append(" ) -> ");
    item.append(u);
    item.append("{ value . 0 } } ");
    GeneratedItem::of_item(item)
}

/// The binding of an alias, given the spelling of its type or why the
/// type has none.
pub open spec fn type_alias_binding(
    alias: TypeAlias,
    underlying: Result<Seq<char>, Messages>,
    with_source_loc: bool,
) -> Result<GeneratedView, Messages> {
    match in_context(
        "Failed to format underlying type for "@ + alias.identifier.identifier@ + " ("@
            + alias.owning_target.0@ + ", "@ + alias.source_loc@ + ")"@,
        underlying,
    ) {
        Err(e) => Err(e),
        Ok(u) => Ok(
            GeneratedView::of_item(
                doc_comment_attr(
                    crate::text::opt_view(alias.doc_comment),
                    Some(alias.source_loc@),
                    with_source_loc,
                ) + "pub type "@ + rs_ident(alias.identifier.identifier@) + " = "@ + u + "; "@,
            ),
        ),
    }
}

/// Binds an alias, given the spelling of its type.
pub fn generate_type_alias(
    type_alias: &TypeAlias,
    underlying_type: Result<&TypeTokens, Error>,
    generate_source_loc_doc_comment: bool,
) -> (r: Result<GeneratedItem, Error>)
    ensures
        match type_alias_binding(
            *type_alias,
            match underlying_type {
                Ok(t) => Ok(t.tokens@),
                Err(e) => Err(e@),
            },
            generate_source_loc_doc_comment,
        ) {
            Ok(v) => r matches Ok(g) && g@ == v,
            Err(e) => r matches Err(x) && x@ == e,
        },
{
    let ident = make_rs_ident(type_alias.identifier.identifier.as_str());
    let comment: Option<&str> = match &type_alias.doc_comment {
        Some(c) => Some(c.as_str()),
        None => None,
    };
    let doc_comment = generate_doc_comment(
        comment,
        Some(type_alias.source_loc.as_str()),
        generate_source_loc_doc_comment,
    );
    match underlying_type {
        Err(e) => {
            let mut c = String::from_str("Failed to format underlying type for ");
            c.append(type_alias.identifier.identifier.as_str());
            c.append(" (");
            c.append(type_alias.owning_target.0.as_str());
            c.append(", ");
            c.append(type_alias.source_loc.as_str());
            c.append(")");
            Err(e.context(c))
        },
        Ok(u) => {
            let mut item = doc_comment;
            item.append("pub type ");
            item.append(ident.as_str());
            item.append(" = ");
            item.append(u.tokens.as_str());
            item.append("; ");
            Ok(GeneratedItem::of_item(item))
        },
    }
}

/// The import of a module that holds bindings written by hand.
pub open spec fn use_mod_tokens(u: UseMod) -> Seq<char> {
    "# [ path = "@ + string_literal_text(u.path@) + " ] mod "@ + rs_ident(u.mod_name.identifier@)
        + " ; __HASH_TOKEN__ [ allow ( unused_imports ) ] pub use "@ + rs_ident(
        u.mod_name.identifier@,
    ) + " :: * ; "@
}

/// Writes the import of a module that holds bindings written by hand.
pub fn generate_use_mod(u: &UseMod) -> (r: GeneratedItem)
    ensures
        r@ == GeneratedView::of_item(use_mod_tokens(*u)),
{
    let name = make_rs_ident(u.mod_name.identifier.as_str());
    let mut item = String::from_str("# [ path = ");
    item.append(string_literal(u.path.as_str()).as_str());
    item.append(" ] mod ");
    item.append(name.as_str());
    item.append(" ; __HASH_TOKEN__ [ allow ( unused_imports ) ] pub use ");
    item.append(name.as_str());
    item.append(" :: * ; ");
    GeneratedItem::of_item(item)
}

/// The assertions that a Rust type has the size and the alignment of the
/// C++ type that it stands for.
pub open spec fn size_align_assertions(rs_type: Seq<char>, size_align: SizeAlign) -> Seq<char> {
    "const _ : ( ) = assert ! ( :: core :: mem :: size_of :: < "@ + rs_type + " > ( ) == "@
        + decimal(size_align.size as nat)
        + " ) ; const _ : ( ) = assert ! ( :: core :: mem :: align_of :: < "@ + rs_type
        + " > ( ) == "@ + decimal(size_align.alignment as nat) + " ) ; "@
}

/// What is written for a C++ type that stands for a type which Rust has
/// already: a comment in place of bindings, and the assertions on the
/// layout where it is known.
pub open spec fn type_map_override_binding(o: TypeMapOverride) -> GeneratedView {
    GeneratedView {
        item: comment_tokens(
            "Type bindings for "@ + o.cc_name@
                + " suppressed due to being mapped to an existing Rust type ("@ + o.rs_name@
                + ")"@,
        ),
        assertions: match o.size_align {
            Some(sa) => size_align_assertions(o.rs_name@, sa),
            None => ""@,
        },
        ..GeneratedView::empty()
    }
}

/// Writes what stands for a C++ type that is mapped to a type of Rust.
pub fn generate_type_map_override(o: &TypeMapOverride) -> (r: GeneratedItem)
    ensures
        r@ == type_map_override_binding(*o),
{
    let mut c = String::from_str("Type bindings for ");
    c.append(o.cc_name.as_str());
    c.append(" suppressed due to being mapped to an existing Rust type (");
    c.append(o.rs_name.as_str());
    c.append(")");
    let assertions = match &o.size_align {
        Some(sa) => {
            let mut a = String::from_str(
                "const _ : ( ) = assert ! ( :: core :: mem :: size_of :: < ",
            );
            a.append(o.rs_name.as_str());
            a.append(" > ( ) == ");
            push_decimal(&mut a, sa.size as u64);
            a.append(" ) ; const _ : ( ) = assert ! ( :: core :: mem :: align_of :: < ");
            a.append(o.rs_name.as_str());
            a.append(" > ( ) == ");
            push_decimal(&mut a, sa.alignment as u64);
            a.append(" ) ; ");
            a
        },
        None => String::from_str(""),
    };
    let r = GeneratedItem {
        item: format_comment(c.as_str()),
        thunks: String::new(),
        thunk_impls: String::new(),
        assertions,
        features: Vec::new(),
    };
    assert(r@.features =~= Seq::<Seq<char>>::empty());
    r
}

/// The path of the crate's root in Rust.
pub open spec fn crate_root_path(path: Option<Seq<char>>) -> Seq<char> {
    match path {
        None => "crate "@,
        Some(p) => "crate :: "@ + rs_ident(p) + " "@,
    }
}

/// Writes the path of the crate's root in Rust.
pub fn crate_root_path_tokens(ir: &IR) -> (r: String)
    ensures
        r@ == crate_root_path(crate::text::opt_view(ir.root_path())),
{
    match ir.crate_root_path() {
        None => String::from_str("crate "),
        Some(p) => {
            let mut s = String::from_str("crate :: ");
            s.append(make_rs_ident(p.as_str()).as_str());
            s.append(" ");
            s
        },
    }
}

/// The `#include` lines of the public headers of a library, in the order
/// in which the library lists them: some libraries need a certain header
/// to come first.
pub open spec fn public_header_lines(headers: Seq<HeaderName>, n: int) -> Seq<char>
    decreases n,
{
    if n <= 0 || n > headers.len() {
        Seq::empty()
    } else {
        public_header_lines(headers, n - 1) + crate::prereqs::include_tokens(
            IncludeKey { rank: 1, first: headers[n - 1].name@, second: Seq::empty() },
        )
    }
}

/// The headers of the support library that the C++ code behind the
/// bindings needs.
pub open spec fn internal_includes(support_path_format: Seq<char>, has_records: bool) -> Set<
    IncludeKey,
> {
    let base = Set::<IncludeKey>::empty().insert(
        IncludeKey { rank: 0, first: "memory"@, second: Seq::empty() },
    );
    let with_records = if has_records {
        base.insert(IncludeKey { rank: 0, first: "cstddef"@, second: Seq::empty() }).insert(
            IncludeKey { rank: 2, first: support_path_format, second: "internal/sizeof.h"@ },
        )
    } else {
        base
    };
    with_records.insert(
        IncludeKey { rank: 2, first: support_path_format, second: "internal/cxx20_backports.h"@ },
    ).insert(IncludeKey { rank: 2, first: support_path_format, second: "internal/offsetof.h"@ })
}

/// The `#include` lines at the top of the C++ code behind the bindings.
pub open spec fn rs_api_impl_includes(
    support_path_format: Seq<char>,
    has_records: bool,
    headers: Seq<HeaderName>,
) -> Seq<char> {
    includes_tokens(sorted_keys(internal_includes(support_path_format, has_records)))
        + "__NEWLINE__ "@ + comment_tokens("Public headers of the C++ library being wrapped."@)
        + public_header_lines(headers, headers.len() as int) + "__NEWLINE__ "@
}

/// Writes the `#include` lines at the top of the C++ code behind the
/// bindings.
pub fn generate_rs_api_impl_includes(ir: &IR, crubit_support_path_format: &str) -> (r: String)
    ensures
        r@ == rs_api_impl_includes(
            crubit_support_path_format@,
            records_in(ir.all_items(), ir.all_items().len() as int).len() > 0,
            ir.public_headers()@,
        ),
{
    let mut internal = IncludeSet::new();
    internal.insert(CcInclude::memory());
    let records = ir.records();
    assert(crate::ir_queries::referents(records@).len() == records@.len());
    if records.len() > 0 {
        internal.insert(CcInclude::cstddef());
        internal.insert(
            CcInclude::support_lib_header(crubit_support_path_format, "internal/sizeof.h"),
        );
    }
    internal.insert(
        CcInclude::support_lib_header(crubit_support_path_format, "internal/cxx20_backports.h"),
    );
    internal.insert(
        CcInclude::support_lib_header(crubit_support_path_format, "internal/offsetof.h"),
    );
    let mut out = internal.to_sorted_tokens();
    out.append("__NEWLINE__ ");
    out.append(format_comment("Public headers of the C++ library being wrapped.").as_str());
    let headers = ir.public_headers();
    let mut lines = String::new();
    assert(lines@ =~= Seq::<char>::empty());
    let mut i: usize = 0;
    while i < headers.len()
        invariant
            i <= headers.len(),
            lines@ == public_header_lines(headers@, i as int),
        decreases headers.len() - i,
    {
        lines.append(CcInclude::user_header(headers[i].name.as_str()).to_tokens().as_str());
        i += 1;
    }
    out.append(lines.as_str());
    out.append("__NEWLINE__ ");
    out
}

} // verus!
