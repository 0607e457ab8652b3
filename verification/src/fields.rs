//! The fields of a bound type: their declarations in the order of memory,
//! the padding between them, and the assertions that hold their offsets on
//! both sides.

use vstd::prelude::*;
use vstd::string::*;
use crate::cc_ident::{cc_ident, format_cc_ident, make_rs_ident, rs_ident};
use crate::error::{full_message, Error};
use crate::prereqs::{
    ApiSnippets, ApiView, CcInclude, CcPrerequisites, CcSnippet, PrereqsView, SnippetView,
};
use crate::rs_model::{AdtDef, AdtKind, Crate, FieldDef};
use crate::text::{char_is_ascii_digit, decimal, is_ascii_digit, push_decimal, views};
use crate::thunks::{
    comment_tokens, deprecated_tag, doc_comment_text, format_comment, format_deprecated_tag,
    format_doc_comment_from,
};
use crate::type_map::{
    adt_of, cc_type, format_ty_for_cc, system_header_key, AdtCoreBindings, AdtCoreView, Messages,
    TypeLocation,
};

verus! {

/// The size of a field's type and how the type is spelled in C++.
#[derive(Debug)]
pub struct FieldTypeInfo {
    pub size: u64,
    pub cc_type: CcSnippet,
}

/// A field with its place in memory.
#[derive(Debug)]
pub struct Field {
    /// The type, or why the field is bound as bytes without a type.
    pub type_info: Result<FieldTypeInfo, Error>,
    pub cc_name: String,
    pub rs_name: String,
    pub is_public: bool,
    /// The field's position in the source.
    pub index: usize,
    /// Where the field starts, in bytes.
    pub offset: u64,
    /// Where the field that follows it in memory starts; for the last
    /// field, the size of the type.
    pub offset_of_next_field: u64,
    pub doc_comment: String,
    pub attributes: String,
}

/// The values of a `Field`.
pub struct FieldView {
    pub type_info: Result<(u64, SnippetView), Messages>,
    pub cc_name: Seq<char>,
    pub rs_name: Seq<char>,
    pub is_public: bool,
    pub index: usize,
    pub offset: u64,
    pub offset_of_next_field: u64,
    pub doc_comment: Seq<char>,
    pub attributes: Seq<char>,
}

impl View for Field {
    type V = FieldView;

    open spec fn view(&self) -> FieldView {
        FieldView {
            type_info: match self.type_info {
                Ok(t) => Ok((t.size, t.cc_type@)),
                Err(e) => Err(e@),
            },
            cc_name: self.cc_name@,
            rs_name: self.rs_name@,
            is_public: self.is_public,
            index: self.index,
            offset: self.offset,
            offset_of_next_field: self.offset_of_next_field,
            doc_comment: self.doc_comment@,
            attributes: self.attributes@,
        }
    }
}

/// The views of a list of fields.
pub open spec fn field_views(v: Seq<Field>) -> Seq<FieldView> {
    v.map_values(|f: Field| f@)
}

impl FieldView {
    /// The number of bytes that the field takes: the size of its type
    /// where that is known, else the bytes up to the next field.
    pub open spec fn size(self) -> u64 {
        match self.type_info {
            Ok(t) => t.0,
            Err(_) => if self.offset_of_next_field >= self.offset {
                (self.offset_of_next_field - self.offset) as u64
            } else {
                0
            },
        }
    }
}

impl Field {
    /// The number of bytes that the field takes.
    pub fn size(&self) -> (r: u64)
        ensures
            r == self@.size(),
    {
        match &self.type_info {
            Ok(t) => t.size,
            Err(_) => if self.offset_of_next_field >= self.offset {
                self.offset_of_next_field - self.offset
            } else {
                0
            },
        }
    }
}

/// The type of a field: its size and its spelling in C++, or why it has
/// none.
pub open spec fn field_type(krate: Crate, f: FieldDef) -> Result<(u64, SnippetView), Messages> {
    match f.size {
        Err(why) => Err(seq!["Error computing the layout: "@ + why@]),
        Ok(size) => match cc_type(krate, f.ty, TypeLocation::Other) {
            Err(e) => Err(e),
            Ok(s) => Ok((size, s)),
        },
    }
}

/// The name of a field in C++: its own where C++ can spell it, else a
/// numbered one.
pub open spec fn field_cc_name(name: Seq<char>, index: int) -> Seq<char> {
    match cc_ident(name) {
        Ok(t) => t,
        Err(_) => "__field"@ + decimal(index as nat),
    }
}

/// The name of a field in Rust: the position for a field of a tuple
/// struct, whose name starts with a digit, else the name.
pub open spec fn field_rs_name(name: Seq<char>, index: int) -> Seq<char> {
    if name.len() > 0 && is_ascii_digit(name[0]) {
        decimal(index as nat)
    } else {
        rs_ident(name)
    }
}

/// The field at position `index` of the source, laid out before the field
/// that starts at `next`.
pub open spec fn source_field(krate: Crate, f: FieldDef, index: usize, next: u64) -> FieldView {
    FieldView {
        type_info: field_type(krate, f),
        cc_name: field_cc_name(f.name@, index as int),
        rs_name: field_rs_name(f.name@, index as int),
        is_public: f.is_public,
        index,
        offset: f.offset,
        offset_of_next_field: next,
        doc_comment: comment_tokens(doc_comment_text(views(f.doc_comments@), f.source_location@)),
        attributes: deprecated_tag(f.deprecated),
    }
}

/// The bytes of an enum: its variants are not bound one by one.
pub open spec fn opaque_blob(size: u64) -> FieldView {
    FieldView {
        type_info: Err(seq!["No support for bindings of individual `enum` fields"@]),
        cc_name: "__opaque_blob_of_bytes"@,
        rs_name: "__opaque_blob_of_bytes"@,
        is_public: false,
        index: 0,
        offset: 0,
        offset_of_next_field: size,
        doc_comment: ""@,
        attributes: ""@,
    }
}

/// What orders the fields of a struct in memory: the offset, then the size
/// of the type, counted as nothing where it is unknown, so that a field
/// without size comes before the field that shares its offset.
pub open spec fn sort_key(krate: Crate, f: FieldDef) -> (u64, u64) {
    (
        f.offset,
        match field_type(krate, f) {
            Ok(t) => t.0,
            Err(_) => 0,
        },
    )
}

/// Whether the field at position `i` of the source comes before the field
/// at position `j` in memory.
pub open spec fn comes_before(keys: Seq<(u64, u64)>, i: usize, j: usize) -> bool {
    let a = keys[i as int];
    let b = keys[j as int];
    a.0 < b.0 || (a.0 == b.0 && (a.1 < b.1 || (a.1 == b.1 && i < j)))
}

/// An order of fields with one more field in its place.
pub open spec fn insert_ordered(order: Seq<usize>, i: usize, keys: Seq<(u64, u64)>) -> Seq<usize>
    decreases order.len(),
{
    if order.len() == 0 {
        seq![i]
    } else if comes_before(keys, i, order[0]) {
        seq![i] + order
    } else {
        seq![order[0]] + insert_ordered(order.subrange(1, order.len() as int), i, keys)
    }
}

/// The first `n` fields of the source in the order of memory.
pub open spec fn memory_order(keys: Seq<(u64, u64)>, n: int) -> Seq<usize>
    decreases n,
{
    if n <= 0 || n > keys.len() {
        Seq::empty()
    } else {
        insert_ordered(memory_order(keys, n - 1), (n - 1) as usize, keys)
    }
}

/// The first `n` fields of the source in the order of the source.
pub open spec fn source_order(n: int) -> Seq<usize>
    decreases n,
{
    if n <= 0 {
        Seq::empty()
    } else {
        source_order(n - 1).push((n - 1) as usize)
    }
}

/// The keys of the fields of a type.
pub open spec fn sort_keys(krate: Crate, fields: Seq<FieldDef>) -> Seq<(u64, u64)> {
    fields.map_values(|f: FieldDef| sort_key(krate, f))
}

/// The order in which the fields of a type are declared in C++: for a
/// struct the order of memory, as the declaration is positional; for a
/// union the order of the source.
pub open spec fn declaration_order(krate: Crate, adt: AdtDef) -> Seq<usize> {
    if adt.kind == AdtKind::Union {
        source_order(adt.fields@.len() as int)
    } else {
        memory_order(sort_keys(krate, adt.fields@), adt.fields@.len() as int)
    }
}

/// Every position in the order names a field.
pub open spec fn order_in_range(order: Seq<usize>, n: int) -> bool {
    forall|k: int| 0 <= k < order.len() ==> (#[trigger] order[k]) < n
}

/// The first `k` fields in a given order, each laid out before the one
/// that follows it, the last before the end of the type.
pub open spec fn ordered_fields(
    krate: Crate,
    fields: Seq<FieldDef>,
    order: Seq<usize>,
    size: u64,
    k: int,
) -> Seq<FieldView>
    decreases k,
{
    if k <= 0 || k > order.len() {
        Seq::empty()
    } else {
        ordered_fields(krate, fields, order, size, k - 1).push(
            source_field(
                krate,
                fields[order[k - 1] as int],
                order[k - 1],
                if k < order.len() {
                    fields[order[k] as int].offset
                } else {
                    size
                },
            ),
        )
    }
}

/// The fields of a bound type as they are laid out.
pub open spec fn laid_out_fields(krate: Crate, core: AdtCoreView) -> Seq<FieldView>
    recommends
        adt_of(krate, core.def) is Some,
{
    let adt = adt_of(krate, core.def)->0;
    if adt.kind == AdtKind::Enum {
        seq![opaque_blob(core.size_in_bytes)]
    } else {
        let order = declaration_order(krate, adt);
        ordered_fields(krate, adt.fields@, order, core.size_in_bytes, order.len() as int)
    }
}

/// Puts the field at position `i` of the source in its place in an order.
fn insert_in_order(order: &mut Vec<usize>, i: usize, keys: &Vec<(u64, u64)>)
    requires
        i < keys@.len(),
        order_in_range(old(order)@, keys@.len() as int),
    ensures
        final(order)@ == insert_ordered(old(order)@, i, keys@),
        order_in_range(final(order)@, keys@.len() as int),
{
    let ghost s = order@;
    assert(s.subrange(0, s.len() as int) =~= s);
    assert(s.subrange(0, 0) + insert_ordered(s, i, keys@) =~= insert_ordered(s, i, keys@));
    let mut p: usize = 0;
    let mut stop = false;
    while p < order.len() && !stop
        invariant
            p <= order.len(),
            i < keys@.len(),
            order@ == s,
            order_in_range(s, keys@.len() as int),
            insert_ordered(s, i, keys@) == s.subrange(0, p as int) + insert_ordered(
                s.subrange(p as int, s.len() as int),
                i,
                keys@,
            ),
            stop ==> p < order.len() && comes_before(keys@, i, s[p as int]),
        decreases order.len() - p + (if stop { 0int } else { 1int }),
    {
        let ghost rest = s.subrange(p as int, s.len() as int);
        assert(rest[0] == s[p as int]);
        let j = order[p];
        assert(j < keys@.len());
        let a = keys[i];
        let b = keys[j];
        if a.0 < b.0 || (a.0 == b.0 && (a.1 < b.1 || (a.1 == b.1 && i < j))) {
            stop = true;
        } else {
            assert(rest.subrange(1, rest.len() as int) =~= s.subrange(p + 1, s.len() as int));
            assert(s.subrange(0, p as int) + (seq![rest[0]] + insert_ordered(
                s.subrange(p + 1, s.len() as int),
                i,
                keys@,
            )) =~= s.subrange(0, p + 1) + insert_ordered(
                s.subrange(p + 1, s.len() as int),
                i,
                keys@,
            ));
            p += 1;
        }
    }
    proof {
        let rest = s.subrange(p as int, s.len() as int);
        if p < order.len() {
            assert(rest[0] == s[p as int]);
            assert(insert_ordered(rest, i, keys@) == seq![i] + rest);
        } else {
            assert(insert_ordered(rest, i, keys@) == seq![i]);
        }
        assert(s.subrange(0, p as int) + (seq![i] + rest) =~= s.insert(p as int, i));
    }
    order.insert(p, i);
    assert forall|k: int| 0 <= k < order@.len() implies (#[trigger] order@[k]) < keys@.len() by {
        if k < p {
            assert(order@[k] == s[k]);
        } else if k > p {
            assert(order@[k] == s[k - 1]);
        }
    }
}

/// Computes the type of a field.
pub fn format_field_type(krate: &Crate, f: &FieldDef) -> (r: Result<FieldTypeInfo, Error>)
    ensures
        match field_type(*krate, *f) {
            Ok(t) => r matches Ok(i) && i.size == t.0 && i.cc_type@ == t.1,
            Err(e) => r matches Err(x) && x@ == e,
        },
{
    match &f.size {
        Err(why) => {
            let mut m = String::from_str("Error computing the layout: ");
            m.append(why.as_str());
            Err(Error::msg(m))
        },
        Ok(size) => match format_ty_for_cc(krate, &f.ty, TypeLocation::Other) {
            Err(e) => Err(e),
            Ok(cc_type) => Ok(FieldTypeInfo { size: *size, cc_type }),
        },
    }
}

/// Names a field in C++.
pub fn format_field_cc_name(name: &str, index: usize) -> (r: String)
    ensures
        r@ == field_cc_name(name@, index as int),
{
    match format_cc_ident(name) {
        Ok(t) => t,
        Err(_) => {
            let mut s = String::from_str("__field");
            push_decimal(&mut s, index as u64);
            s
        },
    }
}

/// Names a field in Rust.
pub fn format_field_rs_name(name: &str, index: usize) -> (r: String)
    ensures
        r@ == field_rs_name(name@, index as int),
{
    let digit = name.unicode_len() > 0 && char_is_ascii_digit(name.get_char(0));
    if digit {
        crate::text::decimal_string(index as u64)
    } else {
        make_rs_ident(name)
    }
}

/// Lays out the field at position `index` of the source.
pub fn make_source_field(krate: &Crate, f: &FieldDef, index: usize, next: u64) -> (r: Field)
    ensures
        r@ == source_field(*krate, *f, index, next),
{
    Field {
        type_info: format_field_type(krate, f),
        cc_name: format_field_cc_name(f.name.as_str(), index),
        rs_name: format_field_rs_name(f.name.as_str(), index),
        is_public: f.is_public,
        index,
        offset: f.offset,
        offset_of_next_field: next,
        doc_comment: format_doc_comment_from(&f.doc_comments, f.source_location.as_str()),
        attributes: format_deprecated_tag(&f.deprecated),
    }
}

/// Computes the order in which the fields of a type are declared.
pub fn compute_declaration_order(krate: &Crate, adt: &AdtDef) -> (order: Vec<usize>)
    ensures
        order@ == declaration_order(*krate, *adt),
        order_in_range(order@, adt.fields@.len() as int),
{
    let n = adt.fields.len();
    let mut order: Vec<usize> = Vec::new();
    match adt.kind {
        AdtKind::Union => {
            let mut i: usize = 0;
            while i < n
                invariant
                    i <= n,
                    n == adt.fields.len(),
                    order@ == source_order(i as int),
                    order_in_range(order@, n as int),
                decreases n - i,
            {
                let ghost before = order@;
                order.push(i);
                assert forall|k: int| 0 <= k < order@.len() implies (#[trigger] order@[k]) < n by {
                    if k < before.len() {
                        assert(order@[k] == before[k]);
                    }
                }
                i += 1;
            }
            order
        },
        _ => {
            let mut keys: Vec<(u64, u64)> = Vec::new();
            let mut i: usize = 0;
            while i < n
                invariant
                    i <= n,
                    n == adt.fields.len(),
                    keys@ == sort_keys(*krate, adt.fields@).take(i as int),
                decreases n - i,
            {
                let size = match format_field_type(krate, &adt.fields[i]) {
                    Ok(t) => t.size,
                    Err(_) => 0,
                };
                keys.push((adt.fields[i].offset, size));
                assert(keys@ =~= sort_keys(*krate, adt.fields@).take(i + 1));
                i += 1;
            }
            assert(keys@ =~= sort_keys(*krate, adt.fields@));
            let mut j: usize = 0;
            while j < n
                invariant
                    j <= n,
                    n == keys@.len(),
                    order@ == memory_order(keys@, j as int),
                    order_in_range(order@, n as int),
                decreases n - j,
            {
                insert_in_order(&mut order, j, &keys);
                j += 1;
            }
            order
        },
    }
}

/// Lays out the fields of a bound type.
pub fn lay_out_fields(krate: &Crate, core: &AdtCoreBindings) -> (r: Vec<Field>)
    requires
        adt_of(*krate, core.def) is Some,
    ensures
        field_views(r@) == laid_out_fields(*krate, core@),
{
    let adt = match krate.adt(core.def) {
        Some(a) => a,
        None => {
            return Vec::new();
        },
    };
    let mut fields: Vec<Field> = Vec::new();
    match adt.kind {
        AdtKind::Enum => {
            let blob = Field {
                type_info: Err(Error::new("No support for bindings of individual `enum` fields")),
                cc_name: String::from_str("__opaque_blob_of_bytes"),
                rs_name: String::from_str("__opaque_blob_of_bytes"),
                is_public: false,
                index: 0,
                offset: 0,
                offset_of_next_field: core.size_in_bytes,
                doc_comment: String::from_str(""),
                attributes: String::from_str(""),
            };
            fields.push(blob);
            assert(field_views(fields@) =~= seq![opaque_blob(core.size_in_bytes)]);
            fields
        },
        _ => {
            let order = compute_declaration_order(krate, adt);
            assert(field_views(fields@) =~= Seq::<FieldView>::empty());
            let mut k: usize = 0;
            while k < order.len()
                invariant
                    k <= order.len(),
                    order@ == declaration_order(*krate, *adt),
                    order_in_range(order@, adt.fields@.len() as int),
                    field_views(fields@) == ordered_fields(
                        *krate,
                        adt.fields@,
                        order@,
                        core.size_in_bytes,
                        k as int,
                    ),
                decreases order.len() - k,
            {
                let ghost before = field_views(fields@);
                let i = order[k];
                assert(i < adt.fields@.len());
                let next = if k + 1 < order.len() {
                    let j = order[k + 1];
                    assert(j < adt.fields@.len());
                    adt.fields[j].offset
                } else {
                    core.size_in_bytes
                };
                let f = make_source_field(krate, &adt.fields[i], i, next);
                fields.push(f);
                assert(field_views(fields@) =~= before.push(f@));
                k += 1;
            }
            fields
        },
    }
}

/// The space between a field and the next: for a field of a struct, what
/// the field's type leaves free before the next field; for a field of a
/// union, what lies before the field. In a layout that fits (see
/// `layout_fits`) a field ends no later than the next starts; the fields
/// of no other layout are ever written.
pub open spec fn padding_after(kind: AdtKind, f: FieldView, size: u64) -> u64 {
    if kind == AdtKind::Union {
        f.offset
    } else if f.offset as int + size as int <= f.offset_of_next_field as int {
        (f.offset_of_next_field - f.offset - size) as u64
    } else {
        0
    }
}

/// The declaration of one field in C++.
///
/// A field without a type is declared as bytes, or left out with a comment
/// where it takes none. A field of a struct lies in a union without a
/// name, which leaves the time of its construction and destruction to the
/// bound type; padding follows it where the next field does not start
/// right after it, unless `omit_padding` holds. A field of a union that
/// does not follow the layout of C lies in a struct after the bytes
/// before it.
pub open spec fn field_decl(kind: AdtKind, repr_c: bool, omit_padding: bool, f: FieldView) -> Seq<
    char,
> {
    match f.type_info {
        Err(e) => if f.size() > 0 {
            "private : __NEWLINE__ "@ + comment_tokens(
                "Field type has been replaced with a blob of bytes: "@ + full_message(e),
            ) + "unsigned char "@ + f.cc_name + " [ "@ + decimal(f.size() as nat) + " ] ; "@
        } else {
            "__NEWLINE__ "@ + comment_tokens(
                "Skipped bindings for field `"@ + f.cc_name
                    + "`: ZST fields are not supported (b/258259459)"@,
            )
        },
        Ok(t) => if kind == AdtKind::Union {
            if repr_c {
                "__NEWLINE__ "@ + f.doc_comment + t.1.tokens + f.cc_name + " ; "@
            } else if f.offset == 0 {
                "__NEWLINE__ "@ + f.doc_comment + "struct { "@ + ""@ + t.1.tokens + "value ; } "@
                    + f.cc_name + " ; "@
            } else {
                "__NEWLINE__ "@ + f.doc_comment + "struct { "@ + (
                "char __crubit_internal_padding [ "@ + decimal(f.offset as nat) + " ] "@)
                    + t.1.tokens + "value ; } "@ + f.cc_name + " ; "@
            }
        } else {
            (if f.is_public {
                "public : "@
            } else {
                "private : "@
            }) + "__NEWLINE__ union { __NEWLINE__ "@ + f.doc_comment + f.attributes + t.1.tokens
                + f.cc_name + " ; } ; "@ + (if omit_padding || padding_after(kind, f, t.0) == 0 {
                ""@
            } else {
                "private : unsigned char __padding"@ + decimal(f.index as nat) + " [ "@ + decimal(
                    padding_after(kind, f, t.0) as nat,
                ) + " ] ; "@
            })
        },
    }
}

/// What the declaration of one field needs.
pub open spec fn field_prereqs(f: FieldView) -> PrereqsView {
    match f.type_info {
        Ok(t) => t.1.prereqs,
        Err(_) => PrereqsView::empty(),
    }
}

/// Whether the types of the first `n` fields are all known.
pub open spec fn all_types_known(fields: Seq<FieldView>, n: int) -> bool
    decreases n,
{
    if n <= 0 || n > fields.len() {
        true
    } else {
        all_types_known(fields, n - 1) && fields[n - 1].type_info is Ok
    }
}

/// The declarations of the first `n` fields and what they need.
pub open spec fn field_decls(
    kind: AdtKind,
    repr_c: bool,
    omit_padding: bool,
    fields: Seq<FieldView>,
    n: int,
) -> SnippetView
    decreases n,
{
    if n <= 0 || n > fields.len() {
        SnippetView::plain(Seq::empty())
    } else {
        let before = field_decls(kind, repr_c, omit_padding, fields, n - 1);
        SnippetView {
            tokens: before.tokens + field_decl(kind, repr_c, omit_padding, fields[n - 1]),
            prereqs: before.prereqs.plus(field_prereqs(fields[n - 1])),
        }
    }
}

/// The assertion in C++ that holds one field at its offset. A field that
/// takes no bytes is not declared in C++, and so has none.
pub open spec fn cc_offset_assertion(adt_name: Seq<char>, f: FieldView) -> Seq<char> {
    if f.size() != 0 {
        "static_assert ( "@ + decimal(f.offset as nat) + " == offsetof ( "@ + adt_name + " , "@
            + f.cc_name + " ) ) ; "@
    } else {
        ""@
    }
}

/// The assertions in C++ on the first `n` fields.
pub open spec fn cc_offset_assertions(adt_name: Seq<char>, fields: Seq<FieldView>, n: int) -> Seq<
    char,
>
    decreases n,
{
    if n <= 0 || n > fields.len() {
        Seq::empty()
    } else {
        cc_offset_assertions(adt_name, fields, n - 1) + cc_offset_assertion(adt_name, fields[n - 1])
    }
}

/// The assertion in Rust that holds one field at its offset. Rust code
/// outside the crate can name the public fields only.
pub open spec fn rs_offset_assertion(adt_name: Seq<char>, f: FieldView) -> Seq<char> {
    if f.is_public {
        "const _ : ( ) = assert ! ( :: core :: mem :: offset_of ! ( "@ + adt_name + " , "@
            + f.rs_name + " ) == "@ + decimal(f.offset as nat) + " ) ; "@
    } else {
        ""@
    }
}

/// The assertions in Rust on the first `n` fields.
pub open spec fn rs_offset_assertions(adt_name: Seq<char>, fields: Seq<FieldView>, n: int) -> Seq<
    char,
>
    decreases n,
{
    if n <= 0 || n > fields.len() {
        Seq::empty()
    } else {
        rs_offset_assertions(adt_name, fields, n - 1) + rs_offset_assertion(adt_name, fields[n - 1])
    }
}

/// The binding of the fields of a type, given the fields as they are laid
/// out.
///
/// The main API declares the fields and, where there are any, a private
/// function for the assertions, which can name private fields. The
/// details in C++ define that function. The details in Rust assert the
/// offsets of the public fields. Explicit padding is left out where the
/// type follows the layout of C and every field's type is known, as C++
/// then pads in the same way.
pub open spec fn fields_api(krate: Crate, core: AdtCoreView, fields: Seq<FieldView>) -> ApiView
    recommends
        adt_of(krate, core.def) is Some,
{
    let adt = adt_of(krate, core.def)->0;
    let n = fields.len() as int;
    let omit = adt.repr_c && all_types_known(fields, n);
    let decls = field_decls(adt.kind, adt.repr_c, omit, fields, n);
    if n == 0 {
        ApiView {
            main_tokens: decls.tokens + ""@,
            main_prereqs: decls.prereqs,
            details_tokens: Seq::empty(),
            details_prereqs: PrereqsView::empty(),
            rs_details: rs_offset_assertions(core.rs_fully_qualified_name, fields, n),
        }
    } else {
        ApiView {
            main_tokens: decls.tokens + "private : static void __crubit_field_offset_assertions ( ) ; "@,
            main_prereqs: decls.prereqs,
            details_tokens: "inline void "@ + core.cc_short_name
                + " :: __crubit_field_offset_assertions ( ) { "@ + cc_offset_assertions(
                core.cc_short_name,
                fields,
                n,
            ) + "} "@,
            details_prereqs: PrereqsView::empty().with_include(system_header_key("cstddef"@)),
            rs_details: rs_offset_assertions(core.rs_fully_qualified_name, fields, n),
        }
    }
}

/// The binding of the fields of a type.
pub open spec fn fields_binding(krate: Crate, core: AdtCoreView) -> ApiView
    recommends
        adt_of(krate, core.def) is Some,
{
    fields_api(krate, core, laid_out_fields(krate, core))
}

/// Declares one field in C++; what its type needs is added to `prereqs`.
pub fn format_field_decl(
    kind: AdtKind,
    repr_c: bool,
    omit_padding: bool,
    f: &Field,
    prereqs: &mut CcPrerequisites,
) -> (r: String)
    ensures
        r@ == field_decl(kind, repr_c, omit_padding, f@),
        final(prereqs)@ == old(prereqs)@.plus(field_prereqs(f@)),
{
    match &f.type_info {
        Err(e) => {
            prereqs.add_assign(CcPrerequisites::new());
            let size = f.size();
            if size > 0 {
                let mut msg = String::from_str("Field type has been replaced with a blob of bytes: ");
                msg.append(e.full_message().as_str());
                let mut s = String::from_str("private : __NEWLINE__ ");
                s.append(format_comment(msg.as_str()).as_str());
                s.append("unsigned char ");
                s.append(f.cc_name.as_str());
                s.append(" [ ");
                push_decimal(&mut s, size);
                s.append(" ] ; ");
                s
            } else {
                let mut msg = String::from_str("Skipped bindings for field `");
                msg.append(f.cc_name.as_str());
                msg.append("`: ZST fields are not supported (b/258259459)");
                let mut s = String::from_str("__NEWLINE__ ");
                s.append(format_comment(msg.as_str()).as_str());
                s
            }
        },
        Ok(t) => {
            prereqs.add_assign(t.cc_type.prereqs.copy());
            match kind {
                AdtKind::Union => {
                    let mut s = String::from_str("__NEWLINE__ ");
                    s.append(f.doc_comment.as_str());
                    if repr_c {
                        s.append(t.cc_type.tokens.as_str());
                        s.append(f.cc_name.as_str());
                        s.append(" ; ");
                    } else {
                        s.append("struct { ");
                        if f.offset == 0 {
                            s.append("");
                        } else {
                            let mut p = String::from_str("char __crubit_internal_padding [ ");
                            push_decimal(&mut p, f.offset);
                            p.append(" ] ");
                            s.append(p.as_str());
                        }
                        s.append(t.cc_type.tokens.as_str());
                        s.append("value ; } ");
                        s.append(f.cc_name.as_str());
                        s.append(" ; ");
                    }
                    s
                },
                _ => {
                    let padding: u64 = match f.offset.checked_add(t.size) {
                        Some(end) => if end <= f.offset_of_next_field {
                            f.offset_of_next_field - f.offset - t.size
                        } else {
                            0
                        },
                        None => 0,
                    };
                    assert(padding == padding_after(kind, f@, t.size));
                    let mut s = if f.is_public {
                        String::from_str("public : ")
                    } else {
                        String::from_str("private : ")
                    };
                    s.append("__NEWLINE__ union { __NEWLINE__ ");
                    s.append(f.doc_comment.as_str());
                    s.append(f.attributes.as_str());
                    s.append(t.cc_type.tokens.as_str());
                    s.append(f.cc_name.as_str());
                    s.append(" ; } ; ");
                    if omit_padding || padding == 0 {
                        s.append("");
                    } else {
                        let mut p = String::from_str("private : unsigned char __padding");
                        push_decimal(&mut p, f.index as u64);
                        p.append(" [ ");
                        push_decimal(&mut p, padding);
                        p.append(" ] ; ");
                        s.append(p.as_str());
                    }
                    s
                },
            }
        },
    }
}

/// Binds the fields of a type from the fields as they are laid out.
pub fn format_laid_out_fields(krate: &Crate, core: &AdtCoreBindings, fields: &Vec<Field>) -> (r:
    ApiSnippets)
    requires
        adt_of(*krate, core.def) is Some,
    ensures
        r@ == fields_api(*krate, core@, field_views(fields@)),
{
    let (kind, repr_c) = match krate.adt(core.def) {
        Some(a) => (a.kind, a.repr_c),
        None => (AdtKind::Struct, false),
    };
    let ghost views = field_views(fields@);
    let n = fields.len();
    let mut known = true;
    let mut i: usize = 0;
    while i < n
        invariant
            i <= n,
            n == fields.len(),
            views == field_views(fields@),
            known == all_types_known(views, i as int),
        decreases n - i,
    {
        assert(views[i as int] == fields@[i as int]@);
        known = known && fields[i].type_info.is_ok();
        i += 1;
    }
    let omit = repr_c && known;
    let mut prereqs = CcPrerequisites::new();
    let mut decls = String::new();
    let mut cc_assertions = String::new();
    let mut rs_details = String::new();
    assert(decls@ =~= Seq::<char>::empty());
    assert(cc_assertions@ =~= Seq::<char>::empty());
    assert(rs_details@ =~= Seq::<char>::empty());
    let mut k: usize = 0;
    while k < n
        invariant
            k <= n,
            n == fields.len(),
            views == field_views(fields@),
            decls@ == field_decls(kind, repr_c, omit, views, k as int).tokens,
            prereqs@ == field_decls(kind, repr_c, omit, views, k as int).prereqs,
            cc_assertions@ == cc_offset_assertions(core.cc_short_name@, views, k as int),
            rs_details@ == rs_offset_assertions(core.rs_fully_qualified_name@, views, k as int),
        decreases n - k,
    {
        assert(views[k as int] == fields@[k as int]@);
        let f = &fields[k];
        decls.append(format_field_decl(kind, repr_c, omit, f, &mut prereqs).as_str());
        if f.size() != 0 {
            let mut a = String::from_str("static_assert ( ");
            push_decimal(&mut a, f.offset);
            a.append(" == offsetof ( ");
            a.append(core.cc_short_name.as_str());
            a.append(" , ");
            a.append(f.cc_name.as_str());
            a.append(" ) ) ; ");
            cc_assertions.append(a.as_str());
        } else {
            cc_assertions.append("");
        }
        if f.is_public {
            let mut a = String::from_str(
                "const _ : ( ) = assert ! ( :: core :: mem :: offset_of ! ( ",
            );
            a.append(core.rs_fully_qualified_name.as_str());
            a.append(" , ");
            a.append(f.rs_name.as_str());
            a.append(" ) == ");
            push_decimal(&mut a, f.offset);
            a.append(" ) ; ");
            rs_details.append(a.as_str());
        } else {
            rs_details.append("");
        }
        k += 1;
    }
    if n == 0 {
        decls.append("");
        let r = ApiSnippets {
            main_api: CcSnippet { tokens: decls, prereqs },
            cc_details: CcSnippet::empty(),
            rs_details,
        };
        r
    } else {
        decls.append("private : static void __crubit_field_offset_assertions ( ) ; ");
        let mut details = String::from_str("inline void ");
        details.append(core.cc_short_name.as_str());
        details.append(" :: __crubit_field_offset_assertions ( ) { ");
        details.append(cc_assertions.as_str());
        details.append("} ");
        ApiSnippets {
            main_api: CcSnippet { tokens: decls, prereqs },
            cc_details: CcSnippet::with_include(details, CcInclude::cstddef()),
            rs_details,
        }
    }
}

/// Whether a field lies where the layout can be written down: it starts
/// no later than what follows it and, in a type whose fields lie one
/// after another, a field whose type is known ends no later than what
/// follows it.
pub open spec fn field_fits(kind: AdtKind, f: FieldView) -> bool {
    &&& f.offset <= f.offset_of_next_field
    &&& (kind != AdtKind::Union && f.type_info is Ok) ==> f.offset as int + (
    f.type_info->Ok_0).0 as int <= f.offset_of_next_field as int
}

/// Whether every field of a list fits.
pub open spec fn fields_fit(kind: AdtKind, fields: Seq<FieldView>) -> bool {
    forall|i: int| 0 <= i < fields.len() ==> field_fits(kind, #[trigger] fields[i])
}

/// Whether the layout of a bound type is one that a compiler gives: its
/// fields lie inside its size and, but for a union, do not overlap. Of
/// such a layout no field has a size or a padding below zero.
pub open spec fn layout_fits(krate: Crate, core: AdtCoreView) -> bool
    recommends
        adt_of(krate, core.def) is Some,
{
    fields_fit(adt_of(krate, core.def)->0.kind, laid_out_fields(krate, core))
}

/// Tests whether the layout of a bound type is one that a compiler gives.
pub fn check_layout(krate: &Crate, core: &AdtCoreBindings) -> (r: bool)
    requires
        adt_of(*krate, core.def) is Some,
    ensures
        r == layout_fits(*krate, core@),
{
    let adt = match krate.adt(core.def) {
        Some(a) => a,
        None => {
            return true;
        },
    };
    let is_union = match adt.kind {
        AdtKind::Union => true,
        _ => false,
    };
    let fields = lay_out_fields(krate, core);
    let ghost views = field_views(fields@);
    let ghost kind = adt_of(*krate, core.def)->0.kind;
    let mut i: usize = 0;
    while i < fields.len()
        invariant
            i <= fields.len(),
            views == field_views(fields@),
            views == laid_out_fields(*krate, core@),
            kind == adt.kind,
            kind == adt_of(*krate, core.def)->0.kind,
            is_union == (kind == AdtKind::Union),
            forall|j: int| 0 <= j < i ==> field_fits(kind, #[trigger] views[j]),
        decreases fields.len() - i,
    {
        let f = &fields[i];
        assert(views[i as int] == f@);
        if f.offset > f.offset_of_next_field {
            assert(!field_fits(kind, views[i as int]));
            return false;
        }
        if !is_union {
            match &f.type_info {
                Ok(t) => {
                    if t.size > f.offset_of_next_field - f.offset {
                        assert(!field_fits(kind, views[i as int]));
                        return false;
                    }
                },
                Err(_) => {},
            }
        }
        i += 1;
    }
    true
}

/// Binds the fields of a type.
pub fn format_fields(krate: &Crate, core: &AdtCoreBindings) -> (r: ApiSnippets)
    requires
        adt_of(*krate, core.def) is Some,
        layout_fits(*krate, core@),
    ensures
        r@ == fields_binding(*krate, core@),
{
    let fields = lay_out_fields(krate, core);
    format_laid_out_fields(krate, core, &fields)
}

} // verus!
