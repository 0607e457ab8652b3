use interop_bindings::cc_type_names::{
    cc_type_name_for_item, format_cc_call_conv_as_clang_attribute, format_cc_type,
    format_cc_type_inner,
};
use interop_bindings::clang_libs::include_lib;
use interop_bindings::cmdline::Cmdline;
use interop_bindings::error::Error;
use interop_bindings::features::{
    has_bindings, required_crubit_features, HasBindings, ItemTypes, NoBindingsReason,
    RequiredCrubitFeature, TypeNeed, TypeReport, TypesOfItems,
};
use interop_bindings::ir::{InstanceMethodMetadata, ReferenceQualification, 
    BazelLabel, CcType, Comment, CrubitFeature, CrubitFeatures, Enum, Enumerator, FormattedError,
    Func, FuncParam, HeaderName, Identifier, IncompleteRecord, IntegerConstant, Item, ItemId,
    LifetimeId, LifetimeName, MappedType, MemberFuncMetadata, Namespace, Record, RecordType,
    RsType, SizeAlign, SpecialMemberFunc, TypeAlias, TypeMapOverride, UnqualifiedIdentifier,
    UnsupportedItem, UseMod,
};
use interop_bindings::ir_db::{make_ir_from_parts, try_make_ir, IrProblem, TargetFeatures, IR};
use interop_bindings::ir_queries::{rs_imported_crate_name, GenericItem};
use interop_bindings::rs_api::{
    crate_root_path_tokens, generate_comment, generate_doc_comment, generate_enum,
    generate_rs_api_impl_includes, generate_type_alias, generate_type_map_override,
    generate_unsupported, GeneratedItem, TypeTokens,
};
use interop_bindings::error_report::{insert_all, ErrorReport, ErrorReporting, IgnoreErrors};
use interop_bindings::reported::{collect_reported, report_item_errors};
use interop_bindings::rs_type_kind::{new_type_alias, rs_type_kind, Mutability, RsTypeKind};
use interop_bindings::rs_driver::{
    assemble_bindings, generate_bindings_tokens, generate_item, Provided, ProvidedBinding,
};

fn flatten(stream: proc_macro2::TokenStream, out: &mut Vec<String>) {
    for tree in stream {
        match tree {
            proc_macro2::TokenTree::Group(g) => {
                let (open, close) = match g.delimiter() {
                    proc_macro2::Delimiter::Parenthesis => ("(", ")"),
                    proc_macro2::Delimiter::Brace => ("{", "}"),
                    proc_macro2::Delimiter::Bracket => ("[", "]"),
                    proc_macro2::Delimiter::None => ("", ""),
                };
                out.push(open.to_string());
                flatten(g.stream(), out);
                out.push(close.to_string());
            }
            other => out.push(other.to_string()),
        }
    }
}

/// The tokens of a text, one by one, with a space between each two.
fn canon(tokens: &str) -> String {
    let mut out = Vec::new();
    flatten(tokens.parse::<proc_macro2::TokenStream>().unwrap(), &mut out);
    out.join(" ")
}

fn id(n: usize) -> ItemId {
    ItemId::new_for_testing(n)
}

fn ident(s: &str) -> Identifier {
    Identifier { identifier: s.into() }
}

fn target() -> BazelLabel {
    BazelLabel::new("//test:testing_target")
}

fn rs_int() -> RsType {
    RsType {
        name: Some("::core::ffi::c_int".into()),
        lifetime_args: vec![],
        type_args: vec![],
        unknown_attr: None,
        decl_id: None,
    }
}

fn cc_named(name: &str, is_const: bool, type_args: Vec<CcType>) -> CcType {
    CcType { name: Some(name.into()), is_const, type_args, decl_id: None }
}

fn cc_decl(n: usize) -> CcType {
    CcType { name: None, is_const: false, type_args: vec![], decl_id: Some(id(n)) }
}

fn int_type() -> MappedType {
    MappedType { rs_type: rs_int(), cc_type: cc_named("int", false, vec![]) }
}

fn func(n: usize, name: &str, parent: Option<usize>) -> Func {
    Func {
        name: UnqualifiedIdentifier::Identifier(ident(name)),
        owning_target: target(),
        mangled_name: format!("_Z{name}"),
        doc_comment: None,
        return_type: int_type(),
        params: vec![],
        lifetime_params: vec![],
        is_inline: false,
        member_func_metadata: None,
        is_extern_c: false,
        is_noreturn: false,
        nodiscard: None,
        deprecated: None,
        unknown_attr: None,
        has_c_calling_convention: true,
        is_member_or_descendant_of_class_template: false,
        source_loc: "google3/test/header.h;l=3".into(),
        id: id(n),
        enclosing_item_id: parent.map(id),
        adl_enclosing_record: None,
    }
}

fn record(n: usize, name: &str, parent: Option<usize>) -> Record {
    Record {
        rs_name: name.into(),
        cc_name: name.into(),
        mangled_cc_name: name.into(),
        id: id(n),
        owning_target: target(),
        defining_target: None,
        unknown_attr: None,
        doc_comment: None,
        source_loc: "google3/test/header.h;l=5".into(),
        unambiguous_public_bases: vec![],
        fields: vec![],
        lifetime_params: vec![],
        size_align: SizeAlign { size: 4, alignment: 4 },
        is_derived_class: false,
        override_alignment: false,
        copy_constructor: SpecialMemberFunc::Trivial,
        move_constructor: SpecialMemberFunc::Trivial,
        destructor: SpecialMemberFunc::Trivial,
        is_trivial_abi: true,
        is_inheritable: false,
        is_abstract: false,
        record_type: RecordType::Struct,
        is_aggregate: true,
        is_anon_record_with_typedef: false,
        child_item_ids: vec![],
        enclosing_item_id: parent.map(id),
    }
}

fn namespace(n: usize, canonical: usize, name: &str, parent: Option<usize>, children: &[usize]) -> Namespace {
    Namespace {
        name: ident(name),
        id: id(n),
        canonical_namespace_id: id(canonical),
        unknown_attr: None,
        owning_target: target(),
        child_item_ids: children.iter().map(|c| id(*c)).collect(),
        enclosing_item_id: parent.map(id),
        is_inline: false,
    }
}

fn enum_(n: usize, name: &str, enumerators: Option<Vec<Enumerator>>) -> Enum {
    Enum {
        identifier: ident(name),
        id: id(n),
        owning_target: target(),
        source_loc: "google3/test/header.h;l=7".into(),
        underlying_type: int_type(),
        enumerators,
        unknown_attr: None,
        enclosing_item_id: None,
    }
}

fn alias(n: usize, name: &str, parent: Option<usize>) -> TypeAlias {
    TypeAlias {
        identifier: ident(name),
        id: id(n),
        owning_target: target(),
        doc_comment: None,
        unknown_attr: None,
        underlying_type: int_type(),
        source_loc: "google3/test/header.h;l=9".into(),
        enclosing_item_id: parent.map(id),
    }
}

fn ir_with(items: Vec<Item>, top: &[usize], features: CrubitFeatures) -> IR {
    try_make_ir(
        items,
        vec![HeaderName { name: "test/header.h".into() }],
        target(),
        top.iter().map(|t| id(*t)).collect(),
        None,
        vec![TargetFeatures { target: target(), features }],
    )
    .unwrap()
}

fn all_features() -> CrubitFeatures {
    CrubitFeatures { supported: true, non_extern_c_functions: true, experimental: true }
}

fn supported() -> CrubitFeatures {
    CrubitFeatures::only(CrubitFeature::Supported)
}

fn no_needs(n: usize) -> ItemTypes {
    ItemTypes {
        types: (0..n)
            .map(|_| {
                Ok(TypeReport {
                    per_target: vec![TypeNeed {
                        missing: CrubitFeatures::empty(),
                        description: String::new(),
                    }],
                })
            })
            .collect(),
    }
}

fn provided(types: Vec<(ItemId, ItemTypes)>) -> Provided {
    Provided {
        types: TypesOfItems { entries: types },
        bindings: vec![],
        type_tokens: vec![],
        generate_source_loc_doc_comment: true,
    }
}

#[test]
fn test_generate_doc_comment_with_no_comment_with_no_source_loc_with_source_loc_enabled() {
    let actual = generate_doc_comment(None, None, true);
    assert!(actual.is_empty());
}

#[test]
fn test_generate_doc_comment_with_no_comment_with_source_loc_with_source_loc_enabled() {
    let actual = generate_doc_comment(None, Some("google3/some/header;l=11"), true);
    assert_eq!(canon(&actual), canon("#[doc = \" google3/some/header;l=11\"]"));
}

#[test]
fn test_generate_doc_comment_with_comment_with_source_loc_with_source_loc_enabled() {
    let actual =
        generate_doc_comment(Some("Some doc comment"), Some("google3/some/header;l=12"), true);
    assert_eq!(
        canon(&actual),
        canon("#[doc = \" Some doc comment\\n \\n google3/some/header;l=12\"]")
    );
}

#[test]
fn test_generate_doc_comment_with_comment_with_no_source_loc_with_source_loc_enabled() {
    let actual = generate_doc_comment(Some("Some doc comment"), None, true);
    assert_eq!(canon(&actual), canon("#[doc = \" Some doc comment\"]"));
}

#[test]
fn test_no_generate_doc_comment_with_no_comment_with_no_source_loc_with_source_loc_disabled() {
    let actual = generate_doc_comment(None, None, false);
    assert!(actual.is_empty());
}

#[test]
fn test_no_generate_doc_comment_with_no_comment_with_source_loc_with_source_loc_disabled() {
    let actual = generate_doc_comment(None, Some("google3/some/header;l=13"), false);
    assert!(actual.is_empty());
}

#[test]
fn test_no_generate_doc_comment_with_comment_with_source_loc_with_source_loc_disabled() {
    let actual =
        generate_doc_comment(Some("Some doc comment"), Some("google3/some/header;l=14"), false);
    assert_eq!(canon(&actual), canon("#[doc = \" Some doc comment\"]"));
}

#[test]
fn test_no_generate_doc_comment_with_comment_with_no_source_loc_with_source_loc_disabled() {
    let actual = generate_doc_comment(Some("Some doc comment"), None, false);
    assert_eq!(canon(&actual), canon("#[doc = \" Some doc comment\"]"));
}

fn test_item(source_loc: Option<&str>) -> UnsupportedItem {
    UnsupportedItem {
        name: "test_item".into(),
        errors: vec![FormattedError { fmt: "{}".into(), message: "unsupported_message".into() }],
        source_loc: source_loc.map(|s| s.to_string()),
        id: id(123),
    }
}

fn comment_of(expected: &str) -> String {
    canon(&format!("__COMMENT__ {}", proc_macro2::Literal::string(expected)))
}

#[test]
fn test_generate_unsupported_item_with_source_loc_enabled() {
    let actual =
        generate_unsupported(&test_item(Some("Generated from: google3/some/header;l=1")), true);
    let expected = "Generated from: google3/some/header;l=1\nError while generating bindings for item 'test_item':\nunsupported_message";
    assert_eq!(canon(&actual.item), comment_of(expected));
}

#[test]
fn test_generate_unsupported_item_with_missing_source_loc() {
    let actual = generate_unsupported(&test_item(None), true);
    let expected = "Error while generating bindings for item 'test_item':\nunsupported_message";
    assert_eq!(canon(&actual.item), comment_of(expected));
}

#[test]
fn test_generate_unsupported_item_with_source_loc_disabled() {
    let actual =
        generate_unsupported(&test_item(Some("Generated from: google3/some/header;l=1")), false);
    let expected = "Error while generating bindings for item 'test_item':\nunsupported_message";
    assert_eq!(canon(&actual.item), comment_of(expected));
}

#[test]
fn several_errors_stand_apart() {
    let mut item = test_item(None);
    item.errors.push(FormattedError { fmt: "{}".into(), message: "second".into() });
    let actual = generate_unsupported(&item, true);
    let expected =
        "Error while generating bindings for item 'test_item':\nunsupported_message\n\nsecond";
    assert_eq!(canon(&actual.item), comment_of(expected));
}

#[test]
fn descriptions_with_shared_ids_are_refused() {
    let twice = vec![Item::Comment(Comment { text: "a".into(), id: id(1) }), Item::Comment(Comment { text: "b".into(), id: id(1) })];
    let r = try_make_ir(twice, vec![], target(), vec![], None, vec![]);
    assert_eq!(r.err(), Some(IrProblem::DuplicateItemId));
    let lifetime = |name: &str| LifetimeName { name: name.into(), id: LifetimeId(7) };
    let mut f = func(1, "f", None);
    f.lifetime_params = vec![lifetime("a")];
    let mut r = record(2, "R", None);
    r.lifetime_params = vec![lifetime("b")];
    let r = try_make_ir(vec![Item::Func(f), Item::Record(r)], vec![], target(), vec![], None, vec![]);
    assert_eq!(r.err(), Some(IrProblem::DuplicateLifetimeId));
}

#[test]
fn items_are_found_by_id() {
    let mut f = func(10, "f", None);
    f.lifetime_params = vec![LifetimeName { name: "a".into(), id: LifetimeId(3) }];
    let ir = make_ir_from_parts(
        vec![Item::Func(f), Item::Record(record(20, "R", None)), Item::Func(func(30, "f", None))],
        vec![],
        target(),
        vec![id(10)],
        Some("__cc_template_instantiations_rs_api".into()),
        vec![],
    );
    assert_eq!(ir.items().len(), 3);
    assert_eq!(ir.find_untyped_decl(id(20)).id(), id(20));
    assert!(ir.lookup(id(21)).is_none());
    assert_eq!(ir.find_func(id(30)).unwrap().id, id(30));
    assert_eq!(
        ir.find_func(id(20)).unwrap_err().full_message(),
        "DeclId 20 doesn't refer to a Func"
    );
    assert_eq!(ir.find_record(id(20)).unwrap().cc_name, "R");
    assert_eq!(ir.find_decl(id(99)).unwrap_err().full_message(), "DeclId 99 doesn't refer to a Item");
    assert_eq!(ir.functions().len(), 2);
    assert_eq!(ir.records().len(), 1);
    assert!(ir.comments().is_empty() && ir.namespaces().is_empty() && ir.unsupported_items().is_empty());
    let named = ir.get_functions_by_name(&UnqualifiedIdentifier::Identifier(ident("f")));
    assert_eq!(named.iter().map(|f| f.id).collect::<Vec<_>>(), vec![id(10), id(30)]);
    assert!(ir.get_functions_by_name(&UnqualifiedIdentifier::Destructor).is_empty());
    assert_eq!(ir.get_lifetime(LifetimeId(3)).unwrap().name, "a");
    assert!(ir.get_lifetime(LifetimeId(4)).is_none());
    assert_eq!(ir.crate_root_path().as_deref(), Some("__cc_template_instantiations_rs_api"));
    assert_eq!(canon(&crate_root_path_tokens(&ir)), canon("crate :: __cc_template_instantiations_rs_api"));
    assert!(ir.is_current_target(&target()));
    assert!(!ir.is_current_target(&BazelLabel::new("//other")));
    assert_eq!(ir.item_for_type(&cc_decl(20)).unwrap().id(), id(20));
    assert!(ir.item_for_type(&cc_named("int", false, vec![])).is_err());
}

#[test]
fn features_of_targets() {
    let ir = ir_with(vec![], &[], supported());
    assert!(ir.target_crubit_features(&target()).contains(CrubitFeature::Supported));
    assert!(!ir.target_crubit_features(&target()).contains(CrubitFeature::Experimental));
    assert!(ir.target_crubit_features(&BazelLabel::new("//unknown")).is_empty());
    let both = supported().union(CrubitFeatures::only(CrubitFeature::Experimental));
    assert!(both.contains(CrubitFeature::Experimental) && both.contains(CrubitFeature::Supported));
    assert!(both.intersection(supported()).contains(CrubitFeature::Supported));
    assert!(!both.intersection(supported()).contains(CrubitFeature::Experimental));
}

#[test]
fn blocks_of_a_namespace_are_counted() {
    let other = Namespace { owning_target: BazelLabel::new("//other"), ..namespace(4, 1, "ns", None, &[]) };
    let ir = ir_with(
        vec![
            Item::Namespace(namespace(1, 1, "ns", None, &[])),
            Item::Namespace(namespace(2, 1, "ns", None, &[])),
            Item::Namespace(namespace(3, 3, "inner", Some(2), &[])),
            Item::Namespace(other),
            Item::Namespace(namespace(5, 1, "ns", None, &[])),
        ],
        &[],
        all_features(),
    );
    assert_eq!(ir.get_reopened_namespace_idx(id(1)).unwrap(), 0);
    assert_eq!(ir.get_reopened_namespace_idx(id(2)).unwrap(), 1);
    assert_eq!(ir.get_reopened_namespace_idx(id(5)).unwrap(), 2);
    assert_eq!(ir.get_reopened_namespace_idx(id(3)).unwrap(), 0);
    assert_eq!(
        ir.get_reopened_namespace_idx(id(4)).unwrap_err().full_message(),
        "Could not find the reopened namespace index for namespace 4."
    );
    assert!(!ir.is_last_reopened_namespace(id(1), id(1)).unwrap());
    assert!(ir.is_last_reopened_namespace(id(5), id(1)).unwrap());
    assert!(ir.is_last_reopened_namespace(id(3), id(3)).unwrap());
    assert_eq!(
        ir.is_last_reopened_namespace(id(1), id(77)).unwrap_err().full_message(),
        "Could not find number of reopened namespaces for namespace 77."
    );
}

#[test]
fn namespaces_around_an_item() {
    let ir = ir_with(
        vec![
            Item::Namespace(namespace(1, 1, "outer", None, &[2])),
            Item::Namespace(namespace(2, 2, "inner", Some(1), &[3, 4])),
            Item::Record(record(3, "R", Some(2))),
            Item::TypeAlias(alias(4, "Plain", Some(2))),
            Item::TypeAlias(alias(5, "Nested", Some(3))),
            Item::TypeAlias(alias(6, "InFunc", Some(7))),
            Item::Func(func(7, "f", None)),
            Item::Namespace(namespace(8, 8, "lost", Some(3), &[])),
            Item::TypeAlias(alias(9, "Deep", Some(8))),
        ],
        &[1],
        all_features(),
    );
    assert_eq!(ir.namespace_qualifier(&record(3, "R", Some(2))).unwrap().0, vec!["outer", "inner"]);
    assert!(ir.namespace_qualifier(&alias(5, "Nested", Some(3))).unwrap().0.is_empty());
    assert_eq!(
        ir.namespace_qualifier(&alias(6, "InFunc", Some(7))).unwrap_err().full_message(),
        "Expected namespace"
    );
    assert_eq!(
        ir.namespace_qualifier(&alias(9, "Deep", Some(8))).unwrap_err().full_message(),
        "Found namespaces inside of a record"
    );
    assert_eq!(
        ir.namespace_qualifier(&alias(42, "Missing", None)).unwrap_err().full_message(),
        "DeclId 42 doesn't refer to a Item"
    );
}

#[test]
fn a_walk_outwards_that_does_not_end_is_an_error() {
    let ir = ir_with(
        vec![
            Item::Namespace(namespace(1, 1, "a", Some(2), &[])),
            Item::Namespace(namespace(2, 2, "b", Some(1), &[])),
        ],
        &[],
        all_features(),
    );
    assert_eq!(
        ir.namespace_qualifier(&namespace(1, 1, "a", Some(2), &[])).unwrap_err().full_message(),
        "The items that enclose one another form a cycle"
    );
}

#[test]
fn names_of_items_in_messages() {
    let mut method = func(2, "get", None);
    method.member_func_metadata = Some(MemberFuncMetadata { record_id: id(1), instance_method_metadata: None });
    let mut dtor = func(3, "unused", None);
    dtor.name = UnqualifiedIdentifier::Destructor;
    dtor.member_func_metadata = Some(MemberFuncMetadata { record_id: id(1), instance_method_metadata: None });
    let mut ctor = func(4, "unused", None);
    ctor.name = UnqualifiedIdentifier::Constructor;
    ctor.member_func_metadata = Some(MemberFuncMetadata { record_id: id(1), instance_method_metadata: None });
    let mut op = func(5, "unused", None);
    op.name = UnqualifiedIdentifier::Operator(interop_bindings::ir::Operator { name: "==".into() });
    let use_mod = UseMod { path: "a/b.rs".into(), mod_name: ident("m"), id: id(6) };
    let items = vec![
        Item::Record(record(1, "S", None)),
        Item::Func(method),
        Item::Func(dtor),
        Item::Func(ctor),
        Item::Func(op),
        Item::UseMod(use_mod),
        Item::Comment(Comment { text: "hi".into(), id: id(7) }),
    ];
    let ir = ir_with(items, &[], all_features());
    let names: Vec<String> = ir.items().iter().map(|i| i.debug_name(&ir)).collect();
    assert_eq!(
        names,
        vec!["S", "S::get", "S::~S", "S::S", "operator==", "[internal] use mod m::* = a/b.rs", "comment"]
    );
    let item = ir.find_untyped_decl(id(2));
    let unsupported = UnsupportedItem::new_with_message(&ir, item, "why".to_string());
    assert_eq!(unsupported.name, "S::get");
    assert_eq!(unsupported.errors[0].message, "why");
    assert_eq!(unsupported.errors[0].fmt, "{}");
    assert_eq!(unsupported.source_loc.as_deref(), Some("google3/test/header.h;l=3"));
    assert_eq!(unsupported.id, id(2));
    let cause = Error::new("root").context("outer".to_string());
    let unsupported = UnsupportedItem::new_with_cause(&ir, item, &cause);
    assert_eq!(unsupported.errors[0].message, "outer: root");
    assert_eq!(unsupported.errors[0].to_error().full_message(), "outer: root");
}

#[test]
fn crates_of_other_targets_are_named_after_them() {
    let ir = ir_with(vec![], &[], all_features());
    assert_eq!(rs_imported_crate_name(&target(), &ir), None);
    assert_eq!(
        rs_imported_crate_name(&BazelLabel::new("//foo:bar-baz"), &ir).as_deref(),
        Some("bar_baz")
    );
    assert_eq!(
        rs_imported_crate_name(&BazelLabel::new("//foo:async"), &ir).as_deref(),
        Some("r#async")
    );
}

#[test]
fn calling_conventions_as_attributes() {
    assert_eq!(format_cc_call_conv_as_clang_attribute("cdecl").unwrap(), "");
    for abi in ["fastcall", "stdcall", "thiscall", "vectorcall"] {
        assert_eq!(
            canon(&format_cc_call_conv_as_clang_attribute(abi).unwrap()),
            canon(&format!("__attribute__(({abi}))"))
        );
    }
    assert_eq!(
        format_cc_call_conv_as_clang_attribute("sysv64").unwrap_err().full_message(),
        "Unsupported ABI: sysv64"
    );
}

#[test]
fn spelling_of_cc_types() {
    let mut anon = record(4, "Anon", None);
    anon.is_anon_record_with_typedef = true;
    let mut cls = record(5, "Cls", Some(1));
    cls.record_type = RecordType::Class;
    let incomplete = IncompleteRecord {
        cc_name: "Forward".into(),
        rs_name: "Forward".into(),
        id: id(8),
        owning_target: target(),
        unknown_attr: None,
        record_type: RecordType::Union,
        enclosing_item_id: Some(id(1)),
    };
    let over = |n: usize, cc: &str| TypeMapOverride {
        rs_name: "i8".into(),
        cc_name: cc.into(),
        owning_target: target(),
        size_align: None,
        is_same_abi: true,
        id: id(n),
    };
    let ir = ir_with(
        vec![
            Item::Namespace(namespace(1, 1, "ns", None, &[])),
            Item::Record(record(2, "S", Some(1))),
            Item::TypeAlias(alias(3, "Inner", Some(2))),
            Item::Record(anon),
            Item::Record(cls),
            Item::Enum(Enum { enclosing_item_id: Some(id(1)), ..enum_(6, "E", None) }),
            Item::Func(func(7, "f", None)),
            Item::IncompleteRecord(incomplete),
            Item::TypeMapOverride(over(9, "std::int8_t")),
            Item::TypeMapOverride(over(10, "is \" malformed")),
            Item::Record(record(11, "reinterpret_cast", None)),
        ],
        &[],
        all_features(),
    );
    let cases: Vec<(CcType, &str)> = vec![
        (cc_named("int", false, vec![]), "int"),
        (cc_named("int", true, vec![]), "int const"),
        (cc_named("*", false, vec![cc_named("int", true, vec![])]), "int const *"),
        (cc_named("&", true, vec![cc_named("int", false, vec![])]), "int * const"),
        (cc_named("&&", false, vec![cc_named("int", false, vec![])]), "int *"),
        (cc_decl(2), "struct ns::S"),
        (CcType { is_const: true, ..cc_decl(2) }, "const struct ns::S"),
        (cc_decl(3), "ns::S::Inner"),
        (cc_decl(4), "Anon"),
        (cc_decl(5), "class ns::Cls"),
        (cc_decl(6), "ns::E"),
        (cc_decl(8), "union ns::Forward"),
        (cc_decl(9), "std::int8_t"),
        (
            cc_named(
                "#funcValue cdecl",
                false,
                vec![cc_named("&", false, vec![cc_named("int", false, vec![])]), cc_named("int", false, vec![]), cc_named("void", false, vec![])],
            ),
            "crubit::type_identity_t<void(int&, int)>",
        ),
        (
            cc_named(
                "*",
                false,
                vec![cc_named("#funcValue vectorcall", false, vec![cc_named("int", false, vec![])])],
            ),
            "crubit::type_identity_t<int() __attribute__((vectorcall))>*",
        ),
    ];
    for (ty, expected) in cases {
        assert_eq!(canon(&format_cc_type(&ty, &ir).unwrap()), canon(expected), "{ty:?}");
    }
    assert_eq!(
        canon(&format_cc_type_inner(&cc_named("&&", false, vec![cc_named("int", false, vec![])]), &ir, true).unwrap()),
        canon("int &&")
    );
    let failures: Vec<(CcType, &str)> = vec![
        (cc_named("*", false, vec![]), "Invalid pointer type (need exactly 1 type argument): *"),
        (cc_named("vector", false, vec![cc_named("int", false, vec![])]), "Type not yet supported: vector"),
        (cc_named("#funcValue cdecl", false, vec![]), "funcValue type without a return type: #funcValue cdecl"),
        (cc_named("#funcValue weird", false, vec![cc_named("int", false, vec![])]), "Unsupported ABI: weird"),
        (CcType { name: None, is_const: false, type_args: vec![], decl_id: None }, "Type does not have an associated item."),
        (cc_decl(99), "DeclId 99 doesn't refer to a Item"),
        (cc_decl(7), "Item does not define a type"),
        (cc_decl(10), "malformed type name: is \" malformed"),
        (
            cc_decl(11),
            "`reinterpret_cast` is a C++ reserved keyword and can't be used as a C++ identifier",
        ),
    ];
    for (ty, expected) in failures {
        assert_eq!(format_cc_type(&ty, &ir).unwrap_err().full_message(), expected, "{ty:?}");
    }
    assert!(cc_type_name_for_item(ir.find_untyped_decl(id(1)), &ir).is_err());
}

#[test]
fn what_a_function_needs_of_its_target() {
    let mut f = func(1, "f", None);
    f.params = vec![FuncParam { type_: int_type(), identifier: ident("x"), unknown_attr: Some("lifetimebound".into()) }];
    f.is_noreturn = true;
    f.nodiscard = Some("".into());
    f.deprecated = Some("old".into());
    f.has_c_calling_convention = false;
    f.unknown_attr = Some("gnu::hot".into());
    let item = Item::Func(f);
    let ir = ir_with(vec![item.clone()], &[1], supported());
    let types = ItemTypes {
        types: vec![
            Ok(TypeReport { per_target: vec![TypeNeed { missing: CrubitFeatures::only(CrubitFeature::Experimental), description: "references are not supported".into() }] }),
            Ok(TypeReport { per_target: vec![TypeNeed { missing: CrubitFeatures::only(CrubitFeature::Experimental), description: "".into() }] }),
        ],
    };
    let missing = required_crubit_features(&ir, &item, &types).unwrap();
    let shown: Vec<String> = missing.iter().map(|m| m.display_string()).collect();
    assert_eq!(
        shown,
        vec![
            "//test:testing_target needs [//features:experimental] for f (unknown attribute(s): gnu::hot)",
            "//test:testing_target needs [//features:experimental] for f (return type: references are not supported)",
            "//test:testing_target needs [//features:experimental] for f (the type of x (parameter #0))",
            "//test:testing_target needs [//features:non_extern_c_functions, //features:experimental] for f (non-extern \"C\" function)",
            "//test:testing_target needs [//features:experimental] for f (non-C calling convention)",
            "//test:testing_target needs [//features:experimental] for f ([[noreturn]] attribute)",
            "//test:testing_target needs [//features:experimental] for f ([[nodiscard]] attribute)",
            "//test:testing_target needs [//features:experimental] for f ([[deprecated]] attribute)",
            "//test:testing_target needs [//features:experimental] for f (param x has unknown attribute(s): lifetimebound)",
        ]
    );
    let ir = ir_with(vec![item.clone()], &[1], all_features());
    assert!(required_crubit_features(&ir, &item, &no_needs(2)).unwrap().is_empty());
    let failing = ItemTypes { types: vec![Ok(TypeReport { per_target: vec![] }), Err(Error::new("no such type"))] };
    assert_eq!(
        required_crubit_features(&ir, &item, &failing).unwrap_err().full_message(),
        "no such type"
    );
}

#[test]
fn what_other_items_need_of_their_target() {
    let ir = ir_with(vec![], &[], CrubitFeatures::empty());
    let needs = |item: Item, types: ItemTypes| -> Vec<String> {
        required_crubit_features(&ir, &item, &types)
            .unwrap()
            .iter()
            .map(|m| m.display_string())
            .collect()
    };
    let mut dtor = func(1, "unused", None);
    dtor.name = UnqualifiedIdentifier::Destructor;
    let r = Item::Record(record(2, "S", None));
    let ir2 = ir_with(vec![r.clone(), Item::Func({ let mut d = dtor.clone(); d.member_func_metadata = Some(MemberFuncMetadata { record_id: id(2), instance_method_metadata: None }); d })], &[], CrubitFeatures::empty());
    let with_record = ir2.find_untyped_decl(id(1)).clone();
    assert_eq!(
        required_crubit_features(&ir2, &with_record, &no_needs(0)).unwrap()[0].display_string(),
        "//test:testing_target needs [//features:supported] for S::~S (destructors)"
    );
    assert_eq!(
        needs(Item::Namespace(namespace(3, 3, "ns", None, &[])), no_needs(0)),
        vec!["//test:testing_target needs [//features:supported] for ns (namespace)"]
    );
    let mut ext = func(4, "c_fn", None);
    ext.is_extern_c = true;
    assert_eq!(
        needs(Item::Func(ext), no_needs(1)),
        vec!["//test:testing_target needs [//features:supported] for c_fn (extern \"C\" function)"]
    );
    assert!(needs(Item::Comment(Comment { text: "c".into(), id: id(5) }), no_needs(0)).is_empty());
    assert!(needs(r.clone(), no_needs(1)).is_empty());
    let mut templated = record(6, "T", None);
    templated.defining_target = Some(BazelLabel::new("//defs"));
    let report = ItemTypes {
        types: vec![Ok(TypeReport {
            per_target: vec![
                TypeNeed { missing: supported(), description: "template".into() },
                TypeNeed { missing: supported(), description: "".into() },
            ],
        })],
    };
    assert_eq!(
        needs(Item::Record(templated), report),
        vec![
            "//defs needs [//features:supported] for T (template)",
            "//test:testing_target needs [//features:supported] for T",
        ]
    );
}

#[test]
fn whether_an_item_has_bindings() {
    let items = vec![
        Item::Namespace(namespace(1, 1, "ns", None, &[2, 3])),
        Item::Record(record(2, "S", Some(1))),
        Item::Func(func(3, "f", Some(1))),
        Item::TypeAlias(alias(4, "Nested", Some(2))),
        Item::TypeAlias(alias(5, "Alias", None)),
        Item::TypeAlias(alias(6, "InFunc", Some(3))),
    ];
    let types = || TypesOfItems {
        entries: (1..=6).map(|n| (id(n), no_needs(1))).collect(),
    };
    let ir = ir_with(items.clone(), &[1], all_features());
    let verdict = |n: usize| has_bindings(&ir, ir.find_untyped_decl(id(n)), &types());
    assert!(matches!(verdict(1), HasBindings::Yes));
    assert!(matches!(verdict(2), HasBindings::Yes));
    assert!(matches!(verdict(3), HasBindings::Maybe));
    assert!(matches!(verdict(5), HasBindings::Yes));
    match verdict(4) {
        HasBindings::No(reason) => assert_eq!(
            reason.into_error().full_message(),
            "Can't generate bindings for Nested, because it is unsupported: \
             b/200067824: type definitions nested inside records are not yet supported"
        ),
        other => panic!("{other:?}"),
    }
    match verdict(6) {
        HasBindings::No(reason) => assert_eq!(
            reason.into_error().full_message(),
            "Can't generate bindings for InFunc due to missing bindings for its dependency: \
             parent item might not be defined"
        ),
        other => panic!("{other:?}"),
    }
    // Without the features, the namespace has no bindings, nor has what lies in it.
    let ir = ir_with(items, &[1], CrubitFeatures::empty());
    match has_bindings(&ir, ir.find_untyped_decl(id(2)), &types()) {
        HasBindings::No(NoBindingsReason::DependencyFailed { context, error }) => {
            assert_eq!(context, "S");
            assert_eq!(
                error.full_message(),
                "Can't generate bindings for ns, because of missing required features (<internal link>):\n\
                 //test:testing_target needs [//features:supported] for ns (namespace)"
            );
        }
        other => panic!("{other:?}"),
    }
    let broken = TypesOfItems { entries: vec![(id(5), ItemTypes { types: vec![Err(Error::new("bad type"))] })] };
    match has_bindings(&ir, ir.find_untyped_decl(id(5)), &broken) {
        HasBindings::No(reason) => assert_eq!(
            reason.into_error().full_message(),
            "Can't generate bindings for Alias due to missing bindings for its dependency: bad type"
        ),
        other => panic!("{other:?}"),
    }
}

#[test]
fn a_missing_feature_as_a_message() {
    let r = RequiredCrubitFeature {
        target: BazelLabel::new("//foo"),
        item: "kFoo".into(),
        missing_features: CrubitFeatures::only(CrubitFeature::Experimental),
        capability_description: "int addition".into(),
    };
    assert_eq!(r.display_string(), "//foo needs [//features:experimental] for kFoo (int addition)");
    let r = RequiredCrubitFeature { capability_description: "".into(), missing_features: all_features(), ..r };
    assert_eq!(
        r.display_string(),
        "//foo needs [//features:supported, //features:non_extern_c_functions, //features:experimental] for kFoo"
    );
}

fn enumerator(name: &str, is_negative: bool, wrapped_value: u64) -> Enumerator {
    Enumerator { identifier: ident(name), value: IntegerConstant { is_negative, wrapped_value }, unknown_attr: None }
}

#[test]
fn enums_become_structs_around_their_underlying_type() {
    let mut hidden = enumerator("kHidden", false, 3);
    hidden.unknown_attr = Some("deprecated".into());
    let e = enum_(
        1,
        "Color",
        Some(vec![
            enumerator("kRed", false, 5),
            enumerator("kMin", true, 0x8000_0000_0000_0000),
            enumerator("kMinusOne", true, u64::MAX),
            enumerator("kMax", false, u64::MAX),
            enumerator("type", false, 0),
            hidden,
        ]),
    );
    let int = TypeTokens { tokens: "i64 ".into(), is_bool: false };
    let g = generate_enum(&e, &int, true);
    let expected = "
        #[repr(transparent)]
        #[derive(Debug, PartialEq, Eq, Copy, Clone, Hash, PartialOrd, Ord)]
        pub struct Color(i64);
        impl Color {
            pub const kRed: Color = Color(5);
            pub const kMin: Color = Color(-9223372036854775808);
            pub const kMinusOne: Color = Color(-1);
            pub const kMax: Color = Color(18446744073709551615);
            pub const r#type: Color = Color(0);
            __COMMENT__ \"Omitting bindings for kHidden\\nreason: unknown attribute(s): deprecated\"
        }
        impl From<i64> for Color {
            fn from(value: i64) -> Color {
                Color(value)
            }
        }
        impl From<Color> for i64 {
            fn from(value: Color) -> i64 {
                value.0
            }
        }";
    assert_eq!(canon(&g.item), canon(expected));
    assert!(g.thunks.is_empty() && g.assertions.is_empty() && g.features.is_empty());
    let flags = enum_(2, "Flag", Some(vec![enumerator("kOff", false, 0), enumerator("kOn", false, 1)]));
    let g = generate_enum(&flags, &TypeTokens { tokens: "bool ".into(), is_bool: true }, true);
    assert!(canon(&g.item).contains(&canon("pub const kOff: Flag = Flag(false);")));
    assert!(canon(&g.item).contains(&canon("pub const kOn: Flag = Flag(true);")));
    let opaque = generate_enum(&enum_(3, "Opaque", None), &int, true);
    assert_eq!(
        canon(&opaque.item),
        comment_of(
            "google3/test/header.h;l=7\nError while generating bindings for item 'Opaque':\n\
             b/322391132: Forward-declared (opaque) enums are not supported yet"
        )
    );
}

#[test]
fn aliases_name_their_underlying_type() {
    let mut a = alias(1, "MyInt", None);
    a.doc_comment = Some("An int.".into());
    let int = TypeTokens { tokens: ":: core :: ffi :: c_int ".into(), is_bool: false };
    let g = generate_type_alias(&a, Ok(&int), false).unwrap();
    assert_eq!(canon(&g.item), canon("#[doc = \" An int.\"] pub type MyInt = ::core::ffi::c_int;"));
    let e = generate_type_alias(&a, Err(Error::new("no such type")), false).unwrap_err();
    assert_eq!(
        e.full_message(),
        "Failed to format underlying type for MyInt (//test:testing_target, google3/test/header.h;l=9): no such type"
    );
    assert_eq!(a.display_string(), "MyInt (//test:testing_target, google3/test/header.h;l=9)");
}

#[test]
fn mapped_types_keep_their_assertions() {
    let o = TypeMapOverride {
        rs_name: "i8".into(),
        cc_name: "MyI8".into(),
        owning_target: target(),
        size_align: Some(SizeAlign { size: 1, alignment: 1 }),
        is_same_abi: true,
        id: id(1),
    };
    let g = generate_type_map_override(&o);
    assert_eq!(
        canon(&g.item),
        comment_of("Type bindings for MyI8 suppressed due to being mapped to an existing Rust type (i8)")
    );
    assert_eq!(
        canon(&g.assertions),
        canon(
            "const _: () = assert!(::core::mem::size_of::<i8>() == 1);
             const _: () = assert!(::core::mem::align_of::<i8>() == 1);"
        )
    );
    let g = generate_type_map_override(&TypeMapOverride { size_align: None, ..o });
    assert!(g.assertions.is_empty());
    let c = generate_comment(&Comment { text: "a comment".into(), id: id(2) });
    assert_eq!(canon(&c.item), comment_of("a comment"));
}

#[test]
fn headers_of_the_code_behind_the_bindings() {
    let ir = ir_with(vec![Item::Record(record(1, "S", None))], &[1], all_features());
    let actual = generate_rs_api_impl_includes(&ir, "<crubit/support/{header}>");
    let expected = "
        __HASH_TOKEN__ include <cstddef> __NEWLINE__
        __HASH_TOKEN__ include <memory> __NEWLINE__
        __HASH_TOKEN__ include <crubit/support/internal/cxx20_backports.h> __NEWLINE__
        __HASH_TOKEN__ include <crubit/support/internal/offsetof.h> __NEWLINE__
        __HASH_TOKEN__ include <crubit/support/internal/sizeof.h> __NEWLINE__
        __NEWLINE__
        __COMMENT__ \"Public headers of the C++ library being wrapped.\"
        __HASH_TOKEN__ include \"test/header.h\" __NEWLINE__
        __NEWLINE__";
    assert_eq!(canon(&actual), canon(expected));
    let without = generate_rs_api_impl_includes(&ir_with(vec![], &[], all_features()), "{header}");
    assert!(!without.contains("cstddef") && !without.contains("sizeof.h"));
    assert!(without.contains("internal / offsetof . h"));
}

fn thunked(item: &str, thunk: &str, feature: &str) -> ProvidedBinding {
    ProvidedBinding::Item(GeneratedItem {
        item: item.into(),
        thunks: thunk.into(),
        thunk_impls: format!("/* impl of {thunk} */ "),
        assertions: "const _: () = (); ".into(),
        features: vec![feature.into()],
    })
}

#[test]
fn namespaces_become_modules() {
    let mut inline_ns = namespace(5, 5, "v1", None, &[]);
    inline_ns.is_inline = true;
    let items = vec![
        Item::Namespace(namespace(1, 1, "ns", None, &[2])),
        Item::Func(func(2, "f", Some(1))),
        Item::Namespace(namespace(3, 1, "ns", None, &[4])),
        Item::Func(func(4, "g", Some(3))),
        Item::Namespace(inline_ns),
    ];
    let ir = ir_with(items, &[1, 3, 5], all_features());
    let mut p = provided((1..=5).map(|n| (id(n), no_needs(1))).collect());
    p.bindings = vec![
        (id(2), thunked("pub fn f() {} ", "fn thunk_f(); ", "register_tool")),
        (id(4), thunked("pub fn g() {} ", "fn thunk_g(); ", "abc")),
    ];
    let first = generate_item(&ir, ir.find_untyped_decl(id(1)), &p, 5).unwrap();
    assert_eq!(canon(&first.item), canon("pub mod ns_0 { pub fn f() {} __NEWLINE__ __NEWLINE__ } __NEWLINE__"));
    assert_eq!(first.thunks, "fn thunk_f(); ");
    assert_eq!(first.features, vec!["register_tool"]);
    let second = generate_item(&ir, ir.find_untyped_decl(id(3)), &p, 5).unwrap();
    assert_eq!(
        canon(&second.item),
        canon(
            "pub mod ns {
                __HASH_TOKEN__ [allow(unused_imports)] pub use super::ns_0::*; __NEWLINE__ __NEWLINE__
                pub fn g() {} __NEWLINE__ __NEWLINE__
            } __NEWLINE__"
        )
    );
    let inline = generate_item(&ir, ir.find_untyped_decl(id(5)), &p, 5).unwrap();
    assert_eq!(
        canon(&inline.item),
        canon("pub mod v1 { } __NEWLINE__ __HASH_TOKEN__ [allow(unused_imports)] pub use v1::*; __NEWLINE__")
    );
    let all = generate_bindings_tokens(&ir, "<support/{header}>", &p).unwrap();
    let rs = canon(&all.rs_api);
    assert!(rs.starts_with(&canon("#![feature(abc, custom_inner_attributes, register_tool)]")), "{rs}");
    assert!(rs.contains(&canon("#![register_tool(__crubit)]")));
    assert!(rs.contains(&canon("#![no_std]")));
    assert!(rs.contains(&canon(
        "mod detail { #[allow(unused_imports)] use super::*; extern \"C\" { fn thunk_f(); fn thunk_g(); } }"
    )));
    assert!(rs.contains(&canon("const _: () = { __NEWLINE__ const _: () = (); __NEWLINE__ __NEWLINE__ const _: () = (); __NEWLINE__ __NEWLINE__ };")));
    assert!(all.rs_api_impl.contains("pragma clang diagnostic push"));
    assert!(all.rs_api_impl.contains("/* impl of fn thunk_f();  */"));
    assert!(all.rs_api_impl.trim_end().ends_with("pragma clang diagnostic pop __NEWLINE__ __NEWLINE__ __NEWLINE__ __NEWLINE__"));
    let again = generate_bindings_tokens(&ir, "<support/{header}>", &p).unwrap();
    assert_eq!(all.rs_api, again.rs_api);
    assert_eq!(all.rs_api_impl, again.rs_api_impl);
}

#[test]
fn an_item_that_cannot_be_bound_leaves_a_comment() {
    let items = vec![
        Item::Func(func(1, "overloaded", None)),
        Item::Func(func(2, "failing", None)),
        Item::Record(record(3, "Broken", None)),
        Item::Func(Func { owning_target: BazelLabel::new("//other"), ..func(4, "elsewhere", None) }),
        Item::Enum(enum_(5, "NoTokens", Some(vec![]))),
    ];
    let ir = ir_with(items, &[1, 2, 3, 4, 5], all_features());
    let mut p = provided((1..=5).map(|n| (id(n), no_needs(1))).collect());
    p.bindings = vec![
        (id(1), ProvidedBinding::Overloaded),
        (id(2), ProvidedBinding::Failed(Error::new("cannot"))),
        (id(3), ProvidedBinding::Failed(Error::new("record failed"))),
        (id(4), ProvidedBinding::Failed(Error::new("never looked at"))),
    ];
    let g = generate_item(&ir, ir.find_untyped_decl(id(1)), &p, 5).unwrap();
    assert_eq!(
        canon(&g.item),
        comment_of(
            "google3/test/header.h;l=3\nError while generating bindings for item 'overloaded':\n\
             Cannot generate bindings for overloaded function"
        )
    );
    let g = generate_item(&ir, ir.find_untyped_decl(id(2)), &p, 5).unwrap();
    assert!(g.item.contains("cannot"));
    // A record is known to have bindings: its failure is that of the whole run.
    let e = generate_item(&ir, ir.find_untyped_decl(id(3)), &p, 5).unwrap_err();
    assert_eq!(e.full_message(), "record failed");
    assert_eq!(generate_bindings_tokens(&ir, "{header}", &p).unwrap_err().full_message(), "record failed");
    let g = generate_item(&ir, ir.find_untyped_decl(id(4)), &p, 5).unwrap();
    assert!(g.item.is_empty());
    let e = generate_item(&ir, ir.find_untyped_decl(id(5)), &p, 5).unwrap_err();
    assert_eq!(e.full_message(), "Nothing is known of the type");
}

#[test]
fn the_comment_at_the_top_names_target_and_features() {
    let ir = ir_with(vec![], &[], CrubitFeatures { supported: true, non_extern_c_functions: false, experimental: true });
    let b = assemble_bindings(&ir, "RS", "CC");
    let top = "// Automatically @generated Rust bindings for the following C++ target:\n\
               // //test:testing_target\n\
               // Features: experimental, supported\n";
    assert_eq!(b.rs_api, format!("{top}\n#![rustfmt::skip]\nRS"));
    assert_eq!(b.rs_api_impl, format!("{top}\nCC"));
    let none = assemble_bindings(&ir_with(vec![], &[], CrubitFeatures::empty()), "", "");
    assert!(none.rs_api.contains("// Features: <none>\n"));
}

#[test]
fn libraries_that_are_linked() {
    for name in ["clangAST", "LLVMSupport", "LLVMCore", "clang", "Mainline", "xlld"] {
        assert!(include_lib(name), "{name}");
    }
    for name in [
        "LLVMTableGenMain",
        "Main",
        "LLVMX86CodeGen",
        "LLVMWebAssemblyInfo",
        "LLVMRISCVDesc",
        "LLVMMipsAsmParser",
        "LLVMLoongArchInfo",
        "LLVMARMUtils",
        "LLVMAArch64Desc",
        "clangdSupport",
        "libclangd",
        "clangTidyPlugin",
        "xclangTidy",
        "lldCommon",
        "lld",
    ] {
        assert!(!include_lib(name), "{name}");
    }
}

#[test]
fn the_program_name_precedes_the_compiler_arguments() {
    let c = Cmdline::from_parts(
        "cc_bindings_from_rs_unittest_executable".into(),
        "foo.h".into(),
        vec!["test.rs".into(), "--crate-type=lib".into()],
    );
    assert_eq!(c.h_out, "foo.h");
    assert_eq!(
        c.rustc_args,
        vec!["cc_bindings_from_rs_unittest_executable", "test.rs", "--crate-type=lib"]
    );
}

fn rs_named(name: &str, type_args: Vec<RsType>) -> RsType {
    RsType {
        name: Some(name.into()),
        lifetime_args: vec![],
        type_args,
        unknown_attr: None,
        decl_id: None,
    }
}

fn rs_decl(n: usize) -> RsType {
    RsType { name: None, lifetime_args: vec![], type_args: vec![], unknown_attr: None, decl_id: Some(id(n)) }
}

fn known_types(ids: &[usize]) -> TypesOfItems {
    TypesOfItems { entries: ids.iter().map(|n| (id(*n), no_needs(1))).collect() }
}

fn func_returning(n: usize, name: &str, rs_type: RsType) -> Func {
    let mut f = func(n, name, None);
    f.return_type = MappedType { rs_type, cc_type: cc_named("void", false, vec![]) };
    f
}

#[test]
fn test_rs_type_kind_rejects_func_ptr_that_returns_struct_by_value() {
    let items = vec![
        Item::Record(record(1, "SomeStruct", None)),
        Item::Func(func_returning(2, "get_ptr_to_func", rs_named("#funcPtr C", vec![rs_decl(1)]))),
    ];
    let ir = ir_with(items, &[1, 2], all_features());
    let f = ir.find_func(id(2)).unwrap();
    let err = rs_type_kind(&ir, &f.return_type.rs_type, &known_types(&[1, 2]), ir.items().len()).unwrap_err();
    let msg = err.outermost();
    assert_eq!(
        msg,
        "Either the return type or some of the parameter types require \
                    an FFI thunk (and function pointers don't have a thunk)",
    );
}

#[test]
fn test_rs_type_kind_rejects_func_ptr_that_takes_struct_by_value() {
    let items = vec![
        Item::Record(record(1, "SomeStruct", None)),
        Item::Func(func_returning(
            2,
            "get_ptr_to_func",
            rs_named("#funcPtr C", vec![rs_decl(1), rs_named("()", vec![])]),
        )),
    ];
    let ir = ir_with(items, &[1, 2], all_features());
    let f = ir.find_func(id(2)).unwrap();
    let err = rs_type_kind(&ir, &f.return_type.rs_type, &known_types(&[1, 2]), ir.items().len()).unwrap_err();
    let msg = err.outermost();
    assert_eq!(
        msg,
        "Either the return type or some of the parameter types require \
                    an FFI thunk (and function pointers don't have a thunk)",
    );
}

#[test]
fn a_pointer_to_a_function_of_primitive_types() {
    let ir = ir_with(vec![], &[], all_features());
    let ty = rs_named(
        "#funcPtr C",
        vec![rs_named("f32", vec![]), rs_named("f64", vec![]), rs_named("::core::ffi::c_int", vec![])],
    );
    match rs_type_kind(&ir, &ty, &known_types(&[]), 0).unwrap() {
        RsTypeKind::FuncPtr { abi, return_type, param_types } => {
            assert_eq!(abi, "C");
            assert!(matches!(*return_type, RsTypeKind::Primitive(ref n) if n == "::core::ffi::c_int"));
            assert_eq!(param_types.len(), 2);
            assert!(matches!(&param_types[0], RsTypeKind::Primitive(n) if n == "f32"));
            assert!(matches!(&param_types[1], RsTypeKind::Primitive(n) if n == "f64"));
        }
        other => panic!("{other:?}"),
    }
    let bare = rs_named("#funcPtr vectorcall", vec![]);
    assert_eq!(
        rs_type_kind(&ir, &bare, &known_types(&[]), 0).unwrap_err().outermost(),
        "A function pointer must have at least a return type"
    );
}

#[test]
fn pointers_references_and_options() {
    let mut f = func(1, "f", None);
    f.lifetime_params = vec![LifetimeName { name: "a".into(), id: LifetimeId(-7) }];
    let ir = ir_with(vec![Item::Func(f)], &[1], all_features());
    let types = known_types(&[1]);
    let kind = |ty: &RsType| rs_type_kind(&ir, ty, &types, 1);

    match kind(&rs_named("*mut", vec![rs_int()])).unwrap() {
        RsTypeKind::Pointer { pointee, mutability } => {
            assert_eq!(mutability, Mutability::Mut);
            assert!(matches!(*pointee, RsTypeKind::Primitive(ref n) if n == "::core::ffi::c_int"));
        }
        other => panic!("{other:?}"),
    }
    assert!(matches!(
        kind(&rs_named("*const", vec![rs_int()])).unwrap(),
        RsTypeKind::Pointer { mutability: Mutability::Const, .. }
    ));
    assert_eq!(
        kind(&rs_named("*const", vec![])).unwrap_err().outermost(),
        "Missing pointee/referent type (need exactly 1 type argument): *const"
    );

    let mut reference = rs_named("&", vec![rs_int()]);
    assert_eq!(
        kind(&reference).unwrap_err().outermost(),
        "Missing reference lifetime (need exactly 1 lifetime argument)"
    );
    reference.lifetime_args = vec![LifetimeId(-7)];
    match kind(&reference).unwrap() {
        RsTypeKind::Reference { referent, mutability, lifetime } => {
            assert_eq!(mutability, Mutability::Const);
            assert_eq!(lifetime, "a");
            assert!(matches!(*referent, RsTypeKind::Primitive(_)));
        }
        other => panic!("{other:?}"),
    }
    reference.name = Some("#RvalueReference mut".into());
    assert!(matches!(
        kind(&reference).unwrap(),
        RsTypeKind::RvalueReference { mutability: Mutability::Mut, .. }
    ));
    reference.lifetime_args = vec![LifetimeId(-8)];
    assert_eq!(kind(&reference).unwrap_err().outermost(), "no known lifetime with id -8");

    assert!(matches!(
        kind(&rs_named("Option", vec![rs_named("&mut", vec![rs_int()])])).unwrap_err().outermost().as_str(),
        "Missing reference lifetime (need exactly 1 lifetime argument)"
    ));
    match kind(&rs_named("Option", vec![rs_int()])).unwrap() {
        RsTypeKind::Option(inner) => assert!(matches!(*inner, RsTypeKind::Primitive(_))),
        other => panic!("{other:?}"),
    }
    assert_eq!(
        kind(&rs_named("Option", vec![rs_int(), rs_int()])).unwrap_err().outermost(),
        "Option should have exactly 1 type argument (got 2)"
    );
    assert_eq!(
        kind(&rs_named("bool", vec![rs_int()])).unwrap_err().outermost(),
        "bool type must not have type arguments"
    );
    match kind(&rs_named("::alloc::vec::Vec", vec![rs_int()])).unwrap() {
        RsTypeKind::Other { name, type_args, is_same_abi } => {
            assert_eq!(name, "::alloc::vec::Vec");
            assert_eq!(type_args.len(), 1);
            assert!(is_same_abi);
        }
        other => panic!("{other:?}"),
    }
    let mut odd = rs_int();
    odd.unknown_attr = Some("gnu::odd".into());
    assert_eq!(kind(&odd).unwrap_err().outermost(), "unknown attribute(s): gnu::odd");
}

#[test]
fn types_that_items_define() {
    let mut nested = alias(4, "Nested", Some(2));
    nested.underlying_type.rs_type = rs_named("bool", vec![]);
    let mut to_struct = alias(5, "ToStruct", None);
    to_struct.underlying_type.rs_type = rs_decl(2);
    let mut to_itself = alias(6, "Loop", None);
    to_itself.underlying_type.rs_type = rs_decl(6);
    let items = vec![
        Item::Namespace(namespace(1, 1, "ns", None, &[2, 3])),
        Item::Record(record(2, "S", Some(1))),
        Item::Func(func(3, "f", Some(1))),
        Item::TypeAlias(nested),
        Item::TypeAlias(to_struct),
        Item::TypeAlias(to_itself),
        Item::Enum(enum_(7, "Color", None)),
    ];
    let ir = ir_with(items, &[1, 5, 6, 7], all_features());
    let types = known_types(&[1, 2, 3, 4, 5, 6, 7]);
    let kind = |ty: &RsType| rs_type_kind(&ir, ty, &types, ir.items().len());

    match kind(&rs_decl(2)).unwrap() {
        RsTypeKind::Record { id: found, crate_path } => {
            assert_eq!(found, id(2));
            assert_eq!(crate_path.crate_ident, None);
            assert_eq!(crate_path.namespace_qualifier.0, vec!["ns".to_string()]);
        }
        other => panic!("{other:?}"),
    }
    assert!(!kind(&rs_decl(2)).unwrap().is_c_abi_compatible_by_value());
    assert!(matches!(kind(&rs_decl(7)).unwrap(), RsTypeKind::Enum { .. }));
    assert!(kind(&rs_decl(7)).unwrap().is_c_abi_compatible_by_value());
    // An alias that cannot be bound stands for its type.
    assert!(matches!(kind(&rs_decl(4)).unwrap(), RsTypeKind::Primitive(n) if n == "bool"));
    match kind(&rs_decl(5)).unwrap() {
        RsTypeKind::TypeAlias { id: found, underlying_type, .. } => {
            assert_eq!(found, id(5));
            assert!(matches!(*underlying_type, RsTypeKind::Record { .. }));
        }
        other => panic!("{other:?}"),
    }
    assert!(!kind(&rs_decl(5)).unwrap().is_c_abi_compatible_by_value());
    assert_eq!(kind(&rs_decl(6)).unwrap_err().outermost(), "The types of the items form a cycle");
    assert_eq!(kind(&rs_decl(3)).unwrap_err().outermost(), "Type f may or may not exist, and cannot be used.");
    assert_eq!(kind(&rs_decl(9)).unwrap_err().outermost(), "DeclId 9 doesn't refer to a Item");
    let mut with_args = rs_decl(2);
    with_args.type_args = vec![rs_int()];
    assert_eq!(
        kind(&with_args).unwrap_err().outermost(),
        "Type arguments on records nor type aliases are not yet supported"
    );
    let mut nothing = rs_decl(2);
    nothing.decl_id = None;
    assert_eq!(kind(&nothing).unwrap_err().outermost(), "Type does not have an associated item.");

    let ir_alias = ir.find_decl(id(5)).unwrap();
    match ir_alias {
        Item::TypeAlias(a) => {
            assert!(matches!(new_type_alias(&ir, a, &types, 2).unwrap(), RsTypeKind::TypeAlias { .. }));
            assert_eq!(
                new_type_alias(&ir, a, &types, 0).unwrap_err().outermost(),
                "The types of the items form a cycle"
            );
        }
        other => panic!("{other:?}"),
    }
}

#[test]
fn the_record_of_a_member_function() {
    let mut method = func(2, "get", Some(1));
    method.member_func_metadata = Some(MemberFuncMetadata {
        record_id: id(1),
        instance_method_metadata: Some(InstanceMethodMetadata {
            reference: ReferenceQualification::Unqualified,
            is_const: true,
            is_virtual: false,
        }),
    });
    let mut factory = func(3, "make", Some(1));
    factory.member_func_metadata = Some(MemberFuncMetadata { record_id: id(1), instance_method_metadata: None });
    let free = func(4, "free", None);
    let mut union_ = record(5, "U", None);
    union_.record_type = RecordType::Union;
    union_.is_trivial_abi = false;
    let ir = ir_with(
        vec![
            Item::Record(record(1, "S", None)),
            Item::Func(method.clone()),
            Item::Func(factory.clone()),
            Item::Func(free.clone()),
            Item::Record(union_.clone()),
        ],
        &[1, 4, 5],
        all_features(),
    );
    assert!(method.is_instance_method());
    assert!(!factory.is_instance_method());
    assert!(!free.is_instance_method());
    assert!(matches!(ir.record_for_member_func(&method), Some(Item::Record(r)) if r.rs_name == "S"));
    assert!(matches!(ir.record_for_member_func(&factory), Some(Item::Record(_))));
    assert!(ir.record_for_member_func(&free).is_none());
    assert!(union_.is_union());
    assert!(!union_.is_unpin());
    let plain = record(1, "S", None);
    assert!(!plain.is_union());
    assert!(plain.is_unpin());
}

#[test]
fn errors_of_the_items_of_a_description() {
    let carried = UnsupportedItem {
        name: "Carried".into(),
        errors: vec![
            FormattedError { fmt: "{}".into(), message: "first reason".into() },
            FormattedError { fmt: "{}".into(), message: "second reason".into() },
        ],
        source_loc: None,
        id: id(6),
    };
    let items = vec![
        Item::Func(func(1, "overloaded", None)),
        Item::Namespace(namespace(2, 2, "ns", None, &[3, 6])),
        Item::Func(func(3, "failing", Some(2))),
        Item::Func(Func { owning_target: BazelLabel::new("//other"), ..func(4, "elsewhere", None) }),
        Item::Comment(Comment { text: "hello".into(), id: id(5) }),
        Item::UnsupportedItem(carried),
    ];
    let ir = ir_with(items.clone(), &[1, 2, 4, 5], all_features());
    let mut p = provided((1..=6).map(|n| (id(n), no_needs(1))).collect());
    p.bindings = vec![
        (id(1), ProvidedBinding::Overloaded),
        (id(3), ProvidedBinding::Failed(Error::new("cannot").context("while binding".to_string()))),
        (id(4), ProvidedBinding::Failed(Error::new("never looked at"))),
    ];
    assert!(generate_bindings_tokens(&ir, "{header}", &p).is_ok());
    let found: Vec<String> = collect_reported(&ir, &p).iter().map(|e| e.full_message()).collect();
    assert_eq!(
        found,
        vec![
            "Cannot generate bindings for overloaded function".to_string(),
            "while binding: cannot".to_string(),
            "first reason".to_string(),
            "second reason".to_string(),
        ]
    );

    let mut report = ErrorReport::new();
    report_item_errors(&ir, &p, &mut report);
    assert_eq!(report.messages(), found);
    assert_eq!(report.errors.len(), 4);
    let mut ignore = IgnoreErrors;
    report_item_errors(&ir, &p, &mut ignore);
    insert_all(&mut ignore, &report.errors);
    let mut twice = ErrorReport::new();
    insert_all(&mut twice, &report.errors);
    insert_all(&mut twice, &report.errors);
    assert_eq!(twice.errors.len(), 8);
    twice.insert(&Error::new("last"));
    assert_eq!(twice.messages().last().unwrap(), "last");

    // Where the run fails, the errors before the failure stand.
    let mut broken = items;
    broken.push(Item::Record(record(7, "Broken", None)));
    broken.push(Item::Func(func(8, "late", None)));
    let ir = ir_with(broken, &[1, 7, 8], all_features());
    let mut p = provided((1..=8).map(|n| (id(n), no_needs(1))).collect());
    p.bindings = vec![
        (id(1), ProvidedBinding::Overloaded),
        (id(7), ProvidedBinding::Failed(Error::new("record failed"))),
        (id(8), ProvidedBinding::Failed(Error::new("not reached"))),
    ];
    assert!(generate_bindings_tokens(&ir, "{header}", &p).is_err());
    let found: Vec<String> = collect_reported(&ir, &p).iter().map(|e| e.full_message()).collect();
    assert_eq!(found, vec!["Cannot generate bindings for overloaded function".to_string()]);
}
