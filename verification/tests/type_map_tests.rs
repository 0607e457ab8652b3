use interop_bindings::prereqs::{CcInclude, CcPrerequisites};
use interop_bindings::rs_model::{
    Abi, AdtDef, AdtKind, CharLayout, Crate, CrateIncludes, Def, DefKind, FloatTy, FnSig, IntTy,
    Layout, Lifetime, TextAttr, Ty, UintTy,
};
use interop_bindings::type_map::{
    format_adt_core, format_ty_for_cc, format_ty_for_rs, is_c_abi_compatible_by_value,
    is_thunk_required, TypeLocation,
};

fn flatten(stream: proc_macro2::TokenStream, out: &mut Vec<String>) {
    for tree in stream {
        match tree {
            proc_macro2::TokenTree::Group(g) => {
                let (open, close) = match g.delimiter() {
                    proc_macro2::Delimiter::Parenthesis => ("(", ")"),
                    proc_macro2::Delimiter::Brace => ("{", "}"),
                    proc_macro2::Delimiter::Bracket => ("[", "]"),
                    proc_macro2::Delimiter::None => ("", ""),
                };
                out.push(open.to_string());
                flatten(g.stream(), out);
                out.push(close.to_string());
            }
            other => out.push(other.to_string()),
        }
    }
}

/// The tokens of a text, one by one, with a space between each two.
fn canon(tokens: &str) -> String {
    let mut out = Vec::new();
    flatten(tokens.parse::<proc_macro2::TokenStream>().unwrap(), &mut out);
    out.join(" ")
}

fn adt(kind: AdtKind) -> AdtDef {
    AdtDef {
        kind,
        cc_type: None,
        generic_params: 0,
        is_c_void: false,
        layout: Ok(Layout { size: 8, align: 4, is_sized: true }),
        needs_drop: false,
        is_copy: false,
        is_unpin: true,
        implements_default: false,
        implements_clone: false,
        repr_c: false,
        repr_packed: false,
        must_use: TextAttr::Absent,
        deprecated: TextAttr::Absent,
        fields: vec![],
        impl_items: vec![],
        default_symbol: "default".into(),
        clone_symbol: "clone".into(),
        clone_from_symbol: "clone_from".into(),
        drop_symbol: "drop".into(),
    }
}

fn generic_adt(kind: AdtKind) -> AdtDef {
    let mut a = adt(kind);
    a.generic_params = 1;
    a
}

fn def(krate: &str, name: &str, kind: DefKind) -> Def {
    Def {
        krate: krate.into(),
        is_local: krate == "rust_out",
        is_item: true,
        mod_path: vec![],
        name: Some(name.into()),
        path_display: name.into(),
        is_directly_public: true,
        doc_comments: vec![],
        source_location: "<crubit_unittests.rs>;l=1".into(),
        module_deprecated: TextAttr::Absent,
        parent_module: None,
        kind,
    }
}

const SOME_STRUCT: usize = 0;
const SOME_ENUM: usize = 1;
const SOME_UNION: usize = 2;
const ORIGINALLY_CC: usize = 3;
const GENERIC: usize = 4;
const ORDERING: usize = 5;
const REEXPORT: usize = 6;
const VOID: usize = 7;
const ZST: usize = 8;
const KEYWORD_NAMED: usize = 9;
const CONST_GENERIC: usize = 10;
const LIFETIME_GENERIC: usize = 11;
const OPTION: usize = 12;
const LAYOUT_ERROR: usize = 13;

fn test_crate() -> Crate {
    let mut originally_cc = adt(AdtKind::Struct);
    originally_cc.cc_type = Some("cc_namespace::CcStruct".into());
    let mut generic = adt(AdtKind::Struct);
    generic.generic_params = 1;
    let mut reexport = def("rust_out", "PublicStructInPrivateModule", DefKind::Adt(adt(AdtKind::Struct)));
    reexport.is_directly_public = false;
    let mut void = adt(AdtKind::Enum);
    void.is_c_void = true;
    let mut zst = adt(AdtKind::Struct);
    zst.layout = Ok(Layout { size: 0, align: 1, is_sized: true });
    let mut ordering = def("core", "Ordering", DefKind::Adt(adt(AdtKind::Enum)));
    ordering.mod_path = vec!["cmp".into()];
    let mut layout_error = def("core", "LayoutError", DefKind::Adt(adt(AdtKind::Struct)));
    layout_error.is_directly_public = false;
    Crate {
        name: "rust_out".into(),
        char_layout: CharLayout { size: 4, align: 4, is_unsigned_int32: true },
        panic_unwind: false,
        defs: vec![
            def("rust_out", "SomeStruct", DefKind::Adt(adt(AdtKind::Struct))),
            def("rust_out", "SomeEnum", DefKind::Adt(adt(AdtKind::Enum))),
            def("rust_out", "SomeUnion", DefKind::Adt(adt(AdtKind::Union))),
            def("rust_out", "OriginallyCcStruct", DefKind::Adt(originally_cc)),
            def("rust_out", "TypeGenericStruct", DefKind::Adt(generic)),
            ordering,
            reexport,
            def("core", "c_void", DefKind::Adt(void)),
            def("rust_out", "Zst", DefKind::Adt(zst)),
            def("rust_out", "reinterpret_cast", DefKind::Adt(adt(AdtKind::Struct))),
            def("rust_out", "ConstGenericStruct", DefKind::Adt(generic_adt(AdtKind::Struct))),
            def("rust_out", "LifetimeGenericStruct", DefKind::Adt(generic_adt(AdtKind::Struct))),
            def("core", "Option", DefKind::Adt(generic_adt(AdtKind::Enum))),
            layout_error,
        ],
        support_path_format: "<crubit/support/for/tests/{header}>".into(),
        dependencies: vec![],
    }
}

fn adt_ty(def: usize, display: &str) -> Ty {
    Ty::Adt { def, generic_args: 0, display: display.into() }
}

fn ptr(mutable: bool, pointee: Ty) -> Ty {
    Ty::RawPtr { pointee: Box::new(pointee), mutable }
}

fn anonymous_reference(mutable: bool, referent: Ty) -> Ty {
    Ty::Ref { lifetime: Lifetime::Anonymous(1), referent: Box::new(referent), mutable }
}

fn reference(lifetime: &str, mutable: bool, referent: Ty) -> Ty {
    let lifetime = if lifetime == "static" {
        Lifetime::Static
    } else {
        Lifetime::Named(lifetime.into())
    };
    Ty::Ref { lifetime, referent: Box::new(referent), mutable }
}

fn fn_ptr(abi: Abi, is_unsafe: bool, inputs: Vec<Ty>, output: Ty) -> Ty {
    Ty::FnPtr {
        sig: Box::new(FnSig { inputs, output, c_variadic: false, is_unsafe, abi }),
        has_bound_vars: false,
    }
}

fn f32_ty() -> Ty {
    Ty::Float(FloatTy::F32)
}

fn i32_ty() -> Ty {
    Ty::Int(IntTy::I32)
}

fn includes_text(prereqs: &CcPrerequisites) -> String {
    prereqs.includes.to_tokens()
}

#[test]
fn test_format_ret_ty_for_cc_successes() {
    let testcases: Vec<(Ty, &str)> = vec![
        (Ty::Bool, "bool"),
        (Ty::Tuple(vec![]), "void"),
        (Ty::Never, "void"),
        (
            fn_ptr(Abi::C { unwind: false }, false, vec![f32_ty(), f32_ty()], f32_ty()),
            "crubit :: type_identity_t < float (float , float) > &",
        ),
    ];
    let krate = test_crate();
    for (ty, expected) in testcases {
        let desc = ty.display();
        let s = format_ty_for_cc(&krate, &ty, TypeLocation::FnReturn).unwrap();
        assert_eq!(canon(&s.tokens), canon(expected), "{desc}");
    }
}

#[test]
fn test_format_ty_for_cc_successes() {
    let c_fn = |is_unsafe| fn_ptr(Abi::C { unwind: false }, is_unsafe, vec![f32_ty(), f32_ty()], f32_ty());
    // (type, (C++ tokens, header, definition needed, forward declaration needed))
    let testcases: Vec<(Ty, (&str, &str, Option<usize>, Option<usize>))> = vec![
        (Ty::Bool, ("bool", "", None, None)),
        (Ty::Float(FloatTy::F32), ("float", "", None, None)),
        (Ty::Float(FloatTy::F64), ("double", "", None, None)),
        (Ty::Int(IntTy::I8), ("std::int8_t", "<cstdint>", None, None)),
        (Ty::Int(IntTy::I16), ("std::int16_t", "<cstdint>", None, None)),
        (Ty::Int(IntTy::I32), ("std::int32_t", "<cstdint>", None, None)),
        (Ty::Int(IntTy::I64), ("std::int64_t", "<cstdint>", None, None)),
        (Ty::Int(IntTy::Isize), ("std::intptr_t", "<cstdint>", None, None)),
        (Ty::Uint(UintTy::U8), ("std::uint8_t", "<cstdint>", None, None)),
        (Ty::Uint(UintTy::U16), ("std::uint16_t", "<cstdint>", None, None)),
        (Ty::Uint(UintTy::U32), ("std::uint32_t", "<cstdint>", None, None)),
        (Ty::Uint(UintTy::U64), ("std::uint64_t", "<cstdint>", None, None)),
        (Ty::Uint(UintTy::Usize), ("std::uintptr_t", "<cstdint>", None, None)),
        (
            Ty::Char,
            ("rs_std::rs_char", "<crubit/support/for/tests/rs_std/rs_char.h>", None, None),
        ),
        (adt_ty(SOME_STRUCT, "SomeStruct"), ("::rust_out::SomeStruct", "", Some(SOME_STRUCT), None)),
        (adt_ty(SOME_ENUM, "SomeEnum"), ("::rust_out::SomeEnum", "", Some(SOME_ENUM), None)),
        (adt_ty(SOME_UNION, "SomeUnion"), ("::rust_out::SomeUnion", "", Some(SOME_UNION), None)),
        (
            adt_ty(ORIGINALLY_CC, "OriginallyCcStruct"),
            ("cc_namespace :: CcStruct", "", Some(ORIGINALLY_CC), None),
        ),
        (ptr(false, i32_ty()), ("std :: int32_t const *", "<cstdint>", None, None)),
        (ptr(true, i32_ty()), ("std::int32_t*", "<cstdint>", None, None)),
        (
            reference("static", false, i32_ty()),
            (
                "std :: int32_t const & [[clang :: annotate_type (\"lifetime\" , \"static\")]]",
                "<cstdint>",
                None,
                None,
            ),
        ),
        (
            reference("static", true, i32_ty()),
            (
                "std :: int32_t & [[clang :: annotate_type (\"lifetime\" , \"static\")]]",
                "<cstdint>",
                None,
                None,
            ),
        ),
        // `SomeStruct` is needed by declaration, not by definition:
        (
            ptr(true, adt_ty(SOME_STRUCT, "SomeStruct")),
            ("::rust_out::SomeStruct*", "", None, Some(SOME_STRUCT)),
        ),
        (
            ptr(true, ptr(true, adt_ty(SOME_STRUCT, "SomeStruct"))),
            (":: rust_out :: SomeStruct * *", "", None, Some(SOME_STRUCT)),
        ),
        (ptr(true, ptr(false, f32_ty())), ("float const * *", "", None, None)),
        (ptr(false, ptr(true, f32_ty())), ("float * const *", "", None, None)),
        (
            c_fn(false),
            (
                "crubit :: type_identity_t < float (float , float) > &",
                "<crubit/support/for/tests/internal/cxx20_backports.h>",
                None,
                None,
            ),
        ),
        (
            c_fn(true),
            (
                "crubit :: type_identity_t < float (float , float) > &",
                "<crubit/support/for/tests/internal/cxx20_backports.h>",
                None,
                None,
            ),
        ),
        (
            ptr(false, c_fn(false)),
            (
                "crubit :: type_identity_t < float (float , float) > * const *",
                "<crubit/support/for/tests/internal/cxx20_backports.h>",
                None,
                None,
            ),
        ),
    ];
    let krate = test_crate();
    for (ty, (expected_tokens, expected_include, expected_def, expected_fwd_decl)) in testcases {
        let desc = ty.display();
        let s = format_ty_for_cc(&krate, &ty, TypeLocation::FnParam).unwrap();
        assert_eq!(canon(&s.tokens), canon(expected_tokens), "{desc}");
        if expected_include.is_empty() {
            assert!(s.prereqs.includes.is_empty(), "{desc}");
        } else {
            let expected = format!("__HASH_TOKEN__ include {expected_include} __NEWLINE__");
            assert_eq!(canon(&includes_text(&s.prereqs)), canon(&expected), "{desc}");
        }
        match expected_def {
            None => assert!(s.prereqs.defs.is_empty(), "{desc}"),
            Some(id) => assert_eq!(s.prereqs.defs.to_vec(), vec![id], "{desc}"),
        }
        match expected_fwd_decl {
            None => assert!(s.prereqs.fwd_decls.is_empty(), "{desc}"),
            Some(id) => assert_eq!(s.prereqs.fwd_decls.to_vec(), vec![id], "{desc}"),
        }
    }
}

#[test]
fn test_format_ty_for_cc_failures() {
    let generic_option = Ty::Adt { def: GENERIC, generic_args: 1, display: "std::option::Option<i8>".into() };
    let testcases: Vec<(Ty, &str)> = vec![
        (Ty::Tuple(vec![]), "`()` / `void` is only supported as a return type (b/254507801)"),
        (Ty::Never, "The never type `!` is only supported as a return type (b/254507801)"),
        (
            Ty::Tuple(vec![i32_ty(), i32_ty()]),
            "Tuples are not supported yet: (i32, i32) (b/254099023)",
        ),
        (
            reference("static", false, reference("static", false, i32_ty())),
            "Failed to format the referent of the reference type `&'static &'static i32`: \
             Can't format `&'static i32`, because references are only supported \
             in function parameter types and return types (b/286256327)",
        ),
        (
            Ty::FnPtr {
                sig: Box::new(FnSig {
                    inputs: vec![reference("a", false, i32_ty())],
                    output: Ty::Tuple(vec![]),
                    c_variadic: false,
                    is_unsafe: false,
                    abi: Abi::C { unwind: false },
                }),
                has_bound_vars: true,
            },
            "Generic functions are not supported yet (b/259749023)",
        ),
        (
            Ty::Array(Box::new(i32_ty()), 42),
            "The following Rust type is not supported yet: [i32; 42]",
        ),
        (
            reference("static", false, Ty::Slice(Box::new(i32_ty()))),
            "Failed to format the referent of the reference type `&'static [i32]`: \
             The following Rust type is not supported yet: [i32]",
        ),
        (
            reference("static", false, Ty::Str),
            "Failed to format the referent of the reference type `&'static str`: \
             The following Rust type is not supported yet: str",
        ),
        (Ty::Other("impl Eq".into()), "The following Rust type is not supported yet: impl Eq"),
        (
            fn_ptr(Abi::Rust, false, vec![i32_ty()], i32_ty()),
            "Function pointers can't have a thunk: \
             Calling convention other than `extern \"C\"` requires a thunk",
        ),
        (
            fn_ptr(
                Abi::C { unwind: false },
                false,
                vec![adt_ty(SOME_STRUCT, "SomeStruct"), f32_ty()],
                f32_ty(),
            ),
            "Function pointers can't have a thunk: Type of parameter #0 requires a thunk",
        ),
        (
            fn_ptr(
                Abi::C { unwind: false },
                false,
                vec![f32_ty(), f32_ty()],
                adt_ty(SOME_STRUCT, "SomeStruct"),
            ),
            "Function pointers can't have a thunk: Return type requires a thunk",
        ),
        (Ty::Int(IntTy::I128), "C++ doesn't have a standard equivalent of `i128` (b/254094650)"),
        (Ty::Uint(UintTy::U128), "C++ doesn't have a standard equivalent of `u128` (b/254094650)"),
        (
            Ty::Adt { def: CONST_GENERIC, generic_args: 1, display: "ConstGenericStruct<42>".into() },
            "Generic types are not supported yet (b/259749095)",
        ),
        (
            Ty::Adt { def: GENERIC, generic_args: 1, display: "TypeGenericStruct<u8>".into() },
            "Generic types are not supported yet (b/259749095)",
        ),
        (
            // The argument is there also where the source leaves it to the default.
            Ty::Adt { def: GENERIC, generic_args: 1, display: "TypeGenericStruct".into() },
            "Generic types are not supported yet (b/259749095)",
        ),
        (
            Ty::Adt {
                def: LIFETIME_GENERIC,
                generic_args: 1,
                display: "LifetimeGenericStruct<'static>".into(),
            },
            "Generic types are not supported yet (b/259749095)",
        ),
        (
            adt_ty(ORDERING, "std::cmp::Ordering"),
            "Type `std::cmp::Ordering` comes from the `core` crate, \
             but no `--bindings-from-dependency` was specified for this crate",
        ),
        (
            Ty::Adt { def: OPTION, generic_args: 1, display: "std::option::Option<i8>".into() },
            "Generic types are not supported yet (b/259749095)",
        ),
        (
            adt_ty(REEXPORT, "PublicReexportOfStruct"),
            "Not directly public type (re-exports are not supported yet - b/262052635)",
        ),
        (
            // A re-export of a private type of another crate.
            adt_ty(LAYOUT_ERROR, "std::alloc::LayoutError"),
            "Not directly public type (re-exports are not supported yet - b/262052635)",
        ),
        (
            ptr(false, generic_option),
            "Failed to format the pointee \
             of the pointer type `*const std::option::Option<i8>`: \
             Generic types are not supported yet (b/259749095)",
        ),
    ];
    let krate = test_crate();
    for (ty, expected_msg) in testcases {
        let desc = ty.display();
        let err = format_ty_for_cc(&krate, &ty, TypeLocation::FnParam)
            .expect_err(&format!("Expecting error for: {desc}"));
        assert_eq!(err.full_message(), expected_msg, "{desc}");
    }
}

#[test]
fn test_format_ty_for_rs_successes() {
    let testcases: Vec<(Ty, &str)> = vec![
        (Ty::Bool, "bool"),
        (Ty::Float(FloatTy::F32), "f32"),
        (Ty::Float(FloatTy::F64), "f64"),
        (Ty::Int(IntTy::I8), "i8"),
        (Ty::Int(IntTy::I16), "i16"),
        (Ty::Int(IntTy::I32), "i32"),
        (Ty::Int(IntTy::I64), "i64"),
        (Ty::Int(IntTy::I128), "i128"),
        (Ty::Int(IntTy::Isize), "isize"),
        (Ty::Uint(UintTy::U8), "u8"),
        (Ty::Uint(UintTy::U16), "u16"),
        (Ty::Uint(UintTy::U32), "u32"),
        (Ty::Uint(UintTy::U64), "u64"),
        (Ty::Uint(UintTy::U128), "u128"),
        (Ty::Uint(UintTy::Usize), "usize"),
        (Ty::Char, "char"),
        (Ty::Never, "!"),
        (Ty::Tuple(vec![]), "()"),
        (adt_ty(SOME_STRUCT, "SomeStruct"), "::rust_out::SomeStruct"),
        (adt_ty(SOME_ENUM, "SomeEnum"), "::rust_out::SomeEnum"),
        (adt_ty(SOME_UNION, "SomeUnion"), "::rust_out::SomeUnion"),
        (adt_ty(ORDERING, "std::cmp::Ordering"), "::core::cmp::Ordering"),
        (ptr(false, i32_ty()), "*const i32"),
        (ptr(true, i32_ty()), "*mut i32"),
        (anonymous_reference(false, i32_ty()), "& '__anon1 i32"),
        (anonymous_reference(true, i32_ty()), "& '__anon1 mut i32"),
        (anonymous_reference(false, i32_ty()), "& '__anon1 i32"),
        (reference("static", false, i32_ty()), "& 'static i32"),
        (reference("static", true, i32_ty()), "& 'static mut i32"),
        (ptr(true, adt_ty(SOME_STRUCT, "SomeStruct")), "* mut :: rust_out :: SomeStruct"),
        (
            fn_ptr(Abi::C { unwind: false }, false, vec![i32_ty()], i32_ty()),
            "extern \"C\" fn(i32) -> i32",
        ),
        (
            fn_ptr(Abi::C { unwind: false }, false, vec![f32_ty(), f32_ty()], f32_ty()),
            "extern \"C\" fn(f32, f32) -> f32",
        ),
    ];
    let krate = test_crate();
    for (ty, expected_tokens) in testcases {
        let desc = ty.display();
        let actual = format_ty_for_rs(&krate, &ty).unwrap();
        assert_eq!(canon(&actual), canon(expected_tokens), "{desc}");
    }
}

#[test]
fn test_format_ty_for_rs_failures() {
    let testcases: Vec<(Ty, &str)> = vec![
        (
            Ty::Tuple(vec![i32_ty(), i32_ty()]),
            "Tuples are not supported yet: (i32, i32) (b/254099023)",
        ),
        (
            Ty::Array(Box::new(i32_ty()), 42),
            "The following Rust type is not supported yet: [i32; 42]",
        ),
        (
            reference("static", false, Ty::Slice(Box::new(i32_ty()))),
            "Failed to format the referent of the reference type `&'static [i32]`: \
             The following Rust type is not supported yet: [i32]",
        ),
        (
            reference("static", false, Ty::Str),
            "Failed to format the referent of the reference type `&'static str`: \
             The following Rust type is not supported yet: str",
        ),
        (Ty::Other("impl Eq".into()), "The following Rust type is not supported yet: impl Eq"),
        (
            Ty::Adt { def: OPTION, generic_args: 1, display: "Option<i8>".into() },
            "Generic types are not supported yet (b/259749095)",
        ),
    ];
    let krate = test_crate();
    for (ty, expected_msg) in testcases {
        let desc = ty.display();
        let err = format_ty_for_rs(&krate, &ty).expect_err(&format!("Expecting error for: {desc}"));
        assert_eq!(err.full_message(), expected_msg, "{desc}");
    }
}

#[test]
fn chars_are_mapped_only_where_their_layout_is_the_expected_one() {
    let mut krate = test_crate();
    let s = format_ty_for_cc(&krate, &Ty::Char, TypeLocation::Other).unwrap();
    assert_eq!(canon(&s.tokens), canon("rs_std::rs_char"));
    assert!(!s.prereqs.includes.is_empty());
    krate.char_layout = CharLayout { size: 1, align: 1, is_unsigned_int32: false };
    assert_eq!(
        format_ty_for_cc(&krate, &Ty::Char, TypeLocation::Other).unwrap_err().full_message(),
        "`char` is not laid out as an unsigned integer of 32 bits"
    );
    assert_eq!(format_ty_for_rs(&krate, &Ty::Char).unwrap(), "char ");
}

#[test]
fn void_pointers_skip_the_pointee() {
    let krate = test_crate();
    let s = format_ty_for_cc(&krate, &ptr(false, adt_ty(VOID, "c_void")), TypeLocation::Other).unwrap();
    assert_eq!(canon(&s.tokens), canon("const void*"));
    assert!(s.prereqs.is_empty());
    let s = format_ty_for_cc(&krate, &ptr(true, adt_ty(VOID, "c_void")), TypeLocation::Other).unwrap();
    assert_eq!(canon(&s.tokens), canon("void*"));
}

#[test]
fn unit_and_never_are_void_in_return_position_only() {
    let krate = test_crate();
    for ty in [Ty::Tuple(vec![]), Ty::Never] {
        let s = format_ty_for_cc(&krate, &ty, TypeLocation::FnReturn).unwrap();
        assert_eq!(s.tokens, "void ");
        assert!(format_ty_for_cc(&krate, &ty, TypeLocation::FnParam).is_err());
        assert!(format_ty_for_cc(&krate, &ty, TypeLocation::Other).is_err());
    }
}

#[test]
fn types_of_a_dependency_need_its_headers() {
    let mut krate = test_crate();
    krate.dependencies.push(CrateIncludes {
        crate_name: "core".into(),
        includes: vec![CcInclude::user_header("core_bindings.h"), CcInclude::cstdint()],
    });
    let s = format_ty_for_cc(&krate, &adt_ty(ORDERING, "std::cmp::Ordering"), TypeLocation::FnParam)
        .unwrap();
    assert_eq!(canon(&s.tokens), canon("::core::cmp::Ordering"));
    assert!(s.prereqs.defs.is_empty());
    assert_eq!(
        canon(&s.prereqs.includes.to_tokens()),
        canon(
            "__HASH_TOKEN__ include <cstdint> __NEWLINE__ __NEWLINE__ \
             __HASH_TOKEN__ include \"core_bindings.h\" __NEWLINE__"
        )
    );
}

#[test]
fn a_type_without_a_binding_of_its_own_cannot_be_named() {
    let krate = test_crate();
    let err = format_ty_for_cc(&krate, &adt_ty(ZST, "Zst"), TypeLocation::FnParam).unwrap_err();
    assert_eq!(
        err.full_message(),
        "Failed to generate bindings for the definition of `Zst`: \
         Zero-sized types (ZSTs) are not supported (b/258259459)"
    );
    let err = format_ty_for_cc(&krate, &adt_ty(KEYWORD_NAMED, "reinterpret_cast"), TypeLocation::FnParam)
        .unwrap_err();
    assert_eq!(
        err.full_message(),
        "Failed to generate bindings for the definition of `reinterpret_cast`: \
         Error formatting item name: \
         `reinterpret_cast` is a C++ reserved keyword and can't be used as a C++ identifier"
    );
    let err = format_ty_for_cc(&krate, &adt_ty(99, "Missing"), TypeLocation::FnParam).unwrap_err();
    assert_eq!(err.full_message(), "The type `Missing` has no definition in the crate's table");
}

#[test]
fn core_of_a_binding() {
    let krate = test_crate();
    let core = format_adt_core(&krate, SOME_UNION).unwrap();
    assert_eq!(core.keyword, "union");
    assert_eq!(core.cc_short_name, "SomeUnion");
    assert_eq!(core.rs_fully_qualified_name, ":: rust_out :: SomeUnion");
    assert_eq!(core.size_in_bytes, 8);
    assert_eq!(core.alignment_in_bytes, 4);
    assert_eq!(format_adt_core(&krate, SOME_ENUM).unwrap().keyword, "struct");
    let err = format_adt_core(&krate, GENERIC).unwrap_err();
    assert_eq!(err.full_message(), "Generic types are not supported yet (b/259749095)");
}

#[test]
fn only_scalars_and_pointers_cross_by_value() {
    for ty in [
        Ty::Bool,
        Ty::Char,
        Ty::Never,
        Ty::Tuple(vec![]),
        i32_ty(),
        f32_ty(),
        Ty::Uint(UintTy::U128),
        ptr(true, adt_ty(SOME_STRUCT, "SomeStruct")),
        reference("a", false, adt_ty(SOME_STRUCT, "SomeStruct")),
        fn_ptr(Abi::Rust, false, vec![], Ty::Tuple(vec![])),
    ] {
        assert!(is_c_abi_compatible_by_value(&ty), "{}", ty.display());
    }
    for ty in [
        adt_ty(SOME_STRUCT, "SomeStruct"),
        Ty::Tuple(vec![i32_ty()]),
        Ty::Str,
        Ty::Slice(Box::new(i32_ty())),
        Ty::Array(Box::new(i32_ty()), 1),
        Ty::Other("impl Eq".into()),
    ] {
        assert!(!is_c_abi_compatible_by_value(&ty), "{}", ty.display());
    }
}

#[test]
fn a_thunk_is_required_for_what_does_not_cross_by_value() {
    let sig = |abi, inputs, output| FnSig { inputs, output, c_variadic: false, is_unsafe: false, abi };
    assert!(is_thunk_required(&sig(Abi::C { unwind: false }, vec![i32_ty()], i32_ty())).is_ok());
    assert!(is_thunk_required(&sig(Abi::C { unwind: true }, vec![], Ty::Tuple(vec![]))).is_ok());
    assert_eq!(
        is_thunk_required(&sig(Abi::Other("stdcall".into()), vec![], i32_ty()))
            .unwrap_err()
            .full_message(),
        "Calling convention other than `extern \"C\"` requires a thunk"
    );
    assert_eq!(
        is_thunk_required(&sig(
            Abi::C { unwind: false },
            vec![i32_ty(), i32_ty(), adt_ty(SOME_STRUCT, "SomeStruct")],
            i32_ty()
        ))
        .unwrap_err()
        .full_message(),
        "Type of parameter #2 requires a thunk"
    );
}
