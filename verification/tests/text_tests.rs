use interop_bindings::cc_ident::{
    cc_ident_from_tokens, check_cc_keyword, check_plain_identifier, check_rs_keyword,
    escape_non_identifier_chars, format_cc_ident, make_rs_ident,
};
use interop_bindings::clang_libs::{contains, ends_with, starts_with};
use interop_bindings::error::Error;
use interop_bindings::names::{FullyQualifiedName, NamespaceQualifier};
use interop_bindings::prereqs::{
    ApiSnippets, CcInclude, CcPrerequisites, CcSnippet, IdSet, IncludeSet,
};
use interop_bindings::text::{
    chars_of, compare_text, decimal_string, find_first, find_last, join_strings,
    signed_decimal_string, TextOrder,
};
use interop_bindings::thunks::{format_comment, format_thunk_param_name, insert_name_sorted};
use interop_bindings::toposort::toposort;

fn strings(parts: &[&str]) -> Vec<String> {
    parts.iter().map(|p| p.to_string()).collect()
}

fn id_set(ids: &[usize]) -> IdSet {
    let mut s = IdSet::new();
    for i in ids {
        s.insert(*i);
    }
    s
}

#[test]
fn numbers_as_text() {
    assert_eq!(decimal_string(0), "0");
    assert_eq!(decimal_string(7), "7");
    assert_eq!(decimal_string(1203), "1203");
    assert_eq!(decimal_string(u64::MAX), "18446744073709551615");
    assert_eq!(signed_decimal_string(0), "0");
    assert_eq!(signed_decimal_string(-1), "-1");
    assert_eq!(signed_decimal_string(i32::MIN), "-2147483648");
    assert_eq!(signed_decimal_string(i32::MAX), "2147483647");
}

#[test]
fn texts_are_joined_with_a_separator() {
    assert_eq!(join_strings(&strings(&[]), ", "), "");
    assert_eq!(join_strings(&strings(&["a"]), ", "), "a");
    assert_eq!(join_strings(&strings(&["a", "b", "c"]), ", "), "a, b, c");
    assert_eq!(join_strings(&strings(&["", ""]), "-"), "-");
}

#[test]
fn texts_compare_in_dictionary_order() {
    assert_eq!(compare_text("", ""), TextOrder::Same);
    assert_eq!(compare_text("abc", "abc"), TextOrder::Same);
    assert_eq!(compare_text("ab", "abc"), TextOrder::Before);
    assert_eq!(compare_text("abc", "ab"), TextOrder::After);
    assert_eq!(compare_text("abd", "abc"), TextOrder::After);
    assert_eq!(compare_text("Z", "a"), TextOrder::Before);
    for (a, b) in [("x", "y"), ("memory", "cstdint"), ("", "a"), ("ä", "z")] {
        let expected = match a.chars().cmp(b.chars()) {
            std::cmp::Ordering::Less => TextOrder::Before,
            std::cmp::Ordering::Equal => TextOrder::Same,
            std::cmp::Ordering::Greater => TextOrder::After,
        };
        assert_eq!(compare_text(a, b), expected);
    }
}

#[test]
fn characters_are_found_from_both_ends() {
    let text = chars_of("//foo/bar:baz");
    assert_eq!(text.len(), 13);
    assert_eq!(find_first(&text, '/'), Some(0));
    assert_eq!(find_last(&text, '/'), Some(5));
    assert_eq!(find_first(&text, ':'), Some(9));
    assert_eq!(find_last(&text, ':'), Some(9));
    assert_eq!(find_first(&text, '#'), None);
    assert_eq!(find_last(&text, '#'), None);
    assert_eq!(find_first(&chars_of(""), 'a'), None);
}

#[test]
fn parts_of_a_text() {
    assert!(starts_with("libclangSema.a", "libclang"));
    assert!(!starts_with("lib", "libclang"));
    assert!(starts_with("anything", ""));
    assert!(ends_with("libclangSema.a", ".a"));
    assert!(!ends_with("a", ".a"));
    assert!(contains("libLLVMCore.a", "LLVM"));
    assert!(contains("abc", ""));
    assert!(!contains("libLLVMCore.a", "llvm"));
    assert!(contains("aab", "ab"));
}

#[test]
fn an_error_keeps_its_contexts_outermost_first() {
    let e = Error::new("root cause");
    assert_eq!(e.outermost(), "root cause");
    assert_eq!(e.full_message(), "root cause");
    let e = e.context("while reading".to_string()).context("at the top".to_string());
    assert_eq!(e.outermost(), "at the top");
    assert_eq!(e.full_message(), "at the top: while reading: root cause");
    assert_eq!(Error::msg("m".to_string()).full_message(), "m");
}

#[test]
fn reserved_words_of_both_languages() {
    for word in ["reinterpret_cast", "int", "class", "namespace", "co_await", "alignas"] {
        assert!(check_cc_keyword(word), "{word}");
    }
    for word in ["reinterpret", "Int", "", "fn", "r#type"] {
        assert!(!check_cc_keyword(word), "{word}");
    }
    for word in ["fn", "type", "dyn", "impl", "async", "match"] {
        assert!(check_rs_keyword(word), "{word}");
    }
    for word in ["reinterpret_cast", "int", "", "Fn"] {
        assert!(!check_rs_keyword(word), "{word}");
    }
}

#[test]
fn names_as_identifiers() {
    assert_eq!(format_cc_ident("foo").unwrap(), "foo");
    assert_eq!(format_cc_ident("_x1").unwrap(), "_x1");
    assert_eq!(
        format_cc_ident("").unwrap_err().full_message(),
        "Empty string is not a valid C++ identifier"
    );
    assert_eq!(
        format_cc_ident("reinterpret_cast").unwrap_err().full_message(),
        "`reinterpret_cast` is a C++ reserved keyword and can't be used as a C++ identifier"
    );
    assert_eq!(
        format_cc_ident("0").unwrap_err().full_message(),
        "Can't format `0` as a C++ identifier"
    );
    assert_eq!(
        format_cc_ident("(").unwrap_err().full_message(),
        "Can't format `(` as a C++ identifier"
    );
    // What is no plain identifier is read as tokens and printed again.
    assert_eq!(format_cc_ident("a::b").unwrap(), "a :: b");
    assert_eq!(format_cc_ident("std::vector<int>").unwrap(), "std :: vector < int >");

    assert_eq!(cc_ident_from_tokens("x y", Some("x y".to_string())).unwrap(), "x y");
    assert_eq!(cc_ident_from_tokens("plain", None).unwrap(), "plain");
    assert_eq!(
        cc_ident_from_tokens("x)", None).unwrap_err().full_message(),
        "Can't format `x)` as a C++ identifier"
    );
    assert_eq!(
        cc_ident_from_tokens("", Some(String::new())).unwrap_err().full_message(),
        "Empty string is not a valid C++ identifier"
    );

    assert!(check_plain_identifier("a_1"));
    assert!(!check_plain_identifier("1a"));
    assert!(!check_plain_identifier(""));
    assert!(!check_plain_identifier("a-b"));
    assert!(!check_plain_identifier("é"));

    assert_eq!(make_rs_ident("foo"), "foo");
    assert_eq!(make_rs_ident("type"), "r#type");
    assert_eq!(make_rs_ident("reinterpret_cast"), "reinterpret_cast");
}

#[test]
fn symbols_inside_identifiers() {
    assert_eq!(escape_non_identifier_chars(""), "");
    assert_eq!(escape_non_identifier_chars("abc123"), "abc123");
    assert_eq!(escape_non_identifier_chars("a_b"), "a_ub");
    assert_eq!(escape_non_identifier_chars("a$b.c"), "a_db_pc");
    assert_eq!(escape_non_identifier_chars("a-b"), "a_x2db");
    assert_eq!(escape_non_identifier_chars("é"), "_xc3_xa9");
    // Different symbols stay different.
    assert_ne!(escape_non_identifier_chars("a_x2d"), escape_non_identifier_chars("a-"));
}

#[test]
fn namespaces_as_paths() {
    let none = NamespaceQualifier(vec![]);
    let two = NamespaceQualifier(strings(&["outer", "type"]));
    assert_eq!(none.format_for_cc().unwrap(), "");
    assert_eq!(none.format_for_rs(), "");
    assert_eq!(two.format_for_cc().unwrap(), "outer :: type :: ");
    assert_eq!(two.format_for_rs(), "outer :: r#type :: ");
    assert_eq!(two.format_nested_name().unwrap(), "outer :: type ");
    assert_eq!(none.format_with_cc_body("body ", "").unwrap(), "body ");
    assert_eq!(
        two.format_with_cc_body("body ", "[[deprecated]] ").unwrap(),
        "__NEWLINE__ [[deprecated]] namespace outer :: type { __NEWLINE__ body __NEWLINE__ } __NEWLINE__ "
    );
    let reserved = NamespaceQualifier(strings(&["ok", "class"]));
    let message = "`class` is a C++ reserved keyword and can't be used as a C++ identifier";
    assert_eq!(reserved.format_for_cc().unwrap_err().full_message(), message);
    assert_eq!(reserved.format_nested_name().unwrap_err().full_message(), message);
    assert_eq!(reserved.format_with_cc_body("b ", "").unwrap_err().full_message(), message);
    assert_eq!(reserved.format_for_rs(), "ok :: class :: ");
    assert!(two.same_as(&NamespaceQualifier(strings(&["outer", "type"]))));
    assert!(!two.same_as(&none));
}

#[test]
fn qualified_names() {
    let name = FullyQualifiedName {
        krate: "krate".to_string(),
        mod_path: NamespaceQualifier(strings(&["m"])),
        name: Some("S".to_string()),
        cc_type: None,
    };
    assert_eq!(name.format_for_cc().unwrap(), ":: krate :: m :: S ");
    assert_eq!(name.format_for_rs(), ":: krate :: m :: S");
    let mapped = FullyQualifiedName { cc_type: Some("std::string".to_string()), ..name };
    assert_eq!(mapped.format_for_cc().unwrap(), "std :: string ");
    let unnamed = FullyQualifiedName {
        krate: "krate".to_string(),
        mod_path: NamespaceQualifier(vec![]),
        name: None,
        cc_type: None,
    };
    assert_eq!(
        unnamed.format_for_cc().unwrap_err().full_message(),
        "An item without a name has no C++ name"
    );
}

#[test]
fn sets_of_ids() {
    let mut s = IdSet::new();
    assert!(s.is_empty());
    for i in [5, 1, 3, 1, 5] {
        s.insert(i);
    }
    assert!(!s.is_empty());
    assert_eq!(s.to_vec(), vec![1, 3, 5]);
    assert_eq!(s.to_sorted_vec(), vec![1, 3, 5]);
    assert!(s.contains(3));
    assert!(!s.contains(2));
    s.remove(3);
    s.remove(4);
    assert_eq!(s.to_vec(), vec![1, 5]);
    s.extend(&id_set(&[0, 5, 9]));
    assert_eq!(s.to_vec(), vec![0, 1, 5, 9]);
    assert_eq!(s.copy().to_vec(), vec![0, 1, 5, 9]);
}

#[test]
fn headers_come_out_in_order_and_once() {
    let mut s = IncludeSet::new();
    assert!(s.is_empty());
    assert_eq!(s.to_tokens(), "");
    s.insert(CcInclude::user_header("b.h"));
    s.insert(CcInclude::memory());
    s.insert(CcInclude::support_lib_header("<support/{header}>", "x.h"));
    s.insert(CcInclude::cstdint());
    s.insert(CcInclude::user_header("a.h"));
    s.insert(CcInclude::memory());
    assert_eq!(
        s.to_tokens(),
        "__HASH_TOKEN__ include < cstdint > __NEWLINE__ \
         __HASH_TOKEN__ include < memory > __NEWLINE__ __NEWLINE__ \
         __HASH_TOKEN__ include \"a.h\" __NEWLINE__ \
         __HASH_TOKEN__ include \"b.h\" __NEWLINE__ \
         __HASH_TOKEN__ include < support / x . h > __NEWLINE__ "
    );
    assert_eq!(s.to_sorted_tokens(), s.to_tokens());
    let mut other = IncludeSet::new();
    other.extend_from_list(&vec![CcInclude::utility(), CcInclude::user_header("a.h")]);
    s.extend(&other);
    assert!(s.copy().to_tokens().starts_with("__HASH_TOKEN__ include < cstdint > __NEWLINE__ "));
    assert_eq!(s.to_tokens().matches("__HASH_TOKEN__").count(), 6);
    assert_eq!(CcInclude::cstddef().to_tokens(), "__HASH_TOKEN__ include < cstddef > __NEWLINE__ ");
    assert_eq!(
        CcInclude::type_traits().to_tokens(),
        "__HASH_TOKEN__ include < type_traits > __NEWLINE__ "
    );
    assert_eq!(CcInclude::cstdint().compare(&CcInclude::user_header("a")), TextOrder::Before);
    assert_eq!(CcInclude::user_header("a").compare(&CcInclude::user_header("a")), TextOrder::Same);
    assert_eq!(
        CcInclude::support_lib_header("f", "a").compare(&CcInclude::user_header("z")),
        TextOrder::After
    );
}

#[test]
fn what_a_snippet_needs_travels_with_its_tokens() {
    let mut needs = CcPrerequisites::new();
    assert!(needs.is_empty());
    let tokens = CcSnippet::with_include("std :: int32_t ".to_string(), CcInclude::cstdint())
        .into_tokens(&mut needs);
    assert_eq!(tokens, "std :: int32_t ");
    assert!(!needs.is_empty());
    assert_eq!(needs.includes.to_tokens(), "__HASH_TOKEN__ include < cstdint > __NEWLINE__ ");

    let mut more = CcPrerequisites::new();
    more.defs.insert(4);
    more.fwd_decls.insert(2);
    needs.add_assign(more);
    assert_eq!(needs.defs.to_vec(), vec![4]);
    assert_eq!(needs.fwd_decls.to_vec(), vec![2]);
    let mut weak = needs.copy();
    weak.move_defs_to_fwd_decls();
    assert!(weak.defs.is_empty());
    assert_eq!(weak.fwd_decls.to_vec(), vec![2, 4]);
    assert_eq!(needs.defs.to_vec(), vec![4]);

    let mut snippet = CcSnippet::new("a ".to_string());
    let mut second = CcSnippet::new("b ".to_string());
    second.prereqs.defs.insert(9);
    snippet.add_assign(second);
    assert_eq!(snippet.tokens, "a b ");
    assert_eq!(snippet.prereqs.defs.to_vec(), vec![9]);
    assert_eq!(CcSnippet::empty().tokens, "");
}

#[test]
fn bundles_are_put_one_after_another() {
    let mut first = ApiSnippets::main_only("a ".to_string());
    first.rs_details = "ra ".to_string();
    first.main_api.prereqs.defs.insert(1);
    let mut second = ApiSnippets::empty();
    second.main_api = CcSnippet::new("b ".to_string());
    second.cc_details = CcSnippet::with_include("cb ".to_string(), CcInclude::utility());
    second.rs_details = "rb ".to_string();
    second.main_api.prereqs.defs.insert(2);
    let all = ApiSnippets::from_iter(vec![first, second]);
    assert_eq!(all.main_api.tokens, "a b ");
    assert_eq!(all.cc_details.tokens, "cb ");
    assert_eq!(all.rs_details, "ra rb ");
    assert_eq!(all.main_api.prereqs.defs.to_vec(), vec![1, 2]);
    assert_eq!(
        all.cc_details.prereqs.includes.to_tokens(),
        "__HASH_TOKEN__ include < utility > __NEWLINE__ "
    );
    let none = ApiSnippets::from_iter(vec![]);
    assert_eq!(none.main_api.tokens, "");
    assert_eq!(none.rs_details, "");
}

#[test]
fn what_is_needed_comes_first() {
    // 3 needs 1 and 2; 1 needs 2.
    let r = toposort(&vec![3, 1, 2], &vec![id_set(&[1, 2]), id_set(&[2]), id_set(&[])]);
    assert_eq!(r.ordered, vec![2, 1, 3]);
    assert!(r.failed.is_empty());
    // Without needs the given order is kept.
    let r = toposort(&vec![7, 5, 6], &vec![id_set(&[]), id_set(&[]), id_set(&[])]);
    assert_eq!(r.ordered, vec![7, 5, 6]);
    // A need that is no node holds nothing up.
    let r = toposort(&vec![1], &vec![id_set(&[99])]);
    assert_eq!(r.ordered, vec![1]);
    assert!(r.failed.is_empty());
    let r = toposort(&vec![], &vec![]);
    assert!(r.ordered.is_empty() && r.failed.is_empty());
}

#[test]
fn a_circle_of_needs_cannot_be_ordered() {
    // 1 and 2 need one another, 3 needs 1, 4 stands alone.
    let r = toposort(
        &vec![1, 2, 3, 4],
        &vec![id_set(&[2]), id_set(&[1]), id_set(&[1]), id_set(&[])],
    );
    assert_eq!(r.ordered, vec![4]);
    assert_eq!(r.failed, vec![1, 2, 3]);
    let r = toposort(&vec![1], &vec![id_set(&[1])]);
    assert!(r.ordered.is_empty());
    assert_eq!(r.failed, vec![1]);
}

#[test]
fn comments_and_parameter_names() {
    assert_eq!(format_comment("hello"), "__COMMENT__ \"hello\" ");
    assert_eq!(format_comment("say \"hi\"\n"), "__COMMENT__ \"say \\\"hi\\\"\\n\" ");
    assert_eq!(format_thunk_param_name("x", 0), "x");
    let mut names = strings(&["b", "d"]);
    insert_name_sorted(&mut names, "c".to_string());
    insert_name_sorted(&mut names, "a".to_string());
    insert_name_sorted(&mut names, "d".to_string());
    insert_name_sorted(&mut names, "e".to_string());
    assert_eq!(names, strings(&["a", "b", "c", "d", "e"]));
}
