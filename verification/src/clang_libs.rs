//! Which of the libraries of a compiler installation the program links.

use vstd::prelude::*;
use vstd::string::*;
use crate::text::chars_of;

verus! {

/// Whether `s` holds `pattern` from position `i` on.
pub open spec fn matches_at(s: Seq<char>, pattern: Seq<char>, i: int) -> bool {
    0 <= i && i + pattern.len() <= s.len() && s.subrange(i, i + pattern.len()) == pattern
}

/// Whether a text starts with another.
pub open spec fn text_starts_with(s: Seq<char>, pattern: Seq<char>) -> bool {
    matches_at(s, pattern, 0)
}

/// Whether a text ends with another.
pub open spec fn text_ends_with(s: Seq<char>, pattern: Seq<char>) -> bool {
    matches_at(s, pattern, s.len() - pattern.len())
}

/// Whether a text holds another.
pub open spec fn text_contains(s: Seq<char>, pattern: Seq<char>) -> bool {
    exists|i: int| #[trigger] matches_at(s, pattern, i)
}

/// Whether `s` holds `pattern` from position `i` on.
pub fn check_matches_at(s: &Vec<char>, pattern: &Vec<char>, i: usize) -> (r: bool)
    ensures
        r == matches_at(s@, pattern@, i as int),
{
    if pattern.len() > s.len() || i > s.len() - pattern.len() {
        return false;
    }
    let mut k: usize = 0;
    while k < pattern.len()
        invariant
            k <= pattern.len(),
            i + pattern.len() <= s.len(),
            s@.subrange(i as int, i + k) == pattern@.subrange(0, k as int),
        decreases pattern.len() - k,
    {
        if s[i + k] != pattern[k] {
            assert(s@.subrange(i as int, i + pattern.len())[k as int] != pattern@[k as int]);
            return false;
        }
        assert(s@.subrange(i as int, i + k + 1) =~= s@.subrange(i as int, i + k).push(s@[i + k]));
        assert(pattern@.subrange(0, k + 1) =~= pattern@.subrange(0, k as int).push(
            pattern@[k as int],
        ));
        k += 1;
    }
    assert(pattern@.subrange(0, pattern.len() as int) =~= pattern@);
    true
}

/// Whether a text starts with another.
pub fn starts_with(s: &str, pattern: &str) -> (r: bool)
    ensures
        r == text_starts_with(s@, pattern@),
{
    check_matches_at(&chars_of(s), &chars_of(pattern), 0)
}

/// Whether a text ends with another.
pub fn ends_with(s: &str, pattern: &str) -> (r: bool)
    ensures
        r == text_ends_with(s@, pattern@),
{
    let a = chars_of(s);
    let b = chars_of(pattern);
    if b.len() > a.len() {
        return false;
    }
    check_matches_at(&a, &b, a.len() - b.len())
}

/// Whether a text holds another.
pub fn contains(s: &str, pattern: &str) -> (r: bool)
    ensures
        r == text_contains(s@, pattern@),
{
    let a = chars_of(s);
    let b = chars_of(pattern);
    if b.len() > a.len() {
        assert forall|i: int| !#[trigger] matches_at(s@, pattern@, i) by {}
        return false;
    }
    let last = a.len() - b.len();
    let mut i: usize = 0;
    while i < last
        invariant
            i <= last,
            last == a.len() - b.len(),
            b.len() <= a.len(),
            a@ == s@,
            b@ == pattern@,
            forall|j: int| 0 <= j < i ==> !#[trigger] matches_at(s@, pattern@, j),
        decreases last - i,
    {
        if check_matches_at(&a, &b, i) {
            return true;
        }
        i += 1;
    }
    if check_matches_at(&a, &b, last) {
        return true;
    }
    assert forall|j: int| !#[trigger] matches_at(s@, pattern@, j) by {}
    false
}

/// Whether a library is linked. Left out are the libraries with a `main`
/// of their own, the backends for targets, the language server, the
/// linter and the linker.
pub open spec fn is_included_lib(libname: Seq<char>) -> bool {
    !text_ends_with(libname, "Main"@) && !(text_starts_with(libname, "LLVMX86"@)
        || text_starts_with(libname, "LLVMWebAssem"@) || text_starts_with(libname, "LLVMRISCV"@)
        || text_starts_with(libname, "LLVMMips"@) || text_starts_with(libname, "LLVMLoongArch"@)
        || text_starts_with(libname, "LLVMARM"@) || text_starts_with(libname, "LLVMAArch"@))
        && !(text_contains(libname, "clangd"@) || text_contains(libname, "clangTidy"@))
        && !text_starts_with(libname, "lld"@)
}

/// Whether a library is linked.
pub fn include_lib(libname: &str) -> (r: bool)
    ensures
        r == is_included_lib(libname@),
{
    if ends_with(libname, "Main") {
        return false;
    }
    if starts_with(libname, "LLVMX86") || starts_with(libname, "LLVMWebAssem") || starts_with(
        libname,
        "LLVMRISCV",
    ) || starts_with(libname, "LLVMMips") || starts_with(libname, "LLVMLoongArch") || starts_with(
        libname,
        "LLVMARM",
    ) || starts_with(libname, "LLVMAArch") {
        return false;
    }
    if contains(libname, "clangd") || contains(libname, "clangTidy") {
        return false;
    }
    if starts_with(libname, "lld") {
        return false;
    }
    true
}

} // verus!
