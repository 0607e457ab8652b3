//! Identifiers of the two languages: which names can be written as they
//! are, which need escaping, and which cannot be used at all.

use vstd::prelude::*;
use vstd::string::*;
use crate::error::Error;
use crate::text::{
    all_ident_chars, chars_of, hex_digit_char, hex_digit_of, is_ascii_digit, is_ident_char,
    push_char, str_eq,
};

verus! {

/// The words that C++ reserves.
pub open spec fn is_cc_keyword(s: Seq<char>) -> bool {
    s == "alignas"@
        || s == "alignof"@
        || s == "and"@
        || s == "and_eq"@
        || s == "asm"@
        || s == "atomic_cancel"@
        || s == "atomic_commit"@
        || s == "atomic_noexcept"@
        || s == "auto"@
        || s == "bitand"@
        || s == "bitor"@
        || s == "bool"@
        || s == "break"@
        || s == "case"@
        || s == "catch"@
        || s == "char"@
        || s == "char8_t"@
        || s == "char16_t"@
        || s == "char32_t"@
        || s == "class"@
        || s == "compl"@
        || s == "concept"@
        || s == "const"@
        || s == "consteval"@
        || s == "constexpr"@
        || s == "constinit"@
        || s == "const_cast"@
        || s == "continue"@
        || s == "co_await"@
        || s == "co_return"@
        || s == "co_yield"@
        || s == "decltype"@
        || s == "default"@
        || s == "delete"@
        || s == "do"@
        || s == "double"@
        || s == "dynamic_cast"@
        || s == "else"@
        || s == "enum"@
        || s == "explicit"@
        || s == "export"@
        || s == "extern"@
        || s == "false"@
        || s == "float"@
        || s == "for"@
        || s == "friend"@
        || s == "goto"@
        || s == "if"@
        || s == "inline"@
        || s == "int"@
        || s == "long"@
        || s == "mutable"@
        || s == "namespace"@
        || s == "new"@
        || s == "noexcept"@
        || s == "not"@
        || s == "not_eq"@
        || s == "nullptr"@
        || s == "operator"@
        || s == "or"@
        || s == "or_eq"@
        || s == "private"@
        || s == "protected"@
        || s == "public"@
        || s == "reflexpr"@
        || s == "register"@
        || s == "reinterpret_cast"@
        || s == "requires"@
        || s == "return"@
        || s == "short"@
        || s == "signed"@
        || s == "sizeof"@
        || s == "static"@
        || s == "static_assert"@
        || s == "static_cast"@
        || s == "struct"@
        || s == "switch"@
        || s == "synchronized"@
        || s == "template"@
        || s == "this"@
        || s == "thread_local"@
        || s == "throw"@
        || s == "true"@
        || s == "try"@
        || s == "typedef"@
        || s == "typeid"@
        || s == "typename"@
        || s == "union"@
        || s == "unsigned"@
        || s == "using"@
        || s == "virtual"@
        || s == "void"@
        || s == "volatile"@
        || s == "wchar_t"@
        || s == "while"@
        || s == "xor"@
        || s == "xor_eq"@
}

/// Whether `s` is a word that C++ reserves.
pub fn check_cc_keyword(s: &str) -> (r: bool)
    ensures
        r == is_cc_keyword(s@),
{
    if str_eq(s, "alignas") {
        return true;
    }
    if str_eq(s, "alignof") {
        return true;
    }
    if str_eq(s, "and") {
        return true;
    }
    if str_eq(s, "and_eq") {
        return true;
    }
    if str_eq(s, "asm") {
        return true;
    }
    if str_eq(s, "atomic_cancel") {
        return true;
    }
    if str_eq(s, "atomic_commit") {
        return true;
    }
    if str_eq(s, "atomic_noexcept") {
        return true;
    }
    if str_eq(s, "auto") {
        return true;
    }
    if str_eq(s, "bitand") {
        return true;
    }
    if str_eq(s, "bitor") {
        return true;
    }
    if str_eq(s, "bool") {
        return true;
    }
    if str_eq(s, "break") {
        return true;
    }
    if str_eq(s, "case") {
        return true;
    }
    if str_eq(s, "catch") {
        return true;
    }
    if str_eq(s, "char") {
        return true;
    }
    if str_eq(s, "char8_t") {
        return true;
    }
    if str_eq(s, "char16_t") {
        return true;
    }
    if str_eq(s, "char32_t") {
        return true;
    }
    if str_eq(s, "class") {
        return true;
    }
    if str_eq(s, "compl") {
        return true;
    }
    if str_eq(s, "concept") {
        return true;
    }
    if str_eq(s, "const") {
        return true;
    }
    if str_eq(s, "consteval") {
        return true;
    }
    if str_eq(s, "constexpr") {
        return true;
    }
    if str_eq(s, "constinit") {
        return true;
    }
    if str_eq(s, "const_cast") {
        return true;
    }
    if str_eq(s, "continue") {
        return true;
    }
    if str_eq(s, "co_await") {
        return true;
    }
    if str_eq(s, "co_return") {
        return true;
    }
    if str_eq(s, "co_yield") {
        return true;
    }
    if str_eq(s, "decltype") {
        return true;
    }
    if str_eq(s, "default") {
        return true;
    }
    if str_eq(s, "delete") {
        return true;
    }
    if str_eq(s, "do") {
        return true;
    }
    if str_eq(s, "double") {
        return true;
    }
    if str_eq(s, "dynamic_cast") {
        return true;
    }
    if str_eq(s, "else") {
        return true;
    }
    if str_eq(s, "enum") {
        return true;
    }
    if str_eq(s, "explicit") {
        return true;
    }
    if str_eq(s, "export") {
        return true;
    }
    if str_eq(s, "extern") {
        return true;
    }
    if str_eq(s, "false") {
        return true;
    }
    if str_eq(s, "float") {
        return true;
    }
    if str_eq(s, "for") {
        return true;
    }
    if str_eq(s, "friend") {
        return true;
    }
    if str_eq(s, "goto") {
        return true;
    }
    if str_eq(s, "if") {
        return true;
    }
    if str_eq(s, "inline") {
        return true;
    }
    if str_eq(s, "int") {
        return true;
    }
    if str_eq(s, "long") {
        return true;
    }
    if str_eq(s, "mutable") {
        return true;
    }
    if str_eq(s, "namespace") {
        return true;
    }
    if str_eq(s, "new") {
        return true;
    }
    if str_eq(s, "noexcept") {
        return true;
    }
    if str_eq(s, "not") {
        return true;
    }
    if str_eq(s, "not_eq") {
        return true;
    }
    if str_eq(s, "nullptr") {
        return true;
    }
    if str_eq(s, "operator") {
        return true;
    }
    if str_eq(s, "or") {
        return true;
    }
    if str_eq(s, "or_eq") {
        return true;
    }
    if str_eq(s, "private") {
        return true;
    }
    if str_eq(s, "protected") {
        return true;
    }
    if str_eq(s, "public") {
        return true;
    }
    if str_eq(s, "reflexpr") {
        return true;
    }
    if str_eq(s, "register") {
        return true;
    }
    if str_eq(s, "reinterpret_cast") {
        return true;
    }
    if str_eq(s, "requires") {
        return true;
    }
    if str_eq(s, "return") {
        return true;
    }
    if str_eq(s, "short") {
        return true;
    }
    if str_eq(s, "signed") {
        return true;
    }
    if str_eq(s, "sizeof") {
        return true;
    }
    if str_eq(s, "static") {
        return true;
    }
    if str_eq(s, "static_assert") {
        return true;
    }
    if str_eq(s, "static_cast") {
        return true;
    }
    if str_eq(s, "struct") {
        return true;
    }
    if str_eq(s, "switch") {
        return true;
    }
    if str_eq(s, "synchronized") {
        return true;
    }
    if str_eq(s, "template") {
        return true;
    }
    if str_eq(s, "this") {
        return true;
    }
    if str_eq(s, "thread_local") {
        return true;
    }
    if str_eq(s, "throw") {
        return true;
    }
    if str_eq(s, "true") {
        return true;
    }
    if str_eq(s, "try") {
        return true;
    }
    if str_eq(s, "typedef") {
        return true;
    }
    if str_eq(s, "typeid") {
        return true;
    }
    if str_eq(s, "typename") {
        return true;
    }
    if str_eq(s, "union") {
        return true;
    }
    if str_eq(s, "unsigned") {
        return true;
    }
    if str_eq(s, "using") {
        return true;
    }
    if str_eq(s, "virtual") {
        return true;
    }
    if str_eq(s, "void") {
        return true;
    }
    if str_eq(s, "volatile") {
        return true;
    }
    if str_eq(s, "wchar_t") {
        return true;
    }
    if str_eq(s, "while") {
        return true;
    }
    if str_eq(s, "xor") {
        return true;
    }
    if str_eq(s, "xor_eq") {
        return true;
    }
    false
}

/// The words that Rust reserves, in any edition.
pub open spec fn is_rs_keyword(s: Seq<char>) -> bool {
    s == "as"@
        || s == "async"@
        || s == "await"@
        || s == "break"@
        || s == "const"@
        || s == "continue"@
        || s == "crate"@
        || s == "dyn"@
        || s == "else"@
        || s == "enum"@
        || s == "extern"@
        || s == "false"@
        || s == "fn"@
        || s == "for"@
        || s == "if"@
        || s == "impl"@
        || s == "in"@
        || s == "let"@
        || s == "loop"@
        || s == "match"@
        || s == "mod"@
        || s == "move"@
        || s == "mut"@
        || s == "pub"@
        || s == "ref"@
        || s == "return"@
        || s == "self"@
        || s == "Self"@
        || s == "static"@
        || s == "struct"@
        || s == "super"@
        || s == "trait"@
        || s == "true"@
        || s == "type"@
        || s == "unsafe"@
        || s == "use"@
        || s == "where"@
        || s == "while"@
        || s == "abstract"@
        || s == "become"@
        || s == "box"@
        || s == "do"@
        || s == "final"@
        || s == "macro"@
        || s == "override"@
        || s == "priv"@
        || s == "try"@
        || s == "typeof"@
        || s == "unsized"@
        || s == "virtual"@
        || s == "yield"@
}

/// Whether `s` is a word that Rust reserves.
pub fn check_rs_keyword(s: &str) -> (r: bool)
    ensures
        r == is_rs_keyword(s@),
{
    if str_eq(s, "as") {
        return true;
    }
    if str_eq(s, "async") {
        return true;
    }
    if str_eq(s, "await") {
        return true;
    }
    if str_eq(s, "break") {
        return true;
    }
    if str_eq(s, "const") {
        return true;
    }
    if str_eq(s, "continue") {
        return true;
    }
    if str_eq(s, "crate") {
        return true;
    }
    if str_eq(s, "dyn") {
        return true;
    }
    if str_eq(s, "else") {
        return true;
    }
    if str_eq(s, "enum") {
        return true;
    }
    if str_eq(s, "extern") {
        return true;
    }
    if str_eq(s, "false") {
        return true;
    }
    if str_eq(s, "fn") {
        return true;
    }
    if str_eq(s, "for") {
        return true;
    }
    if str_eq(s, "if") {
        return true;
    }
    if str_eq(s, "impl") {
        return true;
    }
    if str_eq(s, "in") {
        return true;
    }
    if str_eq(s, "let") {
        return true;
    }
    if str_eq(s, "loop") {
        return true;
    }
    if str_eq(s, "match") {
        return true;
    }
    if str_eq(s, "mod") {
        return true;
    }
    if str_eq(s, "move") {
        return true;
    }
    if str_eq(s, "mut") {
        return true;
    }
    if str_eq(s, "pub") {
        return true;
    }
    if str_eq(s, "ref") {
        return true;
    }
    if str_eq(s, "return") {
        return true;
    }
    if str_eq(s, "self") {
        return true;
    }
    if str_eq(s, "Self") {
        return true;
    }
    if str_eq(s, "static") {
        return true;
    }
    if str_eq(s, "struct") {
        return true;
    }
    if str_eq(s, "super") {
        return true;
    }
    if str_eq(s, "trait") {
        return true;
    }
    if str_eq(s, "true") {
        return true;
    }
    if str_eq(s, "type") {
        return true;
    }
    if str_eq(s, "unsafe") {
        return true;
    }
    if str_eq(s, "use") {
        return true;
    }
    if str_eq(s, "where") {
        return true;
    }
    if str_eq(s, "while") {
        return true;
    }
    if str_eq(s, "abstract") {
        return true;
    }
    if str_eq(s, "become") {
        return true;
    }
    if str_eq(s, "box") {
        return true;
    }
    if str_eq(s, "do") {
        return true;
    }
    if str_eq(s, "final") {
        return true;
    }
    if str_eq(s, "macro") {
        return true;
    }
    if str_eq(s, "override") {
        return true;
    }
    if str_eq(s, "priv") {
        return true;
    }
    if str_eq(s, "try") {
        return true;
    }
    if str_eq(s, "typeof") {
        return true;
    }
    if str_eq(s, "unsized") {
        return true;
    }
    if str_eq(s, "virtual") {
        return true;
    }
    if str_eq(s, "yield") {
        return true;
    }
    false
}

/// A name made of ASCII letters, digits and underscores that does not start
/// with a digit.
pub open spec fn is_plain_identifier(s: Seq<char>) -> bool {
    s.len() > 0 && !is_ascii_digit(s[0]) && all_ident_chars(s)
}

/// Whether `s` is a plain identifier.
pub fn check_plain_identifier(s: &str) -> (r: bool)
    ensures
        r == is_plain_identifier(s@),
{
    let chars = chars_of(s);
    if chars.len() == 0 {
        return false;
    }
    if crate::text::char_is_ascii_digit(chars[0]) {
        return false;
    }
    let mut i: usize = 0;
    while i < chars.len()
        invariant
            i <= chars.len(),
            chars@ == s@,
            forall|j: int| 0 <= j < i ==> is_ident_char(#[trigger] chars@[j]),
        decreases chars.len() - i,
    {
        let c = chars[i];
        if !(crate::text::char_is_ascii_alnum(c) || c == '_') {
            assert(!is_ident_char(s@[i as int]));
            return false;
        }
        i += 1;
    }
    true
}

/// What `proc_macro2::TokenStream` prints for the tokens that it reads from
/// `s`, or `None` where `s` is not a sequence of tokens.
pub uninterp spec fn token_text(s: Seq<char>) -> Option<Seq<char>>;

/// Reads `s` with `proc_macro2::TokenStream::from_str` and prints the tokens
/// back with `to_string`. Nothing is claimed of the text but that it is the
/// same for the same input.
#[verifier::external_body]
pub(crate) fn tokenize(s: &str) -> (r: Option<String>)
    ensures
        r is Some == token_text(s@) is Some,
        r matches Some(t) ==> token_text(s@) == Some(t@),
{
    match s.parse::<proc_macro2::TokenStream>() {
        Ok(tokens) => Some(tokens.to_string()),
        Err(_) => None,
    }
}

/// What `proc_macro2::Literal::string` prints for `s`: the text between
/// double quotes, with the characters escaped that Rust asks to be.
pub uninterp spec fn string_literal_text(s: Seq<char>) -> Seq<char>;

/// Calls `proc_macro2::Literal::string` and prints the literal. The escaping
/// rules are not restated here; the result is only given a name.
#[verifier::external_body]
pub(crate) fn string_literal(s: &str) -> (r: String)
    ensures
        r@ == string_literal_text(s@),
{
    proc_macro2::Literal::string(s).to_string()
}

/// The outcome of writing a name as C++ tokens, given what the tokenizer
/// made of it.
pub open spec fn cc_ident_outcome(ident: Seq<char>, tokens: Option<Seq<char>>) -> Result<
    Seq<char>,
    Seq<Seq<char>>,
> {
    if ident.len() == 0 {
        Err(seq!["Empty string is not a valid C++ identifier"@])
    } else if is_cc_keyword(ident) {
        Err(
            seq![
                "`"@ + ident + "` is a C++ reserved keyword and can't be used as a C++ identifier"@,
            ],
        )
    } else if is_plain_identifier(ident) {
        Ok(ident)
    } else if is_ascii_digit(ident[0]) {
        Err(seq!["Can't format `"@ + ident + "` as a C++ identifier"@])
    } else {
        match tokens {
            Some(t) => Ok(t),
            None => Err(seq!["Can't format `"@ + ident + "` as a C++ identifier"@]),
        }
    }
}

/// A name as C++ tokens. The empty name and the words that C++ reserves are
/// refused; a plain identifier stands for itself; a text that starts with
/// a digit is refused; any other text is read as tokens (so that a
/// qualified name such as `a::b` can be given) and refused where it is
/// none.
pub open spec fn cc_ident(ident: Seq<char>) -> Result<Seq<char>, Seq<Seq<char>>> {
    cc_ident_outcome(ident, token_text(ident))
}

/// Decides how a name is written in C++, from the name and from what the
/// tokenizer made of it.
pub fn cc_ident_from_tokens(ident: &str, tokens: Option<String>) -> (r: Result<String, Error>)
    ensures
        match cc_ident_outcome(
            ident@,
            match tokens {
                Some(t) => Some(t@),
                None => None,
            },
        ) {
            Ok(t) => r matches Ok(s) && s@ == t,
            Err(e) => r matches Err(x) && x@ == e,
        },
{
    if ident.unicode_len() == 0 {
        return Err(Error::new("Empty string is not a valid C++ identifier"));
    }
    if check_cc_keyword(ident) {
        let mut m = String::from_str("`");
        m.append(ident);
        m.append("` is a C++ reserved keyword and can't be used as a C++ identifier");
        return Err(Error::msg(m));
    }
    if check_plain_identifier(ident) {
        return Ok(String::from_str(ident));
    }
    if crate::text::char_is_ascii_digit(ident.get_char(0)) {
        let mut m = String::from_str("Can't format `");
        m.append(ident);
        m.append("` as a C++ identifier");
        return Err(Error::msg(m));
    }
    match tokens {
        Some(t) => Ok(t),
        None => {
            let mut m = String::from_str("Can't format `");
            m.append(ident);
            m.append("` as a C++ identifier");
            Err(Error::msg(m))
        },
    }
}

/// Writes a name as C++ tokens.
pub fn format_cc_ident(ident: &str) -> (r: Result<String, Error>)
    ensures
        match cc_ident(ident@) {
            Ok(t) => r matches Ok(s) && s@ == t,
            Err(e) => r matches Err(x) && x@ == e,
        },
{
    cc_ident_from_tokens(ident, tokenize(ident))
}

/// A name as a Rust identifier: a reserved word is written raw.
pub open spec fn rs_ident(ident: Seq<char>) -> Seq<char> {
    if is_rs_keyword(ident) {
        "r#"@ + ident
    } else {
        ident
    }
}

/// Writes a name as a Rust identifier.
pub fn make_rs_ident(ident: &str) -> (r: String)
    ensures
        r@ == rs_ident(ident@),
{
    if check_rs_keyword(ident) {
        let mut s = String::from_str("r#");
        s.append(ident);
        s
    } else {
        String::from_str(ident)
    }
}

/// One byte of a symbol inside an identifier: letters and digits stand for
/// themselves, `_` becomes `_u`, `$` becomes `_d`, `.` becomes `_p`, and any
/// other byte becomes `_x` and its two hexadecimal digits.
pub open spec fn escaped_symbol_byte(b: u8) -> Seq<char> {
    if crate::ir::byte_is_ascii_alnum(b) {
        seq![b as char]
    } else if b == 0x5f {
        seq!['_', 'u']
    } else if b == 0x24 {
        seq!['_', 'd']
    } else if b == 0x2e {
        seq!['_', 'p']
    } else {
        seq!['_', 'x', hex_digit_char((b / 16) as nat), hex_digit_char((b % 16) as nat)]
    }
}

/// The escaped forms of the first `n` bytes, one after another.
pub open spec fn escaped_symbol_prefix(bytes: Seq<u8>, n: int) -> Seq<char>
    decreases n,
{
    if n <= 0 {
        Seq::empty()
    } else {
        escaped_symbol_prefix(bytes, n - 1) + escaped_symbol_byte(bytes[n - 1])
    }
}

/// A linker symbol with every byte escaped that an identifier cannot hold.
pub open spec fn escaped_symbol(symbol: Seq<char>) -> Seq<char> {
    let bytes = vstd::utf8::encode_utf8(symbol);
    escaped_symbol_prefix(bytes, bytes.len() as int)
}

/// An escaped symbol holds identifier characters only.
pub proof fn lemma_escaped_symbol_chars(bytes: Seq<u8>, n: int)
    requires
        0 <= n <= bytes.len(),
    ensures
        all_ident_chars(escaped_symbol_prefix(bytes, n)),
    decreases n,
{
    if n > 0 {
        lemma_escaped_symbol_chars(bytes, n - 1);
        let b = bytes[n - 1];
        let e = escaped_symbol_byte(b);
        let p = escaped_symbol_prefix(bytes, n - 1);
        assert forall|i: int| 0 <= i < e.len() implies is_ident_char(#[trigger] e[i]) by {
            if crate::ir::byte_is_ascii_alnum(b) {
                assert(e[0] == b as char);
            }
        }
        assert forall|i: int| 0 <= i < (p + e).len() implies is_ident_char(
            #[trigger] (p + e)[i],
        ) by {
            if i < p.len() {
                assert((p + e)[i] == p[i]);
            } else {
                assert((p + e)[i] == e[i - p.len()]);
            }
        }
    }
}

/// Escapes the bytes of a linker symbol that an identifier cannot hold.
pub fn escape_non_identifier_chars(symbol: &str) -> (out: String)
    ensures
        out@ == escaped_symbol(symbol@),
        all_ident_chars(out@),
{
    let bytes = symbol.as_bytes_vec();
    let mut out = String::new();
    assert(out@ =~= Seq::<char>::empty());
    let mut i: usize = 0;
    while i < bytes.len()
        invariant
            i <= bytes.len(),
            out@ == escaped_symbol_prefix(bytes@, i as int),
        decreases bytes.len() - i,
    {
        let b = bytes[i];
        let ghost before = out@;
        if (0x30 <= b && b <= 0x39) || (0x41 <= b && b <= 0x5a) || (0x61 <= b && b <= 0x7a) {
            push_char(&mut out, b as char);
        } else if b == 0x5f {
            push_char(&mut out, '_');
            push_char(&mut out, 'u');
        } else if b == 0x24 {
            push_char(&mut out, '_');
            push_char(&mut out, 'd');
        } else if b == 0x2e {
            push_char(&mut out, '_');
            push_char(&mut out, 'p');
        } else {
            push_char(&mut out, '_');
            push_char(&mut out, 'x');
            push_char(&mut out, hex_digit_of(b / 16));
            push_char(&mut out, hex_digit_of(b % 16));
        }
        assert(out@ =~= before + escaped_symbol_byte(b));
        i += 1;
    }
    proof {
        lemma_escaped_symbol_chars(bytes@, bytes.len() as int);
    }
    out
}

} // verus!
