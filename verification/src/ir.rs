//! The data model of a C++ interface: items, their types and the
//! cross-references between them.

use vstd::prelude::*;
use vstd::string::*;
use crate::error::Error;
use crate::text::{
    char_is_alphabetic, char_is_ascii_alnum, char_is_numeric, chars_of, find_first, find_last,
    first_index, hex_digit_char, hex_digit_of, is_ascii_alnum, is_ident_char, last_index,
    lemma_first_index, lemma_last_index, opt_view, push_char, str_eq, unicode_alphabetic, unicode_numeric,
};

verus! {

#[derive(Debug, PartialEq, Eq, Hash, Clone)]
pub struct HeaderName {
    pub name: String,
}

#[derive(Debug, PartialEq, Eq, Hash, Clone, Copy, Structural)]
pub struct LifetimeId(pub i32);

#[derive(Debug, PartialEq, Eq, Hash, Clone)]
pub struct LifetimeName {
    pub name: String,
    pub id: LifetimeId,
}

/// A type as Rust spells it. Without a name, the type is the one that the
/// item `decl_id` declares.
#[derive(Debug, PartialEq, Eq, Hash)]
pub struct RsType {
    pub name: Option<String>,
    pub lifetime_args: Vec<LifetimeId>,
    pub type_args: Vec<RsType>,
    pub unknown_attr: Option<String>,
    pub decl_id: Option<ItemId>,
}

/// A copy of an optional string.
pub fn copy_opt_string(s: &Option<String>) -> (r: Option<String>)
    ensures
        r is Some == s is Some,
        r matches Some(x) ==> x@ == s->0@,
        opt_view(r) == opt_view(*s),
{
    match s {
        Some(x) => Some(x.clone()),
        None => None,
    }
}

impl Clone for RsType {
    fn clone(&self) -> (r: Self)
        ensures
            rs_type_view(r) == rs_type_view(*self),
    {
        self.deep_copy()
    }
}

impl Clone for CcType {
    fn clone(&self) -> (r: Self)
        ensures
            cc_type_view(r) == cc_type_view(*self),
    {
        self.deep_copy()
    }
}

/// The values of an `RsType`.
pub struct RsTypeView {
    pub name: Option<Seq<char>>,
    pub lifetime_args: Seq<LifetimeId>,
    pub type_args: Seq<RsTypeView>,
    pub unknown_attr: Option<Seq<char>>,
    pub decl_id: Option<ItemId>,
}

/// The values of a `CcType`.
pub struct CcTypeView {
    pub name: Option<Seq<char>>,
    pub is_const: bool,
    pub type_args: Seq<CcTypeView>,
    pub decl_id: Option<ItemId>,
}

/// The values of a type of Rust.
pub open spec fn rs_type_view(t: RsType) -> RsTypeView
    decreases t, 0int,
{
    RsTypeView {
        name: opt_view(t.name),
        lifetime_args: t.lifetime_args@,
        type_args: rs_type_views(t.type_args@, t.type_args@.len() as int),
        unknown_attr: opt_view(t.unknown_attr),
        decl_id: t.decl_id,
    }
}

/// The values of the first `n` types of a list.
pub open spec fn rs_type_views(v: Seq<RsType>, n: int) -> Seq<RsTypeView>
    decreases v, n,
{
    if n <= 0 || n > v.len() {
        Seq::empty()
    } else {
        rs_type_views(v, n - 1).push(rs_type_view(v[n - 1]))
    }
}

/// The values of a type of C++.
pub open spec fn cc_type_view(t: CcType) -> CcTypeView
    decreases t, 0int,
{
    CcTypeView {
        name: opt_view(t.name),
        is_const: t.is_const,
        type_args: cc_type_views(t.type_args@, t.type_args@.len() as int),
        decl_id: t.decl_id,
    }
}

/// The values of the first `n` types of a list.
pub open spec fn cc_type_views(v: Seq<CcType>, n: int) -> Seq<CcTypeView>
    decreases v, n,
{
    if n <= 0 || n > v.len() {
        Seq::empty()
    } else {
        cc_type_views(v, n - 1).push(cc_type_view(v[n - 1]))
    }
}

/// The values of a list of types are the values of its types.
pub proof fn lemma_rs_type_views(v: Seq<RsType>, n: int)
    requires
        0 <= n <= v.len(),
    ensures
        rs_type_views(v, n).len() == n,
        forall|i: int| 0 <= i < n ==> (#[trigger] rs_type_views(v, n)[i]) == rs_type_view(v[i]),
    decreases n,
{
    if n > 0 {
        lemma_rs_type_views(v, n - 1);
    }
}

/// The values of a list of types are the values of its types.
pub proof fn lemma_cc_type_views(v: Seq<CcType>, n: int)
    requires
        0 <= n <= v.len(),
    ensures
        cc_type_views(v, n).len() == n,
        forall|i: int| 0 <= i < n ==> (#[trigger] cc_type_views(v, n)[i]) == cc_type_view(v[i]),
    decreases n,
{
    if n > 0 {
        lemma_cc_type_views(v, n - 1);
    }
}

/// A copy of the first `n` types of a list.
pub fn copy_cc_types(v: &Vec<CcType>, n: usize) -> (r: Vec<CcType>)
    requires
        n <= v@.len(),
    ensures
        r@.len() == n,
        cc_type_views(r@, n as int) == cc_type_views(v@, n as int),
    decreases v, n,
{
    if n == 0 {
        return Vec::new();
    }
    let mut r = copy_cc_types(v, n - 1);
    proof {
        vstd::std_specs::vec::axiom_vec_index_decreases(*v, n - 1);
    }
    let ghost before = r@;
    r.push(v[n - 1].deep_copy());
    proof {
        lemma_cc_type_views(before, n - 1);
        lemma_cc_type_views(r@, n as int);
        lemma_cc_type_views(v@, n as int);
        lemma_cc_type_views(v@, n - 1);
        assert forall|i: int| 0 <= i < n implies cc_type_views(r@, n as int)[i] == cc_type_views(
            v@,
            n as int,
        )[i] by {
            if i < n - 1 {
                assert(r@[i] == before[i]);
                assert(cc_type_views(before, n - 1)[i] == cc_type_view(before[i]));
                assert(cc_type_views(v@, n - 1)[i] == cc_type_view(v@[i]));
            }
        }
        assert(cc_type_views(r@, n as int) =~= cc_type_views(v@, n as int));
    }
    r
}

/// A copy of the first `n` types of a list.
pub fn copy_rs_types(v: &Vec<RsType>, n: usize) -> (r: Vec<RsType>)
    requires
        n <= v@.len(),
    ensures
        r@.len() == n,
        rs_type_views(r@, n as int) == rs_type_views(v@, n as int),
    decreases v, n,
{
    if n == 0 {
        return Vec::new();
    }
    let mut r = copy_rs_types(v, n - 1);
    proof {
        vstd::std_specs::vec::axiom_vec_index_decreases(*v, n - 1);
    }
    let ghost before = r@;
    r.push(v[n - 1].deep_copy());
    proof {
        lemma_rs_type_views(before, n - 1);
        lemma_rs_type_views(r@, n as int);
        lemma_rs_type_views(v@, n as int);
        lemma_rs_type_views(v@, n - 1);
        assert forall|i: int| 0 <= i < n implies rs_type_views(r@, n as int)[i] == rs_type_views(
            v@,
            n as int,
        )[i] by {
            if i < n - 1 {
                assert(r@[i] == before[i]);
                assert(rs_type_views(before, n - 1)[i] == rs_type_view(before[i]));
                assert(rs_type_views(v@, n - 1)[i] == rs_type_view(v@[i]));
            }
        }
        assert(rs_type_views(r@, n as int) =~= rs_type_views(v@, n as int));
    }
    r
}

/// A copy of a list of lifetime ids.
pub fn copy_lifetime_ids(v: &Vec<LifetimeId>) -> (r: Vec<LifetimeId>)
    ensures
        r@ == v@,
{
    let mut r: Vec<LifetimeId> = Vec::new();
    let mut i: usize = 0;
    while i < v.len()
        invariant
            i <= v.len(),
            r@ == v@.subrange(0, i as int),
        decreases v.len() - i,
    {
        r.push(v[i]);
        assert(r@ =~= v@.subrange(0, i + 1));
        i += 1;
    }
    assert(v@.subrange(0, v@.len() as int) =~= v@);
    r
}

impl CcType {
    /// A copy of the type with all its arguments.
    pub fn deep_copy(&self) -> (r: CcType)
        ensures
            cc_type_view(r) == cc_type_view(*self),
        decreases self, 0int,
    {
        CcType {
            name: copy_opt_string(&self.name),
            is_const: self.is_const,
            type_args: copy_cc_types(&self.type_args, self.type_args.len()),
            decl_id: self.decl_id,
        }
    }
}

impl RsType {
    /// A copy of the type with all its arguments.
    pub fn deep_copy(&self) -> (r: RsType)
        ensures
            rs_type_view(r) == rs_type_view(*self),
        decreases self, 0int,
    {
        RsType {
            name: copy_opt_string(&self.name),
            lifetime_args: copy_lifetime_ids(&self.lifetime_args),
            type_args: copy_rs_types(&self.type_args, self.type_args.len()),
            unknown_attr: copy_opt_string(&self.unknown_attr),
            decl_id: self.decl_id,
        }
    }

    /// Whether this is the type `()`.
    pub fn is_unit_type(&self) -> (r: bool)
        ensures
            r == (self.name matches Some(n) && n@ == "()"@),
    {
        match &self.name {
            Some(n) => str_eq(n.as_str(), "()"),
            None => false,
        }
    }
}

/// A type as C++ spells it. Without a name, the type is the one that the
/// item `decl_id` declares.
#[derive(Debug, PartialEq, Eq, Hash)]
pub struct CcType {
    pub name: Option<String>,
    pub is_const: bool,
    pub type_args: Vec<CcType>,
    pub decl_id: Option<ItemId>,
}

/// Types that may stand for a declared item.
pub trait TypeWithDeclId {
    spec fn declared_by(&self) -> Option<ItemId>;

    fn decl_id(&self) -> (r: Option<ItemId>)
        ensures
            r == self.declared_by(),
    ;
}

impl TypeWithDeclId for RsType {
    open spec fn declared_by(&self) -> Option<ItemId> {
        self.decl_id
    }

    fn decl_id(&self) -> (r: Option<ItemId>) {
        self.decl_id
    }
}

impl TypeWithDeclId for CcType {
    open spec fn declared_by(&self) -> Option<ItemId> {
        self.decl_id
    }

    fn decl_id(&self) -> (r: Option<ItemId>) {
        self.decl_id
    }
}

#[derive(Debug, PartialEq, Eq, Hash, Clone)]
pub struct MappedType {
    pub rs_type: RsType,
    pub cc_type: CcType,
}

#[derive(Debug, PartialEq, Eq, Hash, Clone)]
pub struct Identifier {
    pub identifier: String,
}

impl Identifier {
    /// The identifier between double quotes, as it is shown in diagnostics.
    pub fn debug_string(&self) -> (s: String)
        ensures
            s@ == "\""@ + self.identifier@ + "\""@,
    {
        let mut s = String::from_str("\"");
        s.append(self.identifier.as_str());
        s.append("\"");
        s
    }
}

#[derive(Debug, PartialEq, Eq, Hash, Copy, Clone)]
pub struct IntegerConstant {
    pub is_negative: bool,
    pub wrapped_value: u64,
}

#[derive(Debug, PartialEq, Eq, Hash, Clone)]
pub struct Operator {
    pub name: String,
}

/// The C++ spelling of an operator: a space follows the keyword when the
/// operator's name starts with a letter (`operator new`, but `operator==`).
pub open spec fn operator_cc_name(name: Seq<char>) -> Seq<char> {
    if name.len() > 0 && unicode_alphabetic(name[0]) {
        "operator"@ + " "@ + name
    } else {
        "operator"@ + ""@ + name
    }
}

impl Operator {
    pub fn cc_name(&self) -> (s: String)
        ensures
            s@ == operator_cc_name(self.name@),
    {
        let alphabetic = self.name.as_str().unicode_len() > 0 && char_is_alphabetic(
            self.name.as_str().get_char(0),
        );
        let mut s = String::from_str("operator");
        if alphabetic {
            s.append(" ");
        } else {
            s.append("");
        }
        s.append(self.name.as_str());
        s
    }

    /// The C++ spelling between double quotes, as it is shown in diagnostics.
    pub fn debug_string(&self) -> (s: String)
        ensures
            s@ == "\""@ + operator_cc_name(self.name@) + "\""@,
    {
        let mut s = String::from_str("\"");
        s.append(self.cc_name().as_str());
        s.append("\"");
        s
    }
}

/// The identity of an item within one interface description.
#[derive(Debug, PartialEq, Eq, Hash, Clone, Copy, Structural)]
pub struct ItemId(pub usize);

impl ItemId {
    pub fn new_for_testing(value: usize) -> (id: ItemId)
        ensures
            id.0 == value,
    {
        ItemId(value)
    }
}

/// A Bazel label, e.g. `//foo:bar`.
#[derive(Debug, PartialEq, Eq, Hash, Clone)]
pub struct BazelLabel(pub String);

/// The target of a label: what follows the first `:`; without one, what
/// follows the last `/`; without either, the whole label.
pub open spec fn label_target_name(label: Seq<char>) -> Seq<char> {
    match first_index(label, ':') {
        Some(i) => label.subrange(i + 1, label.len() as int),
        None => match last_index(label, '/') {
            Some(j) => label.subrange(j + 1, label.len() as int),
            None => label,
        },
    }
}

/// The package of a label: what precedes the last `:`, or the whole label.
pub open spec fn label_package_name(label: Seq<char>) -> Seq<char> {
    match last_index(label, ':') {
        Some(i) => label.subrange(0, i),
        None => label,
    }
}

/// What follows the last `/` of the package, or nothing where it has none.
pub open spec fn label_last_package_component(label: Seq<char>) -> Seq<char> {
    let package = label_package_name(label);
    match last_index(package, '/') {
        Some(j) => package.subrange(j + 1, package.len() as int),
        None => Seq::empty(),
    }
}

/// Every character that is not an ASCII letter or digit becomes `_`.
pub open spec fn underscore_non_alnum(s: Seq<char>) -> Seq<char> {
    s.map_values(
        |c: char|
            if is_ascii_alnum(c) {
                c
            } else {
                '_'
            },
    )
}

/// The target name before its characters are escaped: `core` is told apart
/// by the last package component, and a leading digit gets an `n` in front.
pub open spec fn label_target_name_adjusted(label: Seq<char>) -> Seq<char> {
    let target = label_target_name(label);
    if target == "core"@ {
        "core_"@ + label_last_package_component(label)
    } else if target.len() > 0 && unicode_numeric(target[0]) {
        seq!['n'] + target
    } else {
        target
    }
}

/// The target name as a Rust crate name.
pub open spec fn label_target_name_escaped(label: Seq<char>) -> Seq<char> {
    underscore_non_alnum(label_target_name_adjusted(label))
}

/// Whether a byte is an ASCII letter or digit.
pub open spec fn byte_is_ascii_alnum(b: u8) -> bool {
    (0x30 <= b && b <= 0x39) || (0x41 <= b && b <= 0x5a) || (0x61 <= b && b <= 0x7a)
}

/// A byte of a label inside a C++ identifier: itself where it is an ASCII
/// letter or digit, else `_` and its two hexadecimal digits.
pub open spec fn escaped_byte(b: u8) -> Seq<char> {
    if byte_is_ascii_alnum(b) {
        seq![b as char]
    } else {
        seq!['_', hex_digit_char((b / 16) as nat), hex_digit_char((b % 16) as nat)]
    }
}

/// `_` followed by the escaped forms of the first `n` bytes.
pub open spec fn cc_identifier_prefix(bytes: Seq<u8>, n: int) -> Seq<char>
    decreases n,
{
    if n <= 0 {
        seq!['_']
    } else {
        cc_identifier_prefix(bytes, n - 1) + escaped_byte(bytes[n - 1])
    }
}

/// The label as a C++ identifier.
pub open spec fn cc_identifier(bytes: Seq<u8>) -> Seq<char> {
    cc_identifier_prefix(bytes, bytes.len() as int)
}

/// An escaped label holds identifier characters only.
pub proof fn lemma_cc_identifier_chars(bytes: Seq<u8>, n: int)
    requires
        0 <= n <= bytes.len(),
    ensures
        crate::text::all_ident_chars(cc_identifier_prefix(bytes, n)),
        cc_identifier_prefix(bytes, n).len() > 0,
        cc_identifier_prefix(bytes, n)[0] == '_',
    decreases n,
{
    if n > 0 {
        lemma_cc_identifier_chars(bytes, n - 1);
        let b = bytes[n - 1];
        let e = escaped_byte(b);
        let p = cc_identifier_prefix(bytes, n - 1);
        assert forall|i: int| 0 <= i < e.len() implies is_ident_char(#[trigger] e[i]) by {
            if byte_is_ascii_alnum(b) {
                assert(e[0] == b as char);
            } else {
            }
        }
        assert forall|i: int| 0 <= i < (p + e).len() implies is_ident_char(
            #[trigger] (p + e)[i],
        ) by {
            if i < p.len() {
                assert((p + e)[i] == p[i]);
            } else {
                assert((p + e)[i] == e[i - p.len()]);
            }
        }
    }
}

impl<'a> From<&'a str> for BazelLabel {
    fn from(label: &'a str) -> (l: BazelLabel)
        ensures
            l.0@ == label@,
    {
        BazelLabel::new(label)
    }
}

impl<'a> vstd::std_specs::convert::FromSpecImpl<&'a str> for BazelLabel {
    open spec fn obeys_from_spec() -> bool {
        false
    }

    open spec fn from_spec(label: &'a str) -> BazelLabel {
        arbitrary()
    }
}

impl BazelLabel {
    /// A label with the given text.
    pub fn new(label: &str) -> (l: BazelLabel)
        ensures
            l.0@ == label@,
    {
        BazelLabel(String::from_str(label))
    }

    /// The target name, e.g. `bar` for `//foo:bar`.
    pub fn target_name(&self) -> (r: &str)
        ensures
            r@ == label_target_name(self.0@),
    {
        let s = self.0.as_str();
        let chars = chars_of(s);
        let n = chars.len();
        proof {
            lemma_first_index(chars@, ':', 0);
            lemma_last_index(chars@, '/', n as int);
        }
        match find_first(&chars, ':') {
            Some(i) => s.substring_char(i + 1, n),
            None => match find_last(&chars, '/') {
                Some(j) => s.substring_char(j + 1, n),
                None => s,
            },
        }
    }

    /// The package, e.g. `//foo` for `//foo:bar`.
    pub fn package_name(&self) -> (r: &str)
        ensures
            r@ == label_package_name(self.0@),
    {
        let s = self.0.as_str();
        let chars = chars_of(s);
        proof {
            lemma_last_index(chars@, ':', chars.len() as int);
        }
        match find_last(&chars, ':') {
            Some(i) => s.substring_char(0, i),
            None => s,
        }
    }

    /// The last component of the package, e.g. `foo` for `//x/foo:bar`.
    pub fn last_package_component(&self) -> (r: &str)
        ensures
            r@ == label_last_package_component(self.0@),
    {
        let package = self.package_name();
        let chars = chars_of(package);
        let n = chars.len();
        proof {
            lemma_last_index(chars@, '/', n as int);
        }
        match find_last(&chars, '/') {
            Some(j) => package.substring_char(j + 1, n),
            None => {
                proof {
                    reveal_strlit("");
                    assert(""@ =~= Seq::<char>::empty());
                }
                ""
            },
        }
    }

    /// The target name with every character that a Rust crate name cannot
    /// hold replaced by `_`.
    pub fn target_name_escaped(&self) -> (out: String)
        ensures
            out@ == label_target_name_escaped(self.0@),
    {
        let target = self.target_name();
        let mut adjusted: String;
        if str_eq(target, "core") {
            adjusted = String::from_str("core_");
            adjusted.append(self.last_package_component());
        } else if target.unicode_len() > 0 && char_is_numeric(target.get_char(0)) {
            adjusted = String::new();
            push_char(&mut adjusted, 'n');
            adjusted.append(target);
            assert(adjusted@ =~= seq!['n'] + target@);
        } else {
            adjusted = String::from_str(target);
        }
        assert(adjusted@ == label_target_name_adjusted(self.0@));
        let chars = chars_of(adjusted.as_str());
        let mut out = String::new();
        let mut i: usize = 0;
        while i < chars.len()
            invariant
                i <= chars.len(),
                out@ == underscore_non_alnum(chars@.take(i as int)),
            decreases chars.len() - i,
        {
            let c = chars[i];
            if char_is_ascii_alnum(c) {
                push_char(&mut out, c);
            } else {
                push_char(&mut out, '_');
            }
            assert(out@ =~= underscore_non_alnum(chars@.take(i + 1)));
            i += 1;
        }
        assert(chars@.take(chars.len() as int) =~= chars@);
        out
    }

    /// The label as a C++ identifier: a leading underscore, then each byte,
    /// those that are not ASCII letters or digits as `_xx` with `xx` the
    /// byte in hexadecimal. `//foo` becomes `__2f_2ffoo`.
    pub fn convert_to_cc_identifier(&self) -> (out: String)
        ensures
            out@ == cc_identifier(vstd::utf8::encode_utf8(self.0@)),
            crate::text::all_ident_chars(out@),
    {
        let bytes = self.0.as_str().as_bytes_vec();
        let mut out = String::new();
        push_char(&mut out, '_');
        assert(out@ =~= seq!['_']);
        let mut i: usize = 0;
        while i < bytes.len()
            invariant
                i <= bytes.len(),
                out@ == cc_identifier_prefix(bytes@, i as int),
            decreases bytes.len() - i,
        {
            let b = bytes[i];
            let ghost before = out@;
            if (0x30 <= b && b <= 0x39) || (0x41 <= b && b <= 0x5a) || (0x61 <= b && b <= 0x7a) {
                push_char(&mut out, b as char);
                assert(out@ =~= before + escaped_byte(b));
            } else {
                push_char(&mut out, '_');
                push_char(&mut out, hex_digit_of(b / 16));
                push_char(&mut out, hex_digit_of(b % 16));
                assert(out@ =~= before + escaped_byte(b));
            }
            i += 1;
        }
        proof {
            lemma_cc_identifier_chars(bytes@, bytes.len() as int);
        }
        out
    }

    /// Whether two labels have the same text.
    pub fn same_as(&self, other: &BazelLabel) -> (r: bool)
        ensures
            r == (self.0@ == other.0@),
    {
        str_eq(self.0.as_str(), other.0.as_str())
    }
}

#[derive(Debug, PartialEq, Eq, Hash, Clone)]
pub enum UnqualifiedIdentifier {
    Identifier(Identifier),
    Operator(Operator),
    Constructor,
    Destructor,
}

/// Whether two names are the same name.
pub open spec fn same_unqualified(a: UnqualifiedIdentifier, b: UnqualifiedIdentifier) -> bool {
    match (a, b) {
        (UnqualifiedIdentifier::Identifier(x), UnqualifiedIdentifier::Identifier(y)) => x.identifier@
            == y.identifier@,
        (UnqualifiedIdentifier::Operator(x), UnqualifiedIdentifier::Operator(y)) => x.name@
            == y.name@,
        (UnqualifiedIdentifier::Constructor, UnqualifiedIdentifier::Constructor) => true,
        (UnqualifiedIdentifier::Destructor, UnqualifiedIdentifier::Destructor) => true,
        _ => false,
    }
}

impl UnqualifiedIdentifier {
    /// The identifier, where the name is one.
    pub fn identifier_as_str(&self) -> (r: Option<&str>)
        ensures
            match *self {
                UnqualifiedIdentifier::Identifier(id) => r matches Some(s) && s@ == id.identifier@,
                _ => r is None,
            },
    {
        match self {
            UnqualifiedIdentifier::Identifier(identifier) => Some(identifier.identifier.as_str()),
            _ => None,
        }
    }

    /// Whether `other` is the same name.
    pub fn same_as(&self, other: &UnqualifiedIdentifier) -> (r: bool)
        ensures
            r == same_unqualified(*self, *other),
    {
        match (self, other) {
            (
                UnqualifiedIdentifier::Identifier(x),
                UnqualifiedIdentifier::Identifier(y),
            ) => str_eq(x.identifier.as_str(), y.identifier.as_str()),
            (UnqualifiedIdentifier::Operator(x), UnqualifiedIdentifier::Operator(y)) => str_eq(
                x.name.as_str(),
                y.name.as_str(),
            ),
            (UnqualifiedIdentifier::Constructor, UnqualifiedIdentifier::Constructor) => true,
            (UnqualifiedIdentifier::Destructor, UnqualifiedIdentifier::Destructor) => true,
            _ => false,
        }
    }

    /// The name as it is shown in diagnostics: identifiers and operators
    /// between double quotes, the two special names bare.
    pub fn debug_string(&self) -> (s: String)
        ensures
            s@ == match *self {
                UnqualifiedIdentifier::Identifier(id) => "\""@ + id.identifier@ + "\""@,
                UnqualifiedIdentifier::Operator(op) => "\""@ + operator_cc_name(op.name@) + "\""@,
                UnqualifiedIdentifier::Constructor => "Constructor"@,
                UnqualifiedIdentifier::Destructor => "Destructor"@,
            },
    {
        match self {
            UnqualifiedIdentifier::Identifier(identifier) => identifier.debug_string(),
            UnqualifiedIdentifier::Operator(op) => op.debug_string(),
            UnqualifiedIdentifier::Constructor => String::from_str("Constructor"),
            UnqualifiedIdentifier::Destructor => String::from_str("Destructor"),
        }
    }
}

#[derive(Copy, Clone, Debug, PartialEq, Eq, Hash, Structural)]
pub enum ReferenceQualification {
    LValue,
    RValue,
    Unqualified,
}

#[derive(Debug, PartialEq, Eq, Hash, Clone)]
pub struct InstanceMethodMetadata {
    pub reference: ReferenceQualification,
    pub is_const: bool,
    pub is_virtual: bool,
}

#[derive(Debug, PartialEq, Eq, Hash, Clone)]
pub struct MemberFuncMetadata {
    pub record_id: ItemId,
    pub instance_method_metadata: Option<InstanceMethodMetadata>,
}

#[derive(Debug, PartialEq, Eq, Hash, Clone)]
pub struct FuncParam {
    pub type_: MappedType,
    pub identifier: Identifier,
    /// A readable list of the attributes that are not understood. A
    /// parameter that has any is not bound.
    pub unknown_attr: Option<String>,
}

#[derive(Debug, PartialEq, Eq, Hash, Clone)]
pub struct Func {
    pub name: UnqualifiedIdentifier,
    pub owning_target: BazelLabel,
    pub mangled_name: String,
    pub doc_comment: Option<String>,
    pub return_type: MappedType,
    pub params: Vec<FuncParam>,
    pub lifetime_params: Vec<LifetimeName>,
    pub is_inline: bool,
    pub member_func_metadata: Option<MemberFuncMetadata>,
    pub is_extern_c: bool,
    pub is_noreturn: bool,
    /// The text of `[[nodiscard("...")]]`, empty for a bare `[[nodiscard]]`.
    pub nodiscard: Option<String>,
    /// The text of `[[deprecated("...")]]`, empty for a bare `[[deprecated]]`.
    pub deprecated: Option<String>,
    /// A readable list of the attributes that are not understood.
    pub unknown_attr: Option<String>,
    pub has_c_calling_convention: bool,
    pub is_member_or_descendant_of_class_template: bool,
    pub source_loc: String,
    pub id: ItemId,
    pub enclosing_item_id: Option<ItemId>,
    pub adl_enclosing_record: Option<ItemId>,
}

impl Func {
    /// Whether the function is a method that takes an object.
    pub fn is_instance_method(&self) -> (r: bool)
        ensures
            r == (self.member_func_metadata matches Some(meta)
                && meta.instance_method_metadata is Some),
    {
        match &self.member_func_metadata {
            Some(meta) => meta.instance_method_metadata.is_some(),
            None => false,
        }
    }
}

#[derive(Debug, PartialEq, Eq, Hash, Copy, Clone, Structural)]
pub enum AccessSpecifier {
    Public,
    Protected,
    Private,
}

/// `Result::clone`, which the derived `Clone` of a type with a `Result`
/// field calls. Nothing is claimed of its result.
pub assume_specification<T, E>[ <Result<T, E> as Clone>::clone ](r: &Result<T, E>) -> Result<T, E>
    where T: Clone, E: Clone
;

#[derive(Debug, PartialEq, Eq, Hash, Clone)]
pub struct Field {
    pub identifier: Option<Identifier>,
    pub doc_comment: Option<String>,
    /// The type, or why the field's type cannot be bound.
    pub type_: Result<MappedType, String>,
    pub access: AccessSpecifier,
    pub offset: usize,
    pub size: usize,
    /// A readable list of the attributes that are not understood.
    pub unknown_attr: Option<String>,
    pub is_no_unique_address: bool,
    pub is_bitfield: bool,
    pub is_inheritable: bool,
}

#[derive(Debug, PartialEq, Eq, Hash, Clone, Copy, Structural)]
pub enum SpecialMemberFunc {
    Trivial,
    NontrivialMembers,
    NontrivialUserDefined,
    Unavailable,
}

#[derive(Debug, PartialEq, Eq, Hash, Clone)]
pub struct BaseClass {
    pub base_record_id: ItemId,
    pub offset: Option<i64>,
}

#[derive(Debug, PartialEq, Eq, Hash, Clone)]
pub struct IncompleteRecord {
    pub cc_name: String,
    pub rs_name: String,
    pub id: ItemId,
    pub owning_target: BazelLabel,
    /// A readable list of the attributes that are not understood.
    pub unknown_attr: Option<String>,
    pub record_type: RecordType,
    pub enclosing_item_id: Option<ItemId>,
}

#[derive(Debug, PartialEq, Eq, Hash, Copy, Clone, Structural)]
pub enum RecordType {
    Struct,
    Union,
    Class,
}

impl RecordType {
    /// The C++ keyword that introduces a record of this kind.
    pub fn keyword(&self) -> (r: &'static str)
        ensures
            r@ == record_keyword(*self),
    {
        match self {
            RecordType::Struct => "struct",
            RecordType::Union => "union",
            RecordType::Class => "class",
        }
    }
}

/// The C++ keyword that introduces a record of the given kind.
pub open spec fn record_keyword(kind: RecordType) -> Seq<char> {
    match kind {
        RecordType::Struct => "struct"@,
        RecordType::Union => "union"@,
        RecordType::Class => "class"@,
    }
}

#[derive(Debug, PartialEq, Eq, Hash, Clone)]
pub struct SizeAlign {
    pub size: usize,
    pub alignment: usize,
}

#[derive(Debug, PartialEq, Eq, Hash, Clone)]
pub struct Record {
    pub rs_name: String,
    pub cc_name: String,
    pub mangled_cc_name: String,
    pub id: ItemId,
    pub owning_target: BazelLabel,
    /// The target that holds the template's definition, for an instantiation.
    pub defining_target: Option<BazelLabel>,
    /// A readable list of the attributes that are not understood.
    pub unknown_attr: Option<String>,
    pub doc_comment: Option<String>,
    pub source_loc: String,
    pub unambiguous_public_bases: Vec<BaseClass>,
    pub fields: Vec<Field>,
    pub lifetime_params: Vec<LifetimeName>,
    pub size_align: SizeAlign,
    pub is_derived_class: bool,
    pub override_alignment: bool,
    pub copy_constructor: SpecialMemberFunc,
    pub move_constructor: SpecialMemberFunc,
    pub destructor: SpecialMemberFunc,
    pub is_trivial_abi: bool,
    pub is_inheritable: bool,
    pub is_abstract: bool,
    pub record_type: RecordType,
    pub is_aggregate: bool,
    pub is_anon_record_with_typedef: bool,
    pub child_item_ids: Vec<ItemId>,
    pub enclosing_item_id: Option<ItemId>,
}

impl Record {
    /// Whether values of the type may be moved by copying their bytes, so
    /// that a plain mutable reference to one is safe.
    pub fn is_unpin(&self) -> (r: bool)
        ensures
            r == self.is_trivial_abi,
    {
        self.is_trivial_abi
    }

    pub fn is_union(&self) -> (r: bool)
        ensures
            r == (self.record_type == RecordType::Union),
    {
        match self.record_type {
            RecordType::Union => true,
            RecordType::Struct | RecordType::Class => false,
        }
    }
}

#[derive(Debug, PartialEq, Eq, Hash, Clone)]
pub struct Enum {
    pub identifier: Identifier,
    pub id: ItemId,
    pub owning_target: BazelLabel,
    pub source_loc: String,
    pub underlying_type: MappedType,
    /// The enumerators; `None` for an enum that is only declared.
    pub enumerators: Option<Vec<Enumerator>>,
    /// A readable list of the attributes that are not understood.
    pub unknown_attr: Option<String>,
    pub enclosing_item_id: Option<ItemId>,
}

#[derive(Debug, PartialEq, Eq, Hash, Clone)]
pub struct Enumerator {
    pub identifier: Identifier,
    pub value: IntegerConstant,
    /// A readable list of the attributes that are not understood.
    pub unknown_attr: Option<String>,
}

#[derive(Debug, PartialEq, Eq, Hash, Clone)]
pub struct TypeAlias {
    pub identifier: Identifier,
    pub id: ItemId,
    pub owning_target: BazelLabel,
    pub doc_comment: Option<String>,
    /// A readable list of the attributes that are not understood.
    pub unknown_attr: Option<String>,
    pub underlying_type: MappedType,
    pub source_loc: String,
    pub enclosing_item_id: Option<ItemId>,
}

impl TypeAlias {
    /// The alias as it is named in messages: `name (target, location)`.
    pub fn display_string(&self) -> (s: String)
        ensures
            s@ == self.identifier.identifier@ + " ("@ + self.owning_target.0@ + ", "@
                + self.source_loc@ + ")"@,
    {
        let mut s = self.identifier.identifier.clone();
        s.append(" (");
        s.append(self.owning_target.0.as_str());
        s.append(", ");
        s.append(self.source_loc.as_str());
        s.append(")");
        s
    }
}

#[derive(Debug, PartialEq, Eq, Hash, Clone)]
pub struct FormattedError {
    pub fmt: String,
    pub message: String,
}

impl FormattedError {
    /// The error with its message as the root cause.
    pub fn to_error(&self) -> (e: Error)
        ensures
            e@ == seq![self.message@],
    {
        Error::msg(self.message.clone())
    }
}

#[derive(Debug, PartialEq, Eq, Hash, Clone)]
pub struct UnsupportedItem {
    pub name: String,
    pub errors: Vec<FormattedError>,
    pub source_loc: Option<String>,
    pub id: ItemId,
}

#[derive(Debug, PartialEq, Eq, Hash, Clone)]
pub struct Comment {
    pub text: String,
    pub id: ItemId,
}

#[derive(Debug, PartialEq, Eq, Hash, Clone)]
pub struct Namespace {
    pub name: Identifier,
    pub id: ItemId,
    pub canonical_namespace_id: ItemId,
    /// A readable list of the attributes that are not understood.
    pub unknown_attr: Option<String>,
    pub owning_target: BazelLabel,
    pub child_item_ids: Vec<ItemId>,
    pub enclosing_item_id: Option<ItemId>,
    pub is_inline: bool,
}

#[derive(Debug, PartialEq, Eq, Hash, Clone)]
pub struct UseMod {
    pub path: String,
    pub mod_name: Identifier,
    pub id: ItemId,
}

#[derive(Debug, PartialEq, Eq, Hash, Clone)]
pub struct TypeMapOverride {
    pub rs_name: String,
    pub cc_name: String,
    pub owning_target: BazelLabel,
    pub size_align: Option<SizeAlign>,
    pub is_same_abi: bool,
    pub id: ItemId,
}

#[derive(Debug, PartialEq, Eq, Hash, Clone)]
pub enum Item {
    Func(Func),
    IncompleteRecord(IncompleteRecord),
    Record(Record),
    Enum(Enum),
    TypeAlias(TypeAlias),
    UnsupportedItem(UnsupportedItem),
    Comment(Comment),
    Namespace(Namespace),
    UseMod(UseMod),
    TypeMapOverride(TypeMapOverride),
}

/// The id of an item.
pub open spec fn item_id(item: Item) -> ItemId {
    match item {
        Item::Func(x) => x.id,
        Item::IncompleteRecord(x) => x.id,
        Item::Record(x) => x.id,
        Item::Enum(x) => x.id,
        Item::TypeAlias(x) => x.id,
        Item::UnsupportedItem(x) => x.id,
        Item::Comment(x) => x.id,
        Item::Namespace(x) => x.id,
        Item::UseMod(x) => x.id,
        Item::TypeMapOverride(x) => x.id,
    }
}

/// The id of the item that encloses an item, for the kinds that nest.
pub open spec fn item_enclosing_id(item: Item) -> Option<ItemId> {
    match item {
        Item::Record(x) => x.enclosing_item_id,
        Item::IncompleteRecord(x) => x.enclosing_item_id,
        Item::Enum(x) => x.enclosing_item_id,
        Item::Func(x) => x.enclosing_item_id,
        Item::Namespace(x) => x.enclosing_item_id,
        Item::TypeAlias(x) => x.enclosing_item_id,
        Item::Comment(_) => None,
        Item::UnsupportedItem(_) => None,
        Item::UseMod(_) => None,
        Item::TypeMapOverride(_) => None,
    }
}

/// The target in which code for an item is generated.
pub open spec fn item_owning_target(item: Item) -> Option<BazelLabel> {
    match item {
        Item::Func(x) => Some(x.owning_target),
        Item::IncompleteRecord(x) => Some(x.owning_target),
        Item::Record(x) => Some(x.owning_target),
        Item::Enum(x) => Some(x.owning_target),
        Item::TypeAlias(x) => Some(x.owning_target),
        Item::UnsupportedItem(_) => None,
        Item::Comment(_) => None,
        Item::Namespace(x) => Some(x.owning_target),
        Item::UseMod(_) => None,
        Item::TypeMapOverride(x) => Some(x.owning_target),
    }
}

/// The target that defines an item, where it differs from the owner.
pub open spec fn item_defining_target(item: Item) -> Option<BazelLabel> {
    match item {
        Item::Record(x) => x.defining_target,
        _ => None,
    }
}

/// Whether an item gives a type a new name.
pub open spec fn item_is_type_definition(item: Item) -> bool {
    item is IncompleteRecord || item is Record || item is Enum || item is TypeAlias
}

/// Where an item was declared, for the kinds that record it.
pub open spec fn item_source_loc(item: Item) -> Option<Seq<char>> {
    match item {
        Item::Func(x) => Some(x.source_loc@),
        Item::Record(x) => Some(x.source_loc@),
        Item::Enum(x) => Some(x.source_loc@),
        Item::TypeAlias(x) => Some(x.source_loc@),
        Item::UnsupportedItem(x) => match x.source_loc {
            Some(l) => Some(l@),
            None => None,
        },
        _ => None,
    }
}

/// The attributes of an item that are not understood, if it has any.
pub open spec fn item_unknown_attr(item: Item) -> Option<Seq<char>> {
    let attr = match item {
        Item::Func(x) => x.unknown_attr,
        Item::IncompleteRecord(x) => x.unknown_attr,
        Item::Record(x) => x.unknown_attr,
        Item::Enum(x) => x.unknown_attr,
        Item::TypeAlias(x) => x.unknown_attr,
        Item::Namespace(x) => x.unknown_attr,
        _ => None,
    };
    match attr {
        Some(a) => Some(a@),
        None => None,
    }
}

/// The name of an item that is not a function, as messages show it.
pub open spec fn item_plain_name(item: Item) -> Seq<char> {
    match item {
        Item::Func(x) => Seq::empty(),
        Item::IncompleteRecord(x) => x.cc_name@,
        Item::Record(x) => x.cc_name@,
        Item::Enum(x) => x.identifier.identifier@,
        Item::TypeAlias(x) => x.identifier.identifier@,
        Item::UnsupportedItem(x) => x.name@,
        Item::Comment(_) => "comment"@,
        Item::Namespace(x) => x.name.identifier@,
        Item::UseMod(x) => "[internal] use mod "@ + x.mod_name.identifier@ + "::* = "@ + x.path@,
        Item::TypeMapOverride(x) => x.cc_name@,
    }
}

/// The name of a function as messages show it, given the name of the
/// record it is a member of, if it is one.
pub open spec fn func_debug_name(name: UnqualifiedIdentifier, record: Option<Seq<char>>) -> Seq<
    char,
> {
    let record_name = match record {
        Some(r) => r,
        None => Seq::empty(),
    };
    let func_name = match name {
        UnqualifiedIdentifier::Identifier(id) => id.identifier@,
        UnqualifiedIdentifier::Operator(op) => operator_cc_name(op.name@),
        UnqualifiedIdentifier::Destructor => "~"@ + record_name,
        UnqualifiedIdentifier::Constructor => record_name,
    };
    match record {
        Some(r) => r + "::"@ + func_name,
        None => func_name,
    }
}

impl Func {
    /// The name of the function as messages show it: `Record::name` for a
    /// member, with `~Record` for a destructor and `Record` for a
    /// constructor, or the bare name for a free function.
    pub fn debug_name_in(&self, record: Option<&str>) -> (s: String)
        requires
            (self.name is Destructor || self.name is Constructor) ==> record is Some,
        ensures
            s@ == func_debug_name(
                self.name,
                match record {
                    Some(r) => Some(r@),
                    None => None,
                },
            ),
    {
        let func_name = match &self.name {
            UnqualifiedIdentifier::Identifier(id) => id.identifier.clone(),
            UnqualifiedIdentifier::Operator(op) => op.cc_name(),
            UnqualifiedIdentifier::Destructor => {
                let mut s = String::from_str("~");
                s.append(record.unwrap());
                s
            },
            UnqualifiedIdentifier::Constructor => String::from_str(record.unwrap()),
        };
        match record {
            Some(r) => {
                let mut s = String::from_str(r);
                s.append("::");
                s.append(func_name.as_str());
                s
            },
            None => func_name,
        }
    }
}

impl Item {
    pub fn id(&self) -> (r: ItemId)
        ensures
            r == item_id(*self),
    {
        match self {
            Item::Func(x) => x.id,
            Item::IncompleteRecord(x) => x.id,
            Item::Record(x) => x.id,
            Item::Enum(x) => x.id,
            Item::TypeAlias(x) => x.id,
            Item::UnsupportedItem(x) => x.id,
            Item::Comment(x) => x.id,
            Item::Namespace(x) => x.id,
            Item::UseMod(x) => x.id,
            Item::TypeMapOverride(x) => x.id,
        }
    }

    pub fn enclosing_item_id(&self) -> (r: Option<ItemId>)
        ensures
            r == item_enclosing_id(*self),
    {
        match self {
            Item::Record(record) => record.enclosing_item_id,
            Item::IncompleteRecord(record) => record.enclosing_item_id,
            Item::Enum(enum_) => enum_.enclosing_item_id,
            Item::Func(func) => func.enclosing_item_id,
            Item::Namespace(namespace) => namespace.enclosing_item_id,
            Item::TypeAlias(type_alias) => type_alias.enclosing_item_id,
            Item::Comment(_) => None,
            Item::UnsupportedItem(_) => None,
            Item::UseMod(_) => None,
            Item::TypeMapOverride(_) => None,
        }
    }

    /// The target that defines the item, where that is another than the
    /// one that owns it.
    pub fn defining_target(&self) -> (r: Option<&BazelLabel>)
        ensures
            r is Some == item_defining_target(*self) is Some,
            r matches Some(l) ==> *l == item_defining_target(*self)->0,
    {
        match self {
            Item::Record(record) => record.defining_target.as_ref(),
            _ => None,
        }
    }

    /// The target in which code for the item is generated.
    pub fn owning_target(&self) -> (r: Option<&BazelLabel>)
        ensures
            r is Some == item_owning_target(*self) is Some,
            r matches Some(l) ==> *l == item_owning_target(*self)->0,
    {
        match self {
            Item::Func(func) => Some(&func.owning_target),
            Item::IncompleteRecord(record) => Some(&record.owning_target),
            Item::Record(record) => Some(&record.owning_target),
            Item::Enum(e) => Some(&e.owning_target),
            Item::TypeAlias(type_alias) => Some(&type_alias.owning_target),
            Item::UnsupportedItem(_) => None,
            Item::Comment(_) => None,
            Item::Namespace(ns) => Some(&ns.owning_target),
            Item::UseMod(_) => None,
            Item::TypeMapOverride(type_override) => Some(&type_override.owning_target),
        }
    }

    /// Whether the item gives a type a new name.
    pub fn is_type_definition(&self) -> (r: bool)
        ensures
            r == item_is_type_definition(*self),
    {
        match self {
            Item::Func(_) => false,
            Item::IncompleteRecord(_) => true,
            Item::Record(_) => true,
            Item::Enum(_) => true,
            Item::TypeAlias(_) => true,
            Item::UnsupportedItem(_) => false,
            Item::Comment(_) => false,
            Item::Namespace(_) => false,
            Item::UseMod(_) => false,
            Item::TypeMapOverride(_) => false,
        }
    }

    /// Where the item was declared, for the kinds that record it.
    pub fn source_loc(&self) -> (r: Option<String>)
        ensures
            r is Some == item_source_loc(*self) is Some,
            r matches Some(l) ==> l@ == item_source_loc(*self)->0,
    {
        match self {
            Item::Func(x) => Some(x.source_loc.clone()),
            Item::Record(x) => Some(x.source_loc.clone()),
            Item::Enum(x) => Some(x.source_loc.clone()),
            Item::TypeAlias(x) => Some(x.source_loc.clone()),
            Item::UnsupportedItem(x) => copy_opt_string(&x.source_loc),
            _ => None,
        }
    }

    /// The attributes of the item that are not understood, if it has any.
    pub fn unknown_attr(&self) -> (r: Option<String>)
        ensures
            r is Some == item_unknown_attr(*self) is Some,
            r matches Some(a) ==> a@ == item_unknown_attr(*self)->0,
    {
        match self {
            Item::Func(x) => copy_opt_string(&x.unknown_attr),
            Item::IncompleteRecord(x) => copy_opt_string(&x.unknown_attr),
            Item::Record(x) => copy_opt_string(&x.unknown_attr),
            Item::Enum(x) => copy_opt_string(&x.unknown_attr),
            Item::TypeAlias(x) => copy_opt_string(&x.unknown_attr),
            Item::Namespace(x) => copy_opt_string(&x.unknown_attr),
            _ => None,
        }
    }

    /// The name of an item that is not a function, as messages show it.
    pub fn plain_name(&self) -> (s: String)
        ensures
            s@ == item_plain_name(*self),
    {
        match self {
            Item::Func(_) => {
                let s = String::new();
                assert(s@ =~= Seq::<char>::empty());
                s
            },
            Item::IncompleteRecord(x) => x.cc_name.clone(),
            Item::Record(x) => x.cc_name.clone(),
            Item::Enum(x) => x.identifier.identifier.clone(),
            Item::TypeAlias(x) => x.identifier.identifier.clone(),
            Item::UnsupportedItem(x) => x.name.clone(),
            Item::Comment(_) => String::from_str("comment"),
            Item::Namespace(x) => x.name.identifier.clone(),
            Item::UseMod(x) => {
                let mut s = String::from_str("[internal] use mod ");
                s.append(x.mod_name.identifier.as_str());
                s.append("::* = ");
                s.append(x.path.as_str());
                s
            },
            Item::TypeMapOverride(x) => x.cc_name.clone(),
        }
    }
}

/// A capability that a target may switch on.
#[derive(Debug, PartialEq, Eq, Hash, Clone, Copy, Structural)]
pub enum CrubitFeature {
    Supported,
    NonExternCFunctions,
    /// Never switched on without `Supported`, but it may be asked for
    /// alone, so that messages can be more direct.
    Experimental,
}

impl CrubitFeature {
    /// The name of the feature.
    pub fn short_name(&self) -> (r: &'static str)
        ensures
            r@ == feature_short_name(*self),
    {
        match self {
            Self::Supported => "supported",
            Self::NonExternCFunctions => "non_extern_c_functions",
            Self::Experimental => "experimental",
        }
    }

    /// The aspect hint that switches the feature on.
    pub fn aspect_hint(&self) -> (r: &'static str)
        ensures
            r@ == feature_aspect_hint(*self),
    {
        match self {
            Self::Supported => "//features:supported",
            Self::NonExternCFunctions => "//features:non_extern_c_functions",
            Self::Experimental => "//features:experimental",
        }
    }
}

pub open spec fn feature_short_name(f: CrubitFeature) -> Seq<char> {
    match f {
        CrubitFeature::Supported => "supported"@,
        CrubitFeature::NonExternCFunctions => "non_extern_c_functions"@,
        CrubitFeature::Experimental => "experimental"@,
    }
}

pub open spec fn feature_aspect_hint(f: CrubitFeature) -> Seq<char> {
    match f {
        CrubitFeature::Supported => "//features:supported"@,
        CrubitFeature::NonExternCFunctions => "//features:non_extern_c_functions"@,
        CrubitFeature::Experimental => "//features:experimental"@,
    }
}

/// A set of features.
#[derive(Debug, PartialEq, Eq, Hash, Clone, Copy, Structural)]
pub struct CrubitFeatures {
    pub supported: bool,
    pub non_extern_c_functions: bool,
    pub experimental: bool,
}

impl CrubitFeatures {
    pub open spec fn has(&self, f: CrubitFeature) -> bool {
        match f {
            CrubitFeature::Supported => self.supported,
            CrubitFeature::NonExternCFunctions => self.non_extern_c_functions,
            CrubitFeature::Experimental => self.experimental,
        }
    }

    pub open spec fn none(&self) -> bool {
        !self.supported && !self.non_extern_c_functions && !self.experimental
    }

    /// The set without members.
    pub fn empty() -> (s: CrubitFeatures)
        ensures
            s.none(),
    {
        CrubitFeatures { supported: false, non_extern_c_functions: false, experimental: false }
    }

    /// The set with one member.
    pub fn only(f: CrubitFeature) -> (s: CrubitFeatures)
        ensures
            forall|g: CrubitFeature| s.has(g) == (g == f),
    {
        match f {
            CrubitFeature::Supported => CrubitFeatures {
                supported: true,
                non_extern_c_functions: false,
                experimental: false,
            },
            CrubitFeature::NonExternCFunctions => CrubitFeatures {
                supported: false,
                non_extern_c_functions: true,
                experimental: false,
            },
            CrubitFeature::Experimental => CrubitFeatures {
                supported: false,
                non_extern_c_functions: false,
                experimental: true,
            },
        }
    }

    pub fn contains(&self, f: CrubitFeature) -> (r: bool)
        ensures
            r == self.has(f),
    {
        match f {
            CrubitFeature::Supported => self.supported,
            CrubitFeature::NonExternCFunctions => self.non_extern_c_functions,
            CrubitFeature::Experimental => self.experimental,
        }
    }

    pub fn is_empty(&self) -> (r: bool)
        ensures
            r == self.none(),
    {
        !self.supported && !self.non_extern_c_functions && !self.experimental
    }

    pub fn union(&self, other: CrubitFeatures) -> (s: CrubitFeatures)
        ensures
            forall|g: CrubitFeature| s.has(g) == (self.has(g) || other.has(g)),
    {
        CrubitFeatures {
            supported: self.supported || other.supported,
            non_extern_c_functions: self.non_extern_c_functions || other.non_extern_c_functions,
            experimental: self.experimental || other.experimental,
        }
    }

    pub fn intersection(&self, other: CrubitFeatures) -> (s: CrubitFeatures)
        ensures
            forall|g: CrubitFeature| s.has(g) == (self.has(g) && other.has(g)),
    {
        CrubitFeatures {
            supported: self.supported && other.supported,
            non_extern_c_functions: self.non_extern_c_functions && other.non_extern_c_functions,
            experimental: self.experimental && other.experimental,
        }
    }
}

} // verus!
