//! Qualified names: the path of an item through its crate's modules, written
//! for C++ as a path through namespaces and for Rust as a path from the
//! crate's root.

use vstd::prelude::*;
use vstd::string::*;
use crate::cc_ident::{cc_ident, format_cc_ident, make_rs_ident, rs_ident};
use crate::error::Error;
use crate::text::{opt_view, views};

verus! {

/// The namespaces, outermost first, in which an item lies.
#[derive(Debug)]
pub struct NamespaceQualifier(pub Vec<String>);

/// The first `n` components as C++ tokens, each followed by `::`; the error
/// of the first component that cannot be written.
pub open spec fn cc_path_prefix(parts: Seq<Seq<char>>, n: int) -> Result<Seq<char>, Seq<Seq<char>>>
    decreases n,
{
    if n <= 0 || n > parts.len() {
        Ok(Seq::empty())
    } else {
        match cc_path_prefix(parts, n - 1) {
            Err(e) => Err(e),
            Ok(before) => match cc_ident(parts[n - 1]) {
                Err(e) => Err(e),
                Ok(t) => Ok(before + t + " :: "@),
            },
        }
    }
}

/// The first `n` components as Rust tokens, each followed by `::`.
pub open spec fn rs_path_prefix(parts: Seq<Seq<char>>, n: int) -> Seq<char>
    decreases n,
{
    if n <= 0 || n > parts.len() {
        Seq::empty()
    } else {
        rs_path_prefix(parts, n - 1) + rs_ident(parts[n - 1]) + " :: "@
    }
}

/// The first `n` components as C++ tokens with `::` between each two; the
/// error of the first component that cannot be written.
pub open spec fn cc_nested_name(parts: Seq<Seq<char>>, n: int) -> Result<Seq<char>, Seq<Seq<char>>>
    decreases n,
{
    if n <= 0 || n > parts.len() {
        Ok(Seq::empty())
    } else if n == 1 {
        match cc_ident(parts[0]) {
            Err(e) => Err(e),
            Ok(t) => Ok(t + " "@),
        }
    } else {
        match cc_nested_name(parts, n - 1) {
            Err(e) => Err(e),
            Ok(before) => match cc_ident(parts[n - 1]) {
                Err(e) => Err(e),
                Ok(t) => Ok(before + ":: "@ + t + " "@),
            },
        }
    }
}

/// A body inside the namespaces of a qualifier, which the attributes
/// precede. At the top level the body stands alone.
pub open spec fn namespace_block(
    parts: Seq<Seq<char>>,
    body: Seq<char>,
    attributes: Seq<char>,
) -> Result<Seq<char>, Seq<Seq<char>>> {
    if parts.len() == 0 {
        Ok(body)
    } else {
        match cc_nested_name(parts, parts.len() as int) {
            Err(e) => Err(e),
            Ok(name) => Ok(
                "__NEWLINE__ "@ + attributes + "namespace "@ + name + "{ __NEWLINE__ "@ + body
                    + "__NEWLINE__ } __NEWLINE__ "@,
            ),
        }
    }
}

/// A text result and the function's result agree.
pub open spec fn text_result_is(
    r: Result<String, Error>,
    expected: Result<Seq<char>, Seq<Seq<char>>>,
) -> bool {
    match expected {
        Ok(t) => r matches Ok(s) && s@ == t,
        Err(e) => r matches Err(x) && x@ == e,
    }
}

impl NamespaceQualifier {
    pub open spec fn parts(&self) -> Seq<Seq<char>> {
        views(self.0@)
    }

    /// The path as C++ tokens: each namespace followed by `::`.
    pub fn format_for_cc(&self) -> (r: Result<String, Error>)
        ensures
            text_result_is(r, cc_path_prefix(self.parts(), self.0.len() as int)),
    {
        let mut out = String::new();
        assert(out@ =~= Seq::<char>::empty());
        let mut i: usize = 0;
        while i < self.0.len()
            invariant
                i <= self.0.len(),
                cc_path_prefix(self.parts(), i as int) == Ok::<Seq<char>, Seq<Seq<char>>>(out@),
            decreases self.0.len() - i,
        {
            assert(self.parts()[i as int] == self.0@[i as int]@);
            match format_cc_ident(self.0[i].as_str()) {
                Err(e) => {
                    proof {
                        lemma_cc_path_error(self.parts(), i as int + 1, self.0.len() as int);
                    }
                    return Err(e);
                },
                Ok(t) => {
                    out.append(t.as_str());
                    out.append(" :: ");
                },
            }
            i += 1;
        }
        Ok(out)
    }

    /// The path as Rust tokens: each module followed by `::`.
    pub fn format_for_rs(&self) -> (r: String)
        ensures
            r@ == rs_path_prefix(self.parts(), self.0.len() as int),
    {
        let mut out = String::new();
        assert(out@ =~= Seq::<char>::empty());
        let mut i: usize = 0;
        while i < self.0.len()
            invariant
                i <= self.0.len(),
                out@ == rs_path_prefix(self.parts(), i as int),
            decreases self.0.len() - i,
        {
            assert(self.parts()[i as int] == self.0@[i as int]@);
            out.append(make_rs_ident(self.0[i].as_str()).as_str());
            out.append(" :: ");
            i += 1;
        }
        out
    }

    /// The namespaces as one nested name, `a :: b`.
    pub fn format_nested_name(&self) -> (r: Result<String, Error>)
        ensures
            text_result_is(r, cc_nested_name(self.parts(), self.0.len() as int)),
    {
        let mut out = String::new();
        assert(out@ =~= Seq::<char>::empty());
        let mut i: usize = 0;
        while i < self.0.len()
            invariant
                i <= self.0.len(),
                cc_nested_name(self.parts(), i as int) == Ok::<Seq<char>, Seq<Seq<char>>>(out@),
            decreases self.0.len() - i,
        {
            assert(self.parts()[i as int] == self.0@[i as int]@);
            match format_cc_ident(self.0[i].as_str()) {
                Err(e) => {
                    proof {
                        lemma_cc_nested_error(self.parts(), i as int + 1, self.0.len() as int);
                    }
                    return Err(e);
                },
                Ok(t) => {
                    if i > 0 {
                        out.append(":: ");
                    } else {
                        assert(out@ + t@ =~= t@);
                    }
                    out.append(t.as_str());
                    out.append(" ");
                },
            }
            i += 1;
        }
        Ok(out)
    }

    /// The body inside the namespaces, opened with the given attributes.
    pub fn format_with_cc_body(&self, body: &str, attributes: &str) -> (r: Result<String, Error>)
        ensures
            text_result_is(r, namespace_block(self.parts(), body@, attributes@)),
    {
        if self.0.len() == 0 {
            return Ok(String::from_str(body));
        }
        match self.format_nested_name() {
            Err(e) => Err(e),
            Ok(name) => {
                let mut out = String::from_str("__NEWLINE__ ");
                out.append(attributes);
                out.append("namespace ");
                out.append(name.as_str());
                out.append("{ __NEWLINE__ ");
                out.append(body);
                out.append("__NEWLINE__ } __NEWLINE__ ");
                Ok(out)
            },
        }
    }

    /// Whether two qualifiers name the same namespaces.
    pub fn same_as(&self, other: &NamespaceQualifier) -> (r: bool)
        ensures
            r == (self.parts() == other.parts()),
    {
        if self.0.len() != other.0.len() {
            assert(self.parts().len() != other.parts().len());
            return false;
        }
        let mut i: usize = 0;
        while i < self.0.len()
            invariant
                i <= self.0.len(),
                self.0.len() == other.0.len(),
                forall|j: int| 0 <= j < i ==> self.parts()[j] == other.parts()[j],
            decreases self.0.len() - i,
        {
            assert(self.parts()[i as int] == self.0@[i as int]@);
            assert(other.parts()[i as int] == other.0@[i as int]@);
            if !crate::text::str_eq(self.0[i].as_str(), other.0[i].as_str()) {
                return false;
            }
            i += 1;
        }
        assert(self.parts() =~= other.parts());
        true
    }
}

/// Once a component fails, so does every longer path.
pub proof fn lemma_cc_path_error(parts: Seq<Seq<char>>, n: int, m: int)
    requires
        0 <= n <= m <= parts.len(),
        cc_path_prefix(parts, n) is Err,
    ensures
        cc_path_prefix(parts, m) == cc_path_prefix(parts, n),
    decreases m - n,
{
    if n < m {
        lemma_cc_path_error(parts, n, m - 1);
    }
}

/// Once a component fails, so does every longer nested name.
pub proof fn lemma_cc_nested_error(parts: Seq<Seq<char>>, n: int, m: int)
    requires
        0 <= n <= m <= parts.len(),
        cc_nested_name(parts, n) is Err,
    ensures
        cc_nested_name(parts, m) == cc_nested_name(parts, n),
    decreases m - n,
{
    if n < m {
        lemma_cc_nested_error(parts, n, m - 1);
    }
}

/// The qualified name of an item.
#[derive(Debug)]
pub struct FullyQualifiedName {
    /// The crate that defines the item: `std` for `std::cmp::Ordering`.
    pub krate: String,
    /// The modules on the way to the item: `cmp` for `std::cmp::Ordering`.
    pub mod_path: NamespaceQualifier,
    /// The item's own name; `None` for the items that have none.
    pub name: Option<String>,
    /// The C++ type that the item was made from, where it says so.
    pub cc_type: Option<String>,
}

/// The qualified C++ name of an item: its C++ type where it was made from
/// one, else `:: crate :: module :: name`.
pub open spec fn qualified_cc_name(
    krate: Seq<char>,
    mod_path: Seq<Seq<char>>,
    name: Option<Seq<char>>,
    cc_type: Option<Seq<char>>,
) -> Result<Seq<char>, Seq<Seq<char>>> {
    match cc_type {
        Some(path) => match cc_ident(path) {
            Err(e) => Err(e),
            Ok(t) => Ok(t + " "@),
        },
        None => match name {
            None => Err(seq!["An item without a name has no C++ name"@]),
            Some(name) => match cc_ident(krate) {
                Err(e) => Err(e),
                Ok(top) => match cc_path_prefix(mod_path, mod_path.len() as int) {
                    Err(e) => Err(e),
                    Ok(path) => match cc_ident(name) {
                        Err(e) => Err(e),
                        Ok(n) => Ok(":: "@ + top + " :: "@ + path + n + " "@),
                    },
                },
            },
        },
    }
}

/// The qualified Rust name of an item, `:: crate :: module :: name`, without
/// a space after it.
pub open spec fn qualified_rs_name(
    krate: Seq<char>,
    mod_path: Seq<Seq<char>>,
    name: Seq<char>,
) -> Seq<char> {
    ":: "@ + rs_ident(krate) + " :: "@ + rs_path_prefix(mod_path, mod_path.len() as int) + rs_ident(
        name,
    )
}

impl FullyQualifiedName {
    /// The name as C++ tokens.
    pub fn format_for_cc(&self) -> (r: Result<String, Error>)
        ensures
            text_result_is(
                r,
                qualified_cc_name(
                    self.krate@,
                    self.mod_path.parts(),
                    opt_view(self.name),
                    opt_view(self.cc_type),
                ),
            ),
    {
        if let Some(path) = &self.cc_type {
            return match format_cc_ident(path.as_str()) {
                Err(e) => Err(e),
                Ok(t) => {
                    let mut out = t;
                    out.append(" ");
                    Ok(out)
                },
            };
        }
        let name = match &self.name {
            None => {
                return Err(Error::new("An item without a name has no C++ name"));
            },
            Some(n) => n,
        };
        let top = match format_cc_ident(self.krate.as_str()) {
            Err(e) => {
                return Err(e);
            },
            Ok(t) => t,
        };
        let path = match self.mod_path.format_for_cc() {
            Err(e) => {
                return Err(e);
            },
            Ok(p) => p,
        };
        let n = match format_cc_ident(name.as_str()) {
            Err(e) => {
                return Err(e);
            },
            Ok(n) => n,
        };
        let mut out = String::from_str(":: ");
        out.append(top.as_str());
        out.append(" :: ");
        out.append(path.as_str());
        out.append(n.as_str());
        out.append(" ");
        Ok(out)
    }

    /// The name as Rust tokens, without a space after it.
    pub fn format_for_rs(&self) -> (r: String)
        requires
            self.name is Some,
        ensures
            r@ == qualified_rs_name(self.krate@, self.mod_path.parts(), self.name->0@),
    {
        let mut out = String::from_str(":: ");
        out.append(make_rs_ident(self.krate.as_str()).as_str());
        out.append(" :: ");
        out.append(self.mod_path.format_for_rs().as_str());
        match &self.name {
            Some(n) => {
                out.append(make_rs_ident(n.as_str()).as_str());
            },
            None => {},
        }
        out
    }
}

} // verus!
