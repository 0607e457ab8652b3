//! What a piece of C++ text needs before it: headers, full definitions of
//! other items, and forward declarations of other items.

use vstd::prelude::*;
use vstd::string::*;
use crate::cc_ident::{string_literal, string_literal_text, token_text, tokenize};
use crate::text::{
    compare_text, lemma_text_lt_asymmetric, lemma_text_lt_transitive, replace_all, replace_text,
    text_lt, TextOrder,
};

verus! {

/// A set of item indices, kept in increasing order so that walking it is
/// the same on every run.
#[derive(Debug)]
pub struct IdSet {
    ids: Vec<usize>,
}

/// Strictly increasing.
pub open spec fn increasing(s: Seq<usize>) -> bool {
    forall|i: int, j: int| 0 <= i < j < s.len() ==> s[i] < s[j]
}

impl View for IdSet {
    type V = Set<usize>;

    closed spec fn view(&self) -> Set<usize> {
        Set::new(|x: usize| self.ids@.contains(x))
    }
}

impl IdSet {
    /// The members are kept in increasing order.
    #[verifier::type_invariant]
    pub closed spec fn wf(self) -> bool {
        increasing(self.ids@)
    }

    /// The members in increasing order.
    pub closed spec fn ordered(&self) -> Seq<usize> {
        self.ids@
    }

    /// `ordered` lists exactly the members, once each and increasing.
    pub proof fn lemma_ordered(self)
        requires
            self.wf(),
        ensures
            increasing(self.ordered()),
            forall|x: usize| self.ordered().contains(x) == self@.contains(x),
    {
    }

    /// The empty set.
    pub fn new() -> (s: IdSet)
        ensures
            s@ == Set::<usize>::empty(),
    {
        let s = IdSet { ids: Vec::new() };
        assert(s@ =~= Set::<usize>::empty());
        s
    }

    pub fn is_empty(&self) -> (r: bool)
        ensures
            r == (self@ == Set::<usize>::empty()),
    {
        let r = self.ids.len() == 0;
        proof {
            if r {
                assert(self@ =~= Set::<usize>::empty());
            } else {
                assert(self.ids@.contains(self.ids@[0]));
                assert(self@.contains(self.ids@[0]));
            }
        }
        r
    }

    pub fn contains(&self, id: usize) -> (r: bool)
        ensures
            r == self@.contains(id),
    {
        let mut i: usize = 0;
        while i < self.ids.len()
            invariant
                i <= self.ids.len(),
                forall|j: int| 0 <= j < i ==> self.ids@[j] != id,
            decreases self.ids.len() - i,
        {
            if self.ids[i] == id {
                return true;
            }
            i += 1;
        }
        false
    }

    /// Adds a member.
    pub fn insert(&mut self, id: usize)
        ensures
            final(self)@ == old(self)@.insert(id),
    {
        proof {
            use_type_invariant(&*self);
        }
        let mut i: usize = 0;
        while i < self.ids.len() && self.ids[i] < id
            invariant
                i <= self.ids.len(),
                self.ids@ == old(self).ids@,
                forall|j: int| 0 <= j < i ==> self.ids@[j] < id,
            decreases self.ids.len() - i,
        {
            i += 1;
        }
        if i < self.ids.len() && self.ids[i] == id {
            assert(old(self).ids@.contains(id));
            assert(self@ =~= old(self)@.insert(id));
            return ;
        }
        let ghost before = self.ids@;
        let mut taken = IdSet { ids: Vec::new() };
        std::mem::swap(self, &mut taken);
        let IdSet { ids: mut ids } = taken;
        ids.insert(i, id);
        proof {
            let after = ids@;
            assert(after == before.insert(i as int, id));
            assert(increasing(after));
        }
        *self = IdSet { ids };
        proof {
            let after = self.ids@;
            assert forall|x: usize| after.contains(x) == (before.contains(x) || x == id) by {
                if before.contains(x) {
                    let k = choose|k: int| 0 <= k < before.len() && before[k] == x;
                    if k < i {
                        assert(after[k] == x);
                    } else {
                        assert(after[k + 1] == x);
                    }
                }
                if x == id {
                    assert(after[i as int] == x);
                }
                if after.contains(x) {
                    let k = choose|k: int| 0 <= k < after.len() && after[k] == x;
                    if k < i {
                        assert(before[k] == x);
                    } else if k > i {
                        assert(before[k - 1] == x);
                    }
                }
            }
            assert(self@ =~= old(self)@.insert(id));
        }
    }

    /// Adds every member of `other`.
    pub fn extend(&mut self, other: &IdSet)
        ensures
            final(self)@ == old(self)@.union(other@),
    {
        let mut i: usize = 0;
        while i < other.ids.len()
            invariant
                i <= other.ids.len(),
                forall|x: usize|
                    self@.contains(x) == (old(self)@.contains(x) || exists|j: int|
                        0 <= j < i && other.ids@[j] == x),
            decreases other.ids.len() - i,
        {
            self.insert(other.ids[i]);
            i += 1;
        }
        assert(self@ =~= old(self)@.union(other@));
    }

    /// Removes a member, if it is one.
    pub fn remove(&mut self, id: usize)
        ensures
            final(self)@ == old(self)@.remove(id),
    {
        proof {
            use_type_invariant(&*self);
        }
        let mut i: usize = 0;
        while i < self.ids.len() && self.ids[i] != id
            invariant
                i <= self.ids.len(),
                self.ids@ == old(self).ids@,
                forall|j: int| 0 <= j < i ==> self.ids@[j] != id,
            decreases self.ids.len() - i,
        {
            i += 1;
        }
        if i == self.ids.len() {
            assert(self@ =~= old(self)@.remove(id));
            return ;
        }
        let ghost before = self.ids@;
        let mut taken = IdSet { ids: Vec::new() };
        std::mem::swap(self, &mut taken);
        let IdSet { ids: mut ids } = taken;
        ids.remove(i);
        proof {
            let after = ids@;
            assert(after == before.remove(i as int));
            assert(increasing(after));
        }
        *self = IdSet { ids };
        proof {
            let after = self.ids@;
            assert forall|x: usize| after.contains(x) == (before.contains(x) && x != id) by {
                if before.contains(x) && x != id {
                    let k = choose|k: int| 0 <= k < before.len() && before[k] == x;
                    if k < i {
                        assert(after[k] == x);
                    } else {
                        assert(k != i);
                        assert(after[k - 1] == x);
                    }
                }
                if after.contains(x) {
                    let k = choose|k: int| 0 <= k < after.len() && after[k] == x;
                    if k < i {
                        assert(before[k] == x);
                    } else {
                        assert(before[k + 1] == x);
                        assert(before[i as int] < before[k + 1]);
                    }
                }
            }
            assert(self@ =~= old(self)@.remove(id));
        }
    }

    /// The members in increasing order.
    pub fn to_vec(&self) -> (v: Vec<usize>)
        ensures
            v@ == self.ordered(),
    {
        self.ids.clone()
    }

    /// A copy of the set.
    pub fn copy(&self) -> (s: IdSet)
        ensures
            s@ == self@,
            s.ordered() == self.ordered(),
    {
        proof {
            use_type_invariant(self);
        }
        IdSet { ids: self.ids.clone() }
    }
}

/// A header that C++ text needs.
#[derive(Debug, Clone, PartialEq, Eq)]
pub enum CcInclude {
    /// A header of the C++ standard library, named without brackets.
    SystemHeader(String),
    /// Any other header, by its path.
    UserHeader(String),
    /// A header of the support library: the format of its path, in which
    /// `{header}` stands for the header's name, and that name.
    SupportLibHeader(String, String),
}

/// What identifies and orders a header: the kind (standard headers first,
/// support headers last) and then its texts in dictionary order.
pub struct IncludeKey {
    pub rank: int,
    pub first: Seq<char>,
    pub second: Seq<char>,
}

impl View for CcInclude {
    type V = IncludeKey;

    open spec fn view(&self) -> IncludeKey {
        match *self {
            CcInclude::SystemHeader(p) => IncludeKey { rank: 0, first: p@, second: Seq::empty() },
            CcInclude::UserHeader(p) => IncludeKey { rank: 1, first: p@, second: Seq::empty() },
            CcInclude::SupportLibHeader(f, p) => IncludeKey { rank: 2, first: f@, second: p@ },
        }
    }
}

/// The order in which headers are listed.
pub open spec fn key_lt(a: IncludeKey, b: IncludeKey) -> bool {
    a.rank < b.rank || (a.rank == b.rank && (text_lt(a.first, b.first) || (a.first == b.first
        && text_lt(a.second, b.second))))
}

/// Strictly increasing in the order of headers.
pub open spec fn keys_increasing(s: Seq<IncludeKey>) -> bool {
    forall|i: int, j: int| 0 <= i < j < s.len() ==> key_lt(s[i], s[j])
}

pub proof fn lemma_key_lt_transitive(a: IncludeKey, b: IncludeKey, c: IncludeKey)
    requires
        key_lt(a, b),
        key_lt(b, c),
    ensures
        key_lt(a, c),
{
    if a.rank == b.rank && b.rank == c.rank {
        if text_lt(a.first, b.first) && text_lt(b.first, c.first) {
            lemma_text_lt_transitive(a.first, b.first, c.first, 0);
        } else if a.first == b.first && b.first == c.first {
            lemma_text_lt_transitive(a.second, b.second, c.second, 0);
        }
    }
}

pub proof fn lemma_key_lt_asymmetric(a: IncludeKey, b: IncludeKey)
    ensures
        !(key_lt(a, b) && key_lt(b, a)),
        !key_lt(a, a),
{
    lemma_text_lt_asymmetric(a.first, b.first, 0);
    lemma_text_lt_asymmetric(a.second, b.second, 0);
    lemma_text_lt_asymmetric(a.first, a.first, 0);
    lemma_text_lt_asymmetric(a.second, a.second, 0);
}

/// The path that stands between the quotes of an `#include` of a support
/// header.
pub open spec fn support_path(format: Seq<char>, header: Seq<char>) -> Seq<char> {
    replace_all(format, "{header}"@, header)
}

/// The path of a support header as it stands after `#include`: its
/// tokens, so that a format of `<dir/{header}>` gives a header in angle
/// brackets and one in quotes gives a header in quotes; a path that is no
/// sequence of tokens stands in quotes.
pub open spec fn support_path_tokens(path: Seq<char>) -> Seq<char> {
    match token_text(path) {
        Some(t) => t,
        None => string_literal_text(path),
    }
}

/// The tokens of one `#include` line.
pub open spec fn include_tokens(k: IncludeKey) -> Seq<char> {
    if k.rank == 0 {
        "__HASH_TOKEN__ include < "@ + k.first + " > __NEWLINE__ "@
    } else if k.rank == 1 {
        "__HASH_TOKEN__ include "@ + string_literal_text(k.first) + " __NEWLINE__ "@
    } else {
        "__HASH_TOKEN__ include "@ + support_path_tokens(support_path(k.first, k.second))
            + " __NEWLINE__ "@
    }
}

/// The tokens of the first `n` lines of a list of headers. An empty line
/// parts the standard headers from the user headers that follow them.
pub open spec fn includes_tokens_prefix(s: Seq<IncludeKey>, n: int) -> Seq<char>
    decreases n,
{
    if n <= 0 || n > s.len() {
        Seq::empty()
    } else if n < s.len() && s[n - 1].rank == 0 && s[n].rank == 1 {
        includes_tokens_prefix(s, n - 1) + include_tokens(s[n - 1]) + "__NEWLINE__ "@
    } else {
        includes_tokens_prefix(s, n - 1) + include_tokens(s[n - 1]) + ""@
    }
}

/// The tokens of a list of headers.
pub open spec fn includes_tokens(s: Seq<IncludeKey>) -> Seq<char> {
    includes_tokens_prefix(s, s.len() as int)
}

impl CcInclude {
    pub fn cstddef() -> (r: CcInclude)
        ensures
            r@ == (IncludeKey { rank: 0, first: "cstddef"@, second: Seq::empty() }),
    {
        CcInclude::SystemHeader(String::from_str("cstddef"))
    }

    pub fn cstdint() -> (r: CcInclude)
        ensures
            r@ == (IncludeKey { rank: 0, first: "cstdint"@, second: Seq::empty() }),
    {
        CcInclude::SystemHeader(String::from_str("cstdint"))
    }

    pub fn memory() -> (r: CcInclude)
        ensures
            r@ == (IncludeKey { rank: 0, first: "memory"@, second: Seq::empty() }),
    {
        CcInclude::SystemHeader(String::from_str("memory"))
    }

    pub fn utility() -> (r: CcInclude)
        ensures
            r@ == (IncludeKey { rank: 0, first: "utility"@, second: Seq::empty() }),
    {
        CcInclude::SystemHeader(String::from_str("utility"))
    }

    pub fn type_traits() -> (r: CcInclude)
        ensures
            r@ == (IncludeKey { rank: 0, first: "type_traits"@, second: Seq::empty() }),
    {
        CcInclude::SystemHeader(String::from_str("type_traits"))
    }

    pub fn user_header(path: &str) -> (r: CcInclude)
        ensures
            r@ == (IncludeKey { rank: 1, first: path@, second: Seq::empty() }),
    {
        CcInclude::UserHeader(String::from_str(path))
    }

    /// A header of the support library. `format` is the format of its path,
    /// in which `{header}` stands for `path`.
    pub fn support_lib_header(format: &str, path: &str) -> (r: CcInclude)
        ensures
            r@ == (IncludeKey { rank: 2, first: format@, second: path@ }),
    {
        CcInclude::SupportLibHeader(String::from_str(format), String::from_str(path))
    }

    /// A copy of the header.
    pub fn copy(&self) -> (r: CcInclude)
        ensures
            r@ == self@,
    {
        match self {
            CcInclude::SystemHeader(p) => CcInclude::SystemHeader(p.clone()),
            CcInclude::UserHeader(p) => CcInclude::UserHeader(p.clone()),
            CcInclude::SupportLibHeader(f, p) => CcInclude::SupportLibHeader(f.clone(), p.clone()),
        }
    }

    fn rank(&self) -> (r: u8)
        ensures
            r as int == self@.rank,
    {
        match self {
            CcInclude::SystemHeader(_) => 0,
            CcInclude::UserHeader(_) => 1,
            CcInclude::SupportLibHeader(_, _) => 2,
        }
    }

    fn first(&self) -> (r: &str)
        ensures
            r@ == self@.first,
    {
        match self {
            CcInclude::SystemHeader(p) => p.as_str(),
            CcInclude::UserHeader(p) => p.as_str(),
            CcInclude::SupportLibHeader(f, _) => f.as_str(),
        }
    }

    fn second(&self) -> (r: &str)
        ensures
            r@ == self@.second,
    {
        match self {
            CcInclude::SystemHeader(_) => {
                proof {
                    reveal_strlit("");
                    assert(""@ =~= Seq::<char>::empty());
                }
                ""
            },
            CcInclude::UserHeader(_) => {
                proof {
                    reveal_strlit("");
                    assert(""@ =~= Seq::<char>::empty());
                }
                ""
            },
            CcInclude::SupportLibHeader(_, p) => p.as_str(),
        }
    }

    /// How the header compares with `other` in the order of headers.
    pub fn compare(&self, other: &CcInclude) -> (r: TextOrder)
        ensures
            r == TextOrder::Before <==> key_lt(self@, other@),
            r == TextOrder::Same <==> self@ == other@,
            r == TextOrder::After <==> key_lt(other@, self@),
    {
        proof {
            lemma_key_lt_asymmetric(self@, other@);
            lemma_key_lt_asymmetric(other@, self@);
        }
        let a = self.rank();
        let b = other.rank();
        if a < b {
            TextOrder::Before
        } else if a > b {
            TextOrder::After
        } else {
            match compare_text(self.first(), other.first()) {
                TextOrder::Before => TextOrder::Before,
                TextOrder::After => TextOrder::After,
                TextOrder::Same => {
                    let r = compare_text(self.second(), other.second());
                    proof {
                        if r == TextOrder::Same {
                            assert(self@.rank == other@.rank);
                            assert(self@.first == other@.first);
                            assert(self@.second == other@.second);
                        }
                    }
                    r
                },
            }
        }
    }

    /// The tokens of the `#include` line.
    pub fn to_tokens(&self) -> (r: String)
        ensures
            r@ == include_tokens(self@),
    {
        match self {
            CcInclude::SystemHeader(p) => {
                let mut s = String::from_str("__HASH_TOKEN__ include < ");
                s.append(p.as_str());
                s.append(" > __NEWLINE__ ");
                s
            },
            CcInclude::UserHeader(p) => {
                let mut s = String::from_str("__HASH_TOKEN__ include ");
                s.append(string_literal(p.as_str()).as_str());
                s.append(" __NEWLINE__ ");
                s
            },
            CcInclude::SupportLibHeader(f, p) => {
                proof {
                    reveal_strlit("{header}");
                }
                let full = replace_text(f.as_str(), "{header}", p.as_str());
                let mut s = String::from_str("__HASH_TOKEN__ include ");
                match tokenize(full.as_str()) {
                    Some(t) => s.append(t.as_str()),
                    None => s.append(string_literal(full.as_str()).as_str()),
                }
                s.append(" __NEWLINE__ ");
                s
            },
        }
    }
}

/// The keys of a list of headers.
pub open spec fn keys_of(v: Seq<CcInclude>) -> Seq<IncludeKey> {
    v.map_values(|c: CcInclude| c@)
}

/// A set of headers, kept in the order in which they are listed.
#[derive(Debug)]
pub struct IncludeSet {
    items: Vec<CcInclude>,
}

impl View for IncludeSet {
    type V = Set<IncludeKey>;

    closed spec fn view(&self) -> Set<IncludeKey> {
        Set::new(|k: IncludeKey| keys_of(self.items@).contains(k))
    }
}

impl IncludeSet {
    /// The members are kept in the order of headers.
    #[verifier::type_invariant]
    pub closed spec fn wf(self) -> bool {
        keys_increasing(keys_of(self.items@))
    }

    /// The keys of the members in the order of headers.
    pub closed spec fn ordered(&self) -> Seq<IncludeKey> {
        keys_of(self.items@)
    }

    /// `ordered` lists exactly the members, once each and increasing.
    pub proof fn lemma_ordered(self)
        requires
            self.wf(),
        ensures
            keys_increasing(self.ordered()),
            forall|k: IncludeKey| self.ordered().contains(k) == self@.contains(k),
    {
    }

    /// The empty set.
    pub fn new() -> (s: IncludeSet)
        ensures
            s@ == Set::<IncludeKey>::empty(),
    {
        let s = IncludeSet { items: Vec::new() };
        assert(s@ =~= Set::<IncludeKey>::empty());
        s
    }

    pub fn is_empty(&self) -> (r: bool)
        ensures
            r == (self@ == Set::<IncludeKey>::empty()),
    {
        let r = self.items.len() == 0;
        proof {
            if r {
                assert(self@ =~= Set::<IncludeKey>::empty());
            } else {
                let k = keys_of(self.items@)[0];
                assert(keys_of(self.items@).contains(k));
                assert(self@.contains(k));
            }
        }
        r
    }

    /// Adds a header.
    pub fn insert(&mut self, header: CcInclude)
        ensures
            final(self)@ == old(self)@.insert(header@),
    {
        proof {
            use_type_invariant(&*self);
        }
        let ghost key = header@;
        let ghost before = keys_of(self.items@);
        let mut i: usize = 0;
        let mut stop = false;
        while i < self.items.len() && !stop
            invariant
                i <= self.items.len(),
                self.items@ == old(self).items@,
                before == keys_of(self.items@),
                key == header@,
                stop ==> i < self.items.len() && key_lt(key, before[i as int]),
                forall|j: int| 0 <= j < i ==> key_lt(before[j], key),
            decreases self.items.len() - i + (if stop { 0int } else { 1int }),
        {
            assert(before[i as int] == self.items@[i as int]@);
            match self.items[i].compare(&header) {
                TextOrder::Before => {
                    i += 1;
                },
                TextOrder::Same => {
                    assert(before.contains(key));
                    assert(self@ =~= old(self)@.insert(key));
                    return ;
                },
                TextOrder::After => {
                    stop = true;
                },
            }
        }
        proof {
            if i < self.items.len() {
                assert(stop);
            }
        }
        assert(i < self.items.len() ==> key_lt(key, before[i as int]));
        let mut taken = IncludeSet { items: Vec::new() };
        std::mem::swap(self, &mut taken);
        let IncludeSet { items: mut items } = taken;
        items.insert(i, header);
        proof {
            let after = keys_of(items@);
            assert(after =~= before.insert(i as int, key));
            assert forall|a: int, b: int| 0 <= a < b < after.len() implies key_lt(
                after[a],
                after[b],
            ) by {
                if b < i {
                } else if b == i {
                } else if a == i {
                    if b - 1 > i {
                        lemma_key_lt_transitive(key, before[i as int], before[b - 1]);
                    }
                } else if a < i {
                    assert(after[a] == before[a]);
                    assert(after[b] == before[b - 1]);
                } else {
                    assert(after[a] == before[a - 1]);
                    assert(after[b] == before[b - 1]);
                }
            }
        }
        *self = IncludeSet { items };
        proof {
            let after = keys_of(self.items@);
            assert forall|x: IncludeKey| after.contains(x) == (before.contains(x) || x == key) by {
                if before.contains(x) {
                    let k = choose|k: int| 0 <= k < before.len() && before[k] == x;
                    if k < i {
                        assert(after[k] == x);
                    } else {
                        assert(after[k + 1] == x);
                    }
                }
                if x == key {
                    assert(after[i as int] == x);
                }
                if after.contains(x) {
                    let k = choose|k: int| 0 <= k < after.len() && after[k] == x;
                    if k < i {
                        assert(before[k] == x);
                    } else if k > i {
                        assert(before[k - 1] == x);
                    }
                }
            }
            assert(self@ =~= old(self)@.insert(key));
        }
    }

    /// Adds every header of `other`.
    pub fn extend(&mut self, other: &IncludeSet)
        ensures
            final(self)@ == old(self)@.union(other@),
    {
        let ghost theirs = keys_of(other.items@);
        let mut i: usize = 0;
        while i < other.items.len()
            invariant
                i <= other.items.len(),
                theirs == keys_of(other.items@),
                forall|x: IncludeKey|
                    self@.contains(x) == (old(self)@.contains(x) || exists|j: int|
                        0 <= j < i && theirs[j] == x),
            decreases other.items.len() - i,
        {
            assert(theirs[i as int] == other.items@[i as int]@);
            self.insert(other.items[i].copy());
            i += 1;
        }
        assert(self@ =~= old(self)@.union(other@));
    }

    /// A copy of the set.
    pub fn copy(&self) -> (s: IncludeSet)
        ensures
            s@ == self@,
            s.ordered() == self.ordered(),
    {
        proof {
            use_type_invariant(self);
        }
        let mut items: Vec<CcInclude> = Vec::new();
        let mut i: usize = 0;
        while i < self.items.len()
            invariant
                i <= self.items.len(),
                keys_of(items@) == keys_of(self.items@).take(i as int),
            decreases self.items.len() - i,
        {
            let ghost before = keys_of(items@);
            let c = self.items[i].copy();
            items.push(c);
            assert(keys_of(items@) =~= before.push(c@));
            assert(keys_of(self.items@)[i as int] == c@);
            assert(keys_of(items@) =~= keys_of(self.items@).take(i + 1));
            i += 1;
        }
        assert(keys_of(self.items@).take(self.items.len() as int) =~= keys_of(self.items@));
        let s = IncludeSet { items };
        assert(s@ =~= self@);
        s
    }

    /// The `#include` lines of the set, in the order of headers.
    pub fn to_tokens(&self) -> (r: String)
        ensures
            r@ == includes_tokens(self.ordered()),
    {
        let ghost keys = keys_of(self.items@);
        let mut out = String::new();
        assert(out@ =~= includes_tokens_prefix(keys, 0));
        let mut i: usize = 0;
        while i < self.items.len()
            invariant
                i <= self.items.len(),
                keys == keys_of(self.items@),
                out@ == includes_tokens_prefix(keys, i as int),
            decreases self.items.len() - i,
        {
            assert(keys[i as int] == self.items@[i as int]@);
            let line = self.items[i].to_tokens();
            out.append(line.as_str());
            let blank = i + 1 < self.items.len() && self.items[i].rank() == 0 && self.items[i
                + 1].rank() == 1;
            if blank {
                assert(keys[i + 1] == self.items@[i + 1]@);
                out.append("__NEWLINE__ ");
            } else {
                if i + 1 < self.items.len() {
                    assert(keys[i + 1] == self.items@[i + 1]@);
                }
                out.append("");
            }
            i += 1;
        }
        out
    }
}

/// What a piece of C++ text needs before it.
#[derive(Debug)]
pub struct CcPrerequisites {
    /// Headers that must be included.
    pub includes: IncludeSet,
    /// Items of this crate whose full definition must come first, for
    /// example because the text holds one of them by value.
    pub defs: IdSet,
    /// Items of this crate of which a forward declaration must come first,
    /// for example because the text points to one of them.
    pub fwd_decls: IdSet,
}

/// The three sets of a `CcPrerequisites`.
pub struct PrereqsView {
    pub includes: Set<IncludeKey>,
    pub defs: Set<usize>,
    pub fwd_decls: Set<usize>,
}

impl PrereqsView {
    /// No prerequisite at all.
    pub open spec fn empty() -> PrereqsView {
        PrereqsView { includes: Set::empty(), defs: Set::empty(), fwd_decls: Set::empty() }
    }

    /// What both need.
    pub open spec fn plus(self, other: PrereqsView) -> PrereqsView {
        PrereqsView {
            includes: self.includes.union(other.includes),
            defs: self.defs.union(other.defs),
            fwd_decls: self.fwd_decls.union(other.fwd_decls),
        }
    }

    /// The same needs, with a forward declaration in place of each full
    /// definition.
    pub open spec fn weakened(self) -> PrereqsView {
        PrereqsView {
            includes: self.includes,
            defs: Set::empty(),
            fwd_decls: self.fwd_decls.union(self.defs),
        }
    }

    /// One more header.
    pub open spec fn with_include(self, k: IncludeKey) -> PrereqsView {
        PrereqsView { includes: self.includes.insert(k), ..self }
    }

    /// One more full definition.
    pub open spec fn with_def(self, id: usize) -> PrereqsView {
        PrereqsView { defs: self.defs.insert(id), ..self }
    }
}

impl View for CcPrerequisites {
    type V = PrereqsView;

    open spec fn view(&self) -> PrereqsView {
        PrereqsView { includes: self.includes@, defs: self.defs@, fwd_decls: self.fwd_decls@ }
    }
}

impl CcPrerequisites {
    /// No prerequisite at all.
    pub fn new() -> (p: CcPrerequisites)
        ensures
            p@ == PrereqsView::empty(),
    {
        CcPrerequisites { includes: IncludeSet::new(), defs: IdSet::new(), fwd_decls: IdSet::new() }
    }

    pub fn is_empty(&self) -> (r: bool)
        ensures
            r == (self@ == PrereqsView::empty()),
    {
        self.includes.is_empty() && self.defs.is_empty() && self.fwd_decls.is_empty()
    }

    /// Asks for a forward declaration in place of each full definition. A
    /// pointer to a type can do with the declaration of its pointee; so can
    /// the declaration of a function with the types of its parameters.
    pub fn move_defs_to_fwd_decls(&mut self)
        ensures
            final(self)@ == old(self)@.weakened(),
    {
        self.fwd_decls.extend(&self.defs);
        self.defs = IdSet::new();
    }

    /// Adds what `rhs` needs.
    pub fn add_assign(&mut self, rhs: CcPrerequisites)
        ensures
            final(self)@ == old(self)@.plus(rhs@),
    {
        self.includes.extend(&rhs.includes);
        self.defs.extend(&rhs.defs);
        self.fwd_decls.extend(&rhs.fwd_decls);
    }

    /// A copy of the prerequisites.
    pub fn copy(&self) -> (p: CcPrerequisites)
        ensures
            p@ == self@,
    {
        CcPrerequisites {
            includes: self.includes.copy(),
            defs: self.defs.copy(),
            fwd_decls: self.fwd_decls.copy(),
        }
    }
}

/// C++ tokens and what they need before them.
#[derive(Debug)]
pub struct CcSnippet {
    pub tokens: String,
    pub prereqs: CcPrerequisites,
}

impl CcSnippet {
    /// The tokens, with their prerequisites added to `prereqs_accumulator`.
    pub fn into_tokens(self, prereqs_accumulator: &mut CcPrerequisites) -> (tokens: String)
        ensures
            tokens@ == self.tokens@,
            final(prereqs_accumulator)@ == old(prereqs_accumulator)@.plus(self.prereqs@),
    {
        let CcSnippet { tokens, prereqs } = self;
        prereqs_accumulator.add_assign(prereqs);
        tokens
    }

    /// Tokens that need nothing.
    pub fn new(tokens: String) -> (s: CcSnippet)
        ensures
            s.tokens@ == tokens@,
            s.prereqs@ == PrereqsView::empty(),
    {
        CcSnippet { tokens, prereqs: CcPrerequisites::new() }
    }

    /// No tokens.
    pub fn empty() -> (s: CcSnippet)
        ensures
            s.tokens@ == Seq::<char>::empty(),
            s.prereqs@ == PrereqsView::empty(),
    {
        CcSnippet { tokens: String::new(), prereqs: CcPrerequisites::new() }
    }

    /// Tokens that need one header.
    pub fn with_include(tokens: String, header: CcInclude) -> (s: CcSnippet)
        ensures
            s.tokens@ == tokens@,
            s.prereqs@ == PrereqsView::empty().with_include(header@),
    {
        let mut prereqs = CcPrerequisites::new();
        prereqs.includes.insert(header);
        CcSnippet { tokens, prereqs }
    }

    /// Appends the tokens of `rhs` and adds what they need.
    pub fn add_assign(&mut self, rhs: CcSnippet)
        ensures
            final(self).tokens@ == old(self).tokens@ + rhs.tokens@,
            final(self).prereqs@ == old(self).prereqs@.plus(rhs.prereqs@),
    {
        let tokens = rhs.into_tokens(&mut self.prereqs);
        self.tokens.append(tokens.as_str());
    }
}

/// The tokens and the needs of a `CcSnippet`.
pub struct SnippetView {
    pub tokens: Seq<char>,
    pub prereqs: PrereqsView,
}

impl SnippetView {
    /// Tokens that need nothing.
    pub open spec fn plain(tokens: Seq<char>) -> SnippetView {
        SnippetView { tokens, prereqs: PrereqsView::empty() }
    }

    /// Tokens that need one header.
    pub open spec fn needing(tokens: Seq<char>, header: IncludeKey) -> SnippetView {
        SnippetView { tokens, prereqs: PrereqsView::empty().with_include(header) }
    }
}

impl View for CcSnippet {
    type V = SnippetView;

    open spec fn view(&self) -> SnippetView {
        SnippetView { tokens: self.tokens@, prereqs: self.prereqs@ }
    }
}

/// The views of a list of snippets.
pub open spec fn snippet_views(v: Seq<CcSnippet>) -> Seq<SnippetView> {
    v.map_values(|s: CcSnippet| s@)
}

/// What binding one item yields.
#[derive(Debug)]
pub struct ApiSnippets {
    /// The main API: the C++ declaration of a function, the C++ definition
    /// of a struct, each with its comment.
    pub main_api: CcSnippet,
    /// C++ details: the declaration of a thunk, static assertions on a
    /// struct's size, alignment and field offsets.
    pub cc_details: CcSnippet,
    /// Rust details: the definition of a thunk, assertions on a struct's
    /// size, alignment and field offsets.
    pub rs_details: String,
}

/// The texts and sets of an `ApiSnippets`.
pub struct ApiView {
    pub main_tokens: Seq<char>,
    pub main_prereqs: PrereqsView,
    pub details_tokens: Seq<char>,
    pub details_prereqs: PrereqsView,
    pub rs_details: Seq<char>,
}

impl ApiView {
    /// Nothing at all.
    pub open spec fn empty() -> ApiView {
        ApiView {
            main_tokens: Seq::empty(),
            main_prereqs: PrereqsView::empty(),
            details_tokens: Seq::empty(),
            details_prereqs: PrereqsView::empty(),
            rs_details: Seq::empty(),
        }
    }

    /// One bundle after another: the texts appended, the needs united.
    pub open spec fn followed_by(self, next: ApiView) -> ApiView {
        ApiView {
            main_tokens: self.main_tokens + next.main_tokens,
            main_prereqs: self.main_prereqs.plus(next.main_prereqs),
            details_tokens: self.details_tokens + next.details_tokens,
            details_prereqs: self.details_prereqs.plus(next.details_prereqs),
            rs_details: self.rs_details + next.rs_details,
        }
    }

    /// A bundle that holds a main API alone, which needs nothing.
    pub open spec fn main_only(tokens: Seq<char>) -> ApiView {
        ApiView { main_tokens: tokens, ..ApiView::empty() }
    }
}

impl View for ApiSnippets {
    type V = ApiView;

    open spec fn view(&self) -> ApiView {
        ApiView {
            main_tokens: self.main_api.tokens@,
            main_prereqs: self.main_api.prereqs@,
            details_tokens: self.cc_details.tokens@,
            details_prereqs: self.cc_details.prereqs@,
            rs_details: self.rs_details@,
        }
    }
}

/// The first `n` bundles one after another.
pub open spec fn bundles_prefix(parts: Seq<ApiView>, n: int) -> ApiView
    decreases n,
{
    if n <= 0 || n > parts.len() {
        ApiView::empty()
    } else {
        bundles_prefix(parts, n - 1).followed_by(parts[n - 1])
    }
}

/// The views of a list of bundles.
pub open spec fn api_views(v: Seq<ApiSnippets>) -> Seq<ApiView> {
    v.map_values(|a: ApiSnippets| a@)
}

impl ApiSnippets {
    /// Nothing at all.
    pub fn empty() -> (a: ApiSnippets)
        ensures
            a@ == ApiView::empty(),
    {
        ApiSnippets {
            main_api: CcSnippet::empty(),
            cc_details: CcSnippet::empty(),
            rs_details: String::new(),
        }
    }

    /// A main API alone, which needs nothing.
    pub fn main_only(tokens: String) -> (a: ApiSnippets)
        ensures
            a@ == ApiView::main_only(tokens@),
    {
        ApiSnippets {
            main_api: CcSnippet::new(tokens),
            cc_details: CcSnippet::empty(),
            rs_details: String::new(),
        }
    }

    /// Appends `next`.
    pub fn append(&mut self, next: ApiSnippets)
        ensures
            final(self)@ == old(self)@.followed_by(next@),
    {
        let ApiSnippets { main_api, cc_details, rs_details } = next;
        self.main_api.add_assign(main_api);
        self.cc_details.add_assign(cc_details);
        self.rs_details.append(rs_details.as_str());
    }

    /// The bundles one after another.
    pub fn from_iter(parts: Vec<ApiSnippets>) -> (a: ApiSnippets)
        ensures
            a@ == bundles_prefix(api_views(parts@), parts.len() as int),
    {
        let ghost views = api_views(parts@);
        let mut parts = parts;
        let mut result = ApiSnippets::empty();
        let ghost mut done: int = 0;
        while parts.len() > 0
            invariant
                0 <= done <= views.len(),
                api_views(parts@) == views.skip(done),
                result@ == bundles_prefix(views, done),
            decreases parts.len(),
        {
            let ghost rest = api_views(parts@);
            let ghost old_parts = parts@;
            let first = parts.remove(0);
            proof {
                assert(parts@ == old_parts.remove(0));
                assert(rest.len() == old_parts.len());
                assert(rest.len() == views.len() - done);
                assert(parts@.len() == views.len() - done - 1);
                assert forall|k: int| 0 <= k < parts@.len() implies #[trigger] api_views(
                    parts@,
                )[k] == views.skip(done + 1)[k] by {
                    assert(parts@[k] == old_parts[k + 1]);
                    assert(rest[k + 1] == old_parts[k + 1]@);
                    assert(views.skip(done)[k + 1] == views[done + k + 1]);
                }
                assert(rest[0] == first@);
                assert(rest.len() == views.len() - done);
                assert(views.skip(done)[0] == views[done]);
                assert(views[done] == first@);
                assert(api_views(parts@) =~= views.skip(done + 1));
                done = done + 1;
            }
            result.append(first);
        }
        proof {
            assert(done == views.len());
        }
        result
    }
}

/// The headers of a list, as a set.
pub open spec fn header_set(v: Seq<CcInclude>) -> Set<IncludeKey> {
    Set::new(|k: IncludeKey| keys_of(v).contains(k))
}

impl IncludeSet {
    /// Adds copies of the headers of a list.
    pub fn extend_from_list(&mut self, list: &Vec<CcInclude>)
        ensures
            final(self)@ == old(self)@.union(header_set(list@)),
    {
        let ghost theirs = keys_of(list@);
        let mut i: usize = 0;
        while i < list.len()
            invariant
                i <= list.len(),
                theirs == keys_of(list@),
                forall|x: IncludeKey|
                    self@.contains(x) == (old(self)@.contains(x) || exists|j: int|
                        0 <= j < i && theirs[j] == x),
            decreases list.len() - i,
        {
            assert(theirs[i as int] == list@[i as int]@);
            self.insert(list[i].copy());
            i += 1;
        }
        assert(self@ =~= old(self)@.union(header_set(list@)));
    }
}


/// Two increasing lists with the same members are the same list.
pub proof fn lemma_increasing_unique(a: Seq<usize>, b: Seq<usize>)
    requires
        increasing(a),
        increasing(b),
        forall|x: usize| a.contains(x) == b.contains(x),
    ensures
        a == b,
    decreases a.len(),
{
    if a.len() == 0 {
        if b.len() > 0 {
            assert(b.contains(b[0]));
            assert(a.contains(b[0]));
        }
        assert(a =~= b);
    } else {
        let la = a.last();
        assert(a.contains(la));
        assert(b.contains(la));
        let lb = b.last();
        assert(b.contains(lb));
        assert(a.contains(lb));
        let j = choose|j: int| 0 <= j < b.len() && b[j] == la;
        let i = choose|i: int| 0 <= i < a.len() && a[i] == lb;
        assert(la == lb) by {
            if j < b.len() - 1 {
                assert(b[j] < b[b.len() - 1]);
            }
            if i < a.len() - 1 {
                assert(a[i] < a[a.len() - 1]);
            }
        }
        let a1 = a.drop_last();
        let b1 = b.drop_last();
        assert forall|x: usize| a1.contains(x) == b1.contains(x) by {
            if a1.contains(x) {
                let k = choose|k: int| 0 <= k < a1.len() && a1[k] == x;
                assert(a[k] == x);
                assert(a[k] < a[a.len() - 1]);
                assert(a.contains(x));
                let m = choose|m: int| 0 <= m < b.len() && b[m] == x;
                assert(m != b.len() - 1);
                assert(b1[m] == x);
            }
            if b1.contains(x) {
                let k = choose|k: int| 0 <= k < b1.len() && b1[k] == x;
                assert(b[k] == x);
                assert(b[k] < b[b.len() - 1]);
                assert(b.contains(x));
                let m = choose|m: int| 0 <= m < a.len() && a[m] == x;
                assert(m != a.len() - 1);
                assert(a1[m] == x);
            }
        }
        lemma_increasing_unique(a1, b1);
        assert(a =~= a1.push(la));
        assert(b =~= b1.push(lb));
    }
}

/// Two lists of headers in order with the same members are the same list.
pub proof fn lemma_keys_increasing_unique(a: Seq<IncludeKey>, b: Seq<IncludeKey>)
    requires
        keys_increasing(a),
        keys_increasing(b),
        forall|x: IncludeKey| a.contains(x) == b.contains(x),
    ensures
        a == b,
    decreases a.len(),
{
    if a.len() == 0 {
        if b.len() > 0 {
            assert(b.contains(b[0]));
            assert(a.contains(b[0]));
        }
        assert(a =~= b);
    } else {
        let la = a.last();
        assert(a.contains(la));
        assert(b.contains(la));
        let lb = b.last();
        assert(b.contains(lb));
        assert(a.contains(lb));
        let j = choose|j: int| 0 <= j < b.len() && b[j] == la;
        let i = choose|i: int| 0 <= i < a.len() && a[i] == lb;
        assert(la == lb) by {
            lemma_key_lt_asymmetric(la, lb);
            if j < b.len() - 1 {
                assert(key_lt(b[j], b[b.len() - 1]));
            }
            if i < a.len() - 1 {
                assert(key_lt(a[i], a[a.len() - 1]));
            }
        }
        let a1 = a.drop_last();
        let b1 = b.drop_last();
        assert forall|x: IncludeKey| a1.contains(x) == b1.contains(x) by {
            lemma_key_lt_asymmetric(x, x);
            if a1.contains(x) {
                let k = choose|k: int| 0 <= k < a1.len() && a1[k] == x;
                assert(a[k] == x);
                assert(key_lt(a[k], a[a.len() - 1]));
                assert(a.contains(x));
                let m = choose|m: int| 0 <= m < b.len() && b[m] == x;
                assert(m != b.len() - 1);
                assert(b1[m] == x);
            }
            if b1.contains(x) {
                let k = choose|k: int| 0 <= k < b1.len() && b1[k] == x;
                assert(b[k] == x);
                assert(key_lt(b[k], b[b.len() - 1]));
                assert(b.contains(x));
                let m = choose|m: int| 0 <= m < a.len() && a[m] == x;
                assert(m != a.len() - 1);
                assert(a1[m] == x);
            }
        }
        lemma_keys_increasing_unique(a1, b1);
        assert(a =~= a1.push(la));
        assert(b =~= b1.push(lb));
    }
}

/// Whether a list holds the members of a set in increasing order.
pub open spec fn lists_ids(v: Seq<usize>, s: Set<usize>) -> bool {
    increasing(v) && forall|x: usize| v.contains(x) == s.contains(x)
}

/// The members of a finite set in increasing order.
pub open spec fn sorted_ids(s: Set<usize>) -> Seq<usize> {
    choose|v: Seq<usize>| lists_ids(v, s)
}

/// Whether a list holds the headers of a set in the order of headers.
pub open spec fn lists_keys(v: Seq<IncludeKey>, s: Set<IncludeKey>) -> bool {
    keys_increasing(v) && forall|x: IncludeKey| v.contains(x) == s.contains(x)
}

/// The headers of a finite set in the order of headers.
pub open spec fn sorted_keys(s: Set<IncludeKey>) -> Seq<IncludeKey> {
    choose|v: Seq<IncludeKey>| lists_keys(v, s)
}

impl IdSet {
    /// The order in which the set is walked depends on its members alone.
    pub proof fn lemma_ordered_is_sorted(self)
        requires
            self.wf(),
        ensures
            self.ordered() == sorted_ids(self@),
    {
        self.lemma_ordered();
        assert(lists_ids(self.ordered(), self@));
        lemma_increasing_unique(self.ordered(), sorted_ids(self@));
    }

    /// The members in increasing order.
    pub fn to_sorted_vec(&self) -> (v: Vec<usize>)
        ensures
            v@ == sorted_ids(self@),
            lists_ids(v@, self@),
    {
        proof {
            use_type_invariant(self);
            self.lemma_ordered_is_sorted();
            self.lemma_ordered();
        }
        self.to_vec()
    }
}

impl IncludeSet {
    /// The order in which the set is walked depends on its members alone.
    pub proof fn lemma_ordered_is_sorted(self)
        requires
            self.wf(),
        ensures
            self.ordered() == sorted_keys(self@),
    {
        self.lemma_ordered();
        assert(lists_keys(self.ordered(), self@));
        lemma_keys_increasing_unique(self.ordered(), sorted_keys(self@));
    }

    /// The `#include` lines of the set.
    pub fn to_sorted_tokens(&self) -> (r: String)
        ensures
            r@ == includes_tokens(sorted_keys(self@)),
    {
        proof {
            use_type_invariant(self);
            self.lemma_ordered_is_sorted();
        }
        self.to_tokens()
    }
}

} // verus!
