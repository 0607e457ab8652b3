//! What is asked of an interface description: the items of one kind, the
//! namespaces around an item, the names under which items are shown.

use vstd::prelude::*;
use vstd::string::*;
use crate::cc_ident::{make_rs_ident, rs_ident};
use crate::error::{full_message, Error};
use crate::ir::{
    copy_opt_string, func_debug_name, item_enclosing_id, item_id, item_plain_name, item_source_loc,
    item_unknown_attr, label_target_name_escaped, same_unqualified, BazelLabel, Comment, Enum,
    FormattedError, Func, IncompleteRecord, Item, ItemId, Namespace, Record, TypeAlias,
    TypeMapOverride, UnqualifiedIdentifier, UnsupportedItem,
};
use crate::ir_db::IR;
use crate::names::NamespaceQualifier;
use crate::text::{decimal, views};
use crate::type_map::Messages;

verus! {

/// The functions among the first `n` items.
pub open spec fn functions_in(items: Seq<Item>, n: int) -> Seq<Func>
    decreases n,
{
    if n <= 0 || n > items.len() {
        Seq::empty()
    } else {
        match items[n - 1] {
            Item::Func(f) => functions_in(items, n - 1).push(f),
            _ => functions_in(items, n - 1),
        }
    }
}

/// The functions with the given name among the first `n` items.
pub open spec fn functions_named(items: Seq<Item>, name: UnqualifiedIdentifier, n: int) -> Seq<Func>
    decreases n,
{
    if n <= 0 || n > items.len() {
        Seq::empty()
    } else {
        match items[n - 1] {
            Item::Func(f) => if same_unqualified(f.name, name) {
                functions_named(items, name, n - 1).push(f)
            } else {
                functions_named(items, name, n - 1)
            },
            _ => functions_named(items, name, n - 1),
        }
    }
}

/// The records among the first `n` items.
pub open spec fn records_in(items: Seq<Item>, n: int) -> Seq<Record>
    decreases n,
{
    if n <= 0 || n > items.len() {
        Seq::empty()
    } else {
        match items[n - 1] {
            Item::Record(r) => records_in(items, n - 1).push(r),
            _ => records_in(items, n - 1),
        }
    }
}

/// The items without bindings among the first `n` items.
pub open spec fn unsupported_in(items: Seq<Item>, n: int) -> Seq<UnsupportedItem>
    decreases n,
{
    if n <= 0 || n > items.len() {
        Seq::empty()
    } else {
        match items[n - 1] {
            Item::UnsupportedItem(u) => unsupported_in(items, n - 1).push(u),
            _ => unsupported_in(items, n - 1),
        }
    }
}

/// The comments among the first `n` items.
pub open spec fn comments_in(items: Seq<Item>, n: int) -> Seq<Comment>
    decreases n,
{
    if n <= 0 || n > items.len() {
        Seq::empty()
    } else {
        match items[n - 1] {
            Item::Comment(c) => comments_in(items, n - 1).push(c),
            _ => comments_in(items, n - 1),
        }
    }
}

/// The namespaces among the first `n` items.
pub open spec fn namespaces_in(items: Seq<Item>, n: int) -> Seq<Namespace>
    decreases n,
{
    if n <= 0 || n > items.len() {
        Seq::empty()
    } else {
        match items[n - 1] {
            Item::Namespace(ns) => namespaces_in(items, n - 1).push(ns),
            _ => namespaces_in(items, n - 1),
        }
    }
}

/// What a list of references refers to.
pub open spec fn referents<T>(v: Seq<&T>) -> Seq<T> {
    v.map_values(|r: &T| *r)
}

/// The namespaces around an item, found by walking outwards from
/// `enclosing` for at most `fuel` steps. `inner` holds the namespaces
/// found so far, the outermost first. The walk ends at the top level, or at
/// a record that no namespace lies in.
pub open spec fn namespaces_around(
    ir: IR,
    enclosing: Option<ItemId>,
    inner: Seq<Seq<char>>,
    fuel: nat,
) -> Result<Seq<Seq<char>>, Messages>
    decreases fuel,
{
    match enclosing {
        None => Ok(inner),
        Some(parent_id) => if fuel == 0 {
            Err(seq!["The items that enclose one another form a cycle"@])
        } else {
            match ir.item_with(parent_id) {
                None => Err(
                    seq![
                        "DeclId "@ + decimal(parent_id.0 as nat) + " doesn't refer to a "@
                            + "Item"@,
                    ],
                ),
                Some(Item::Namespace(ns)) => namespaces_around(
                    ir,
                    ns.enclosing_item_id,
                    seq![ns.name.identifier@] + inner,
                    (fuel - 1) as nat,
                ),
                Some(Item::Record(_)) => if inner.len() == 0 {
                    Ok(inner)
                } else {
                    Err(seq!["Found namespaces inside of a record"@])
                },
                Some(_) => Err(seq!["Expected namespace"@]),
            }
        },
    }
}

/// The namespaces in which the item with the given id lies.
pub open spec fn namespace_qualifier_of(ir: IR, id: ItemId) -> Result<Seq<Seq<char>>, Messages> {
    match ir.item_with(id) {
        None => Err(seq!["DeclId "@ + decimal(id.0 as nat) + " doesn't refer to a "@ + "Item"@]),
        Some(item) => namespaces_around(
            ir,
            item_enclosing_id(item),
            Seq::empty(),
            ir.all_items().len(),
        ),
    }
}

/// The name of the crate that holds the bindings of a target, for a target
/// that is not the current one.
pub open spec fn imported_crate_name(ir: IR, owning_target: BazelLabel) -> Option<Seq<char>> {
    if owning_target.0@ == ir.target().0@ {
        None
    } else {
        Some(rs_ident(label_target_name_escaped(owning_target.0@)))
    }
}

/// The name of the crate of an imported target; `None` for the current
/// target.
pub fn rs_imported_crate_name(owning_target: &BazelLabel, ir: &IR) -> (r: Option<String>)
    ensures
        match imported_crate_name(*ir, *owning_target) {
            Some(n) => r matches Some(s) && s@ == n,
            None => r is None,
        },
{
    if ir.is_current_target(owning_target) {
        None
    } else {
        Some(make_rs_ident(owning_target.target_name_escaped().as_str()))
    }
}

/// Whether an item can be named: a member function needs its record in the
/// description, which must not be a function itself, and a constructor or
/// destructor must be a member.
pub open spec fn can_be_named(ir: IR, item: Item) -> bool {
    match item {
        Item::Func(f) => match f.member_func_metadata {
            Some(meta) => ir.item_with(meta.record_id) is Some,
            None => !(f.name is Constructor || f.name is Destructor),
        },
        _ => true,
    }
}

/// The name of an item as messages show it.
pub open spec fn item_debug_name(ir: IR, item: Item) -> Seq<char> {
    match item {
        Item::Func(f) => func_debug_name(
            f.name,
            match f.member_func_metadata {
                Some(meta) => Some(item_plain_name(ir.item_with(meta.record_id)->0)),
                None => None,
            },
        ),
        _ => item_plain_name(item),
    }
}

/// What every item has: an id, a name for messages, and perhaps a place in
/// the source and attributes that are not understood.
pub trait GenericItem {
    /// The item that the value is, or is a part of.
    spec fn as_item(&self) -> Item;

    fn id(&self) -> (r: ItemId)
        ensures
            r == item_id(self.as_item()),
    ;

    /// The name of the item as programmers read it: `Foo` for
    /// `void Foo();`.
    fn debug_name(&self, ir: &IR) -> (r: String)
        requires
            can_be_named(*ir, self.as_item()),
        ensures
            r@ == item_debug_name(*ir, self.as_item()),
    ;

    /// Where the item was declared, if that is recorded.
    fn source_loc(&self) -> (r: Option<String>)
        ensures
            r is Some == item_source_loc(self.as_item()) is Some,
            r matches Some(l) ==> l@ == item_source_loc(self.as_item())->0,
    ;

    /// A readable list of the attributes that are not understood, or
    /// `None` where all are.
    fn unknown_attr(&self) -> (r: Option<String>)
        ensures
            r is Some == item_unknown_attr(self.as_item()) is Some,
            r matches Some(a) ==> a@ == item_unknown_attr(self.as_item())->0,
    ;
}

impl GenericItem for Item {
    open spec fn as_item(&self) -> Item {
        *self
    }

    fn id(&self) -> (r: ItemId) {
        Item::id(self)
    }

    fn debug_name(&self, ir: &IR) -> (r: String) {
        match self {
            Item::Func(f) => {
                match &f.member_func_metadata {
                    Some(meta) => {
                        let record = ir.find_untyped_decl(meta.record_id).plain_name();
                        f.debug_name_in(Some(record.as_str()))
                    },
                    None => f.debug_name_in(None),
                }
            },
            _ => self.plain_name(),
        }
    }

    fn source_loc(&self) -> (r: Option<String>) {
        Item::source_loc(self)
    }

    fn unknown_attr(&self) -> (r: Option<String>) {
        Item::unknown_attr(self)
    }
}

impl GenericItem for Enum {
    open spec fn as_item(&self) -> Item {
        Item::Enum(*self)
    }

    fn id(&self) -> (r: ItemId) {
        self.id
    }

    fn debug_name(&self, ir: &IR) -> (r: String) {
        self.identifier.identifier.clone()
    }

    fn source_loc(&self) -> (r: Option<String>) {
        Some(self.source_loc.clone())
    }

    fn unknown_attr(&self) -> (r: Option<String>) {
        copy_opt_string(&self.unknown_attr)
    }
}

impl GenericItem for Record {
    open spec fn as_item(&self) -> Item {
        Item::Record(*self)
    }

    fn id(&self) -> (r: ItemId) {
        self.id
    }

    fn debug_name(&self, ir: &IR) -> (r: String) {
        self.cc_name.clone()
    }

    fn source_loc(&self) -> (r: Option<String>) {
        Some(self.source_loc.clone())
    }

    fn unknown_attr(&self) -> (r: Option<String>) {
        copy_opt_string(&self.unknown_attr)
    }
}

impl GenericItem for IncompleteRecord {
    open spec fn as_item(&self) -> Item {
        Item::IncompleteRecord(*self)
    }

    fn id(&self) -> (r: ItemId) {
        self.id
    }

    fn debug_name(&self, ir: &IR) -> (r: String) {
        self.cc_name.clone()
    }

    fn source_loc(&self) -> (r: Option<String>) {
        None
    }

    fn unknown_attr(&self) -> (r: Option<String>) {
        copy_opt_string(&self.unknown_attr)
    }
}

impl GenericItem for TypeAlias {
    open spec fn as_item(&self) -> Item {
        Item::TypeAlias(*self)
    }

    fn id(&self) -> (r: ItemId) {
        self.id
    }

    fn debug_name(&self, ir: &IR) -> (r: String) {
        self.identifier.identifier.clone()
    }

    fn source_loc(&self) -> (r: Option<String>) {
        Some(self.source_loc.clone())
    }

    fn unknown_attr(&self) -> (r: Option<String>) {
        copy_opt_string(&self.unknown_attr)
    }
}

impl GenericItem for Namespace {
    open spec fn as_item(&self) -> Item {
        Item::Namespace(*self)
    }

    fn id(&self) -> (r: ItemId) {
        self.id
    }

    fn debug_name(&self, ir: &IR) -> (r: String) {
        self.name.identifier.clone()
    }

    fn source_loc(&self) -> (r: Option<String>) {
        None
    }

    fn unknown_attr(&self) -> (r: Option<String>) {
        copy_opt_string(&self.unknown_attr)
    }
}

impl GenericItem for TypeMapOverride {
    open spec fn as_item(&self) -> Item {
        Item::TypeMapOverride(*self)
    }

    fn id(&self) -> (r: ItemId) {
        self.id
    }

    fn debug_name(&self, ir: &IR) -> (r: String) {
        self.cc_name.clone()
    }

    fn source_loc(&self) -> (r: Option<String>) {
        None
    }

    fn unknown_attr(&self) -> (r: Option<String>) {
        None
    }
}

impl UnsupportedItem {
    /// An item without bindings that stands for `item`, with the reason as
    /// a message.
    pub fn new_with_message<T: GenericItem>(ir: &IR, item: &T, message: String) -> (r: Self)
        requires
            can_be_named(*ir, item.as_item()),
        ensures
            r.name@ == item_debug_name(*ir, item.as_item()),
            r.id == item_id(item.as_item()),
            r.errors@.len() == 1,
            r.errors@[0].fmt@ == "{}"@,
            r.errors@[0].message@ == message@,
            r.source_loc is Some == item_source_loc(item.as_item()) is Some,
            r.source_loc matches Some(l) ==> l@ == item_source_loc(item.as_item())->0,
    {
        let mut errors: Vec<FormattedError> = Vec::new();
        errors.push(FormattedError { fmt: String::from_str("{}"), message });
        UnsupportedItem {
            name: item.debug_name(ir),
            errors,
            source_loc: item.source_loc(),
            id: item.id(),
        }
    }

    /// An item without bindings that stands for `item`, with the reason as
    /// an error, whose messages are shown from the outermost on.
    pub fn new_with_cause<T: GenericItem>(ir: &IR, item: &T, cause: &Error) -> (r: Self)
        requires
            can_be_named(*ir, item.as_item()),
        ensures
            r.name@ == item_debug_name(*ir, item.as_item()),
            r.id == item_id(item.as_item()),
            r.errors@.len() == 1,
            r.errors@[0].fmt@ == "{}"@,
            r.errors@[0].message@ == full_message(cause@),
            r.source_loc is Some == item_source_loc(item.as_item()) is Some,
            r.source_loc matches Some(l) ==> l@ == item_source_loc(item.as_item())->0,
    {
        UnsupportedItem::new_with_message(ir, item, cause.full_message())
    }
}

impl IR {
    /// The functions, in the order of the items.
    pub fn functions(&self) -> (r: Vec<&Func>)
        ensures
            referents(r@) == functions_in(self.all_items(), self.all_items().len() as int),
    {
        let items = self.items();
        let mut out: Vec<&Func> = Vec::new();
        assert(referents(out@) =~= Seq::<Func>::empty());
        let mut i: usize = 0;
        while i < items.len()
            invariant
                i <= items.len(),
                referents(out@) == functions_in(items@, i as int),
            decreases items.len() - i,
        {
            let ghost before = referents(out@);
            match &items[i] {
                Item::Func(f) => {
                    out.push(f);
                    assert(referents(out@) =~= before.push(*f));
                },
                _ => {},
            }
            i += 1;
        }
        out
    }

    /// The functions with the given name, in the order of the items.
    pub fn get_functions_by_name(&self, function_name: &UnqualifiedIdentifier) -> (r: Vec<&Func>)
        ensures
            referents(r@) == functions_named(
                self.all_items(),
                *function_name,
                self.all_items().len() as int,
            ),
    {
        let items = self.items();
        let mut out: Vec<&Func> = Vec::new();
        assert(referents(out@) =~= Seq::<Func>::empty());
        let mut i: usize = 0;
        while i < items.len()
            invariant
                i <= items.len(),
                referents(out@) == functions_named(items@, *function_name, i as int),
            decreases items.len() - i,
        {
            let ghost before = referents(out@);
            match &items[i] {
                Item::Func(f) => {
                    if f.name.same_as(function_name) {
                        out.push(f);
                        assert(referents(out@) =~= before.push(*f));
                    }
                },
                _ => {},
            }
            i += 1;
        }
        out
    }

    /// The records, in the order of the items.
    pub fn records(&self) -> (r: Vec<&Record>)
        ensures
            referents(r@) == records_in(self.all_items(), self.all_items().len() as int),
    {
        let items = self.items();
        let mut out: Vec<&Record> = Vec::new();
        assert(referents(out@) =~= Seq::<Record>::empty());
        let mut i: usize = 0;
        while i < items.len()
            invariant
                i <= items.len(),
                referents(out@) == records_in(items@, i as int),
            decreases items.len() - i,
        {
            let ghost before = referents(out@);
            match &items[i] {
                Item::Record(x) => {
                    out.push(x);
                    assert(referents(out@) =~= before.push(*x));
                },
                _ => {},
            }
            i += 1;
        }
        out
    }

    /// The items without bindings, in the order of the items.
    pub fn unsupported_items(&self) -> (r: Vec<&UnsupportedItem>)
        ensures
            referents(r@) == unsupported_in(self.all_items(), self.all_items().len() as int),
    {
        let items = self.items();
        let mut out: Vec<&UnsupportedItem> = Vec::new();
        assert(referents(out@) =~= Seq::<UnsupportedItem>::empty());
        let mut i: usize = 0;
        while i < items.len()
            invariant
                i <= items.len(),
                referents(out@) == unsupported_in(items@, i as int),
            decreases items.len() - i,
        {
            let ghost before = referents(out@);
            match &items[i] {
                Item::UnsupportedItem(x) => {
                    out.push(x);
                    assert(referents(out@) =~= before.push(*x));
                },
                _ => {},
            }
            i += 1;
        }
        out
    }

    /// The comments, in the order of the items.
    pub fn comments(&self) -> (r: Vec<&Comment>)
        ensures
            referents(r@) == comments_in(self.all_items(), self.all_items().len() as int),
    {
        let items = self.items();
        let mut out: Vec<&Comment> = Vec::new();
        assert(referents(out@) =~= Seq::<Comment>::empty());
        let mut i: usize = 0;
        while i < items.len()
            invariant
                i <= items.len(),
                referents(out@) == comments_in(items@, i as int),
            decreases items.len() - i,
        {
            let ghost before = referents(out@);
            match &items[i] {
                Item::Comment(x) => {
                    out.push(x);
                    assert(referents(out@) =~= before.push(*x));
                },
                _ => {},
            }
            i += 1;
        }
        out
    }

    /// The namespaces, in the order of the items.
    pub fn namespaces(&self) -> (r: Vec<&Namespace>)
        ensures
            referents(r@) == namespaces_in(self.all_items(), self.all_items().len() as int),
    {
        let items = self.items();
        let mut out: Vec<&Namespace> = Vec::new();
        assert(referents(out@) =~= Seq::<Namespace>::empty());
        let mut i: usize = 0;
        while i < items.len()
            invariant
                i <= items.len(),
                referents(out@) == namespaces_in(items@, i as int),
            decreases items.len() - i,
        {
            let ghost before = referents(out@);
            match &items[i] {
                Item::Namespace(x) => {
                    out.push(x);
                    assert(referents(out@) =~= before.push(*x));
                },
                _ => {},
            }
            i += 1;
        }
        out
    }

    /// The namespaces in which an item lies, the outermost first.
    pub fn namespace_qualifier<T: GenericItem>(&self, item: &T) -> (r: Result<
        NamespaceQualifier,
        Error,
    >)
        ensures
            match namespace_qualifier_of(*self, item_id(item.as_item())) {
                Ok(ns) => r matches Ok(q) && q.parts() == ns,
                Err(e) => r matches Err(x) && x@ == e,
            },
    {
        let found = match self.find_decl(item.id()) {
            Ok(i) => i,
            Err(e) => {
                return Err(e);
            },
        };
        let mut namespaces: Vec<String> = Vec::new();
        assert(views(namespaces@) =~= Seq::<Seq<char>>::empty());
        let mut enclosing = found.enclosing_item_id();
        let mut fuel: usize = self.items().len();
        let ghost goal = namespace_qualifier_of(*self, item_id(item.as_item()));
        while enclosing.is_some()
            invariant
                goal == namespace_qualifier_of(*self, item_id(item.as_item())),
                goal == namespaces_around(*self, enclosing, views(namespaces@), fuel as nat),
            decreases fuel,
        {
            let parent_id = enclosing.unwrap();
            if fuel == 0 {
                return Err(Error::new("The items that enclose one another form a cycle"));
            }
            match self.find_decl(parent_id) {
                Err(e) => {
                    return Err(e);
                },
                Ok(Item::Namespace(ns)) => {
                    let ghost before = views(namespaces@);
                    let name = ns.name.identifier.clone();
                    namespaces.insert(0, name);
                    assert(views(namespaces@) =~= seq![ns.name.identifier@] + before);
                    enclosing = ns.enclosing_item_id;
                },
                Ok(Item::Record(_)) => {
                    if namespaces.len() != 0 {
                        return Err(Error::new("Found namespaces inside of a record"));
                    }
                    return Ok(NamespaceQualifier(namespaces));
                },
                Ok(_) => {
                    return Err(Error::new("Expected namespace"));
                },
            }
            fuel -= 1;
        }
        Ok(NamespaceQualifier(namespaces))
    }
}

/// Every item of the description can be named.
pub open spec fn all_can_be_named(ir: IR) -> bool {
    forall|i: int| 0 <= i < ir.all_items().len() ==> can_be_named(ir, #[trigger] ir.all_items()[i])
}

/// Whether an item can be named.
pub fn check_can_be_named(ir: &IR, item: &Item) -> (r: bool)
    ensures
        r == can_be_named(*ir, *item),
{
    match item {
        Item::Func(f) => match &f.member_func_metadata {
            Some(meta) => ir.lookup(meta.record_id).is_some(),
            None => match &f.name {
                UnqualifiedIdentifier::Constructor => false,
                UnqualifiedIdentifier::Destructor => false,
                _ => true,
            },
        },
        _ => true,
    }
}

/// Whether every item of the description can be named.
pub fn can_be_named_all(ir: &IR) -> (r: bool)
    ensures
        r == all_can_be_named(*ir),
{
    let items = ir.items();
    let mut i: usize = 0;
    while i < items.len()
        invariant
            i <= items.len(),
            items@ == ir.all_items(),
            forall|j: int| 0 <= j < i ==> can_be_named(*ir, #[trigger] items@[j]),
        decreases items.len() - i,
    {
        if !check_can_be_named(ir, &items[i]) {
            return false;
        }
        i += 1;
    }
    true
}

} // verus!
