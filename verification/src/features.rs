//! Which items of a C++ interface get Rust bindings: an item needs its
//! target to have switched on the features that the item uses, and it
//! needs the item around it to have bindings.

use vstd::prelude::*;
use vstd::string::*;
use crate::error::Error;
use crate::ir::{
    feature_aspect_hint, item_defining_target, item_enclosing_id, item_is_type_definition,
    item_owning_target, item_unknown_attr, BazelLabel, CrubitFeature, CrubitFeatures, Func,
    FuncParam, Item, ItemId, UnqualifiedIdentifier,
};
use crate::ir_db::{features_of, IR};
use crate::ir_queries::{can_be_named, item_debug_name, GenericItem};
use crate::text::{decimal, join, join_strings, push_decimal, views};
use crate::type_map::Messages;

verus! {

/// A capability that an item uses and that a target has not switched on.
/// Where `//foo` lacks `experimental` for the addition of integers in
/// `kFoo`: the target `//foo`, the item `kFoo`, the missing feature
/// `experimental`, and the description `int addition`.
#[derive(Clone, PartialEq, Eq, Debug)]
pub struct RequiredCrubitFeature {
    pub target: BazelLabel,
    pub item: String,
    /// The features of which the target needs any one.
    pub missing_features: CrubitFeatures,
    pub capability_description: String,
}

/// The values of a `RequiredCrubitFeature`.
pub struct RequiredView {
    pub target: Seq<char>,
    pub item: Seq<char>,
    pub missing_features: CrubitFeatures,
    pub capability_description: Seq<char>,
}

impl View for RequiredCrubitFeature {
    type V = RequiredView;

    open spec fn view(&self) -> RequiredView {
        RequiredView {
            target: self.target.0@,
            item: self.item@,
            missing_features: self.missing_features,
            capability_description: self.capability_description@,
        }
    }
}

/// The views of a list of missing features.
pub open spec fn required_views(v: Seq<RequiredCrubitFeature>) -> Seq<RequiredView> {
    v.map_values(|r: RequiredCrubitFeature| r@)
}

/// The hints that switch the features of a set on.
pub open spec fn feature_hints(f: CrubitFeatures) -> Seq<Seq<char>> {
    (if f.supported {
        seq![feature_aspect_hint(CrubitFeature::Supported)]
    } else {
        Seq::empty()
    }) + (if f.non_extern_c_functions {
        seq![feature_aspect_hint(CrubitFeature::NonExternCFunctions)]
    } else {
        Seq::empty()
    }) + (if f.experimental {
        seq![feature_aspect_hint(CrubitFeature::Experimental)]
    } else {
        Seq::empty()
    })
}

/// A missing feature as messages show it.
pub open spec fn required_display(r: RequiredView) -> Seq<char> {
    let head = r.target + " needs ["@ + join(feature_hints(r.missing_features), ", "@) + "] for "@
        + r.item;
    if r.capability_description.len() != 0 {
        head + " ("@ + r.capability_description + ")"@
    } else {
        head
    }
}

impl RequiredCrubitFeature {
    /// The missing feature as messages show it.
    pub fn display_string(&self) -> (s: String)
        ensures
            s@ == required_display(self@),
    {
        let mut hints: Vec<String> = Vec::new();
        assert(views(hints@) =~= Seq::<Seq<char>>::empty());
        if self.missing_features.supported {
            hints.push(String::from_str(CrubitFeature::Supported.aspect_hint()));
        }
        let ghost first = views(hints@);
        assert(first =~= if self.missing_features.supported {
            seq![feature_aspect_hint(CrubitFeature::Supported)]
        } else {
            Seq::empty()
        });
        if self.missing_features.non_extern_c_functions {
            hints.push(String::from_str(CrubitFeature::NonExternCFunctions.aspect_hint()));
        }
        let ghost second = views(hints@);
        assert(second =~= first + (if self.missing_features.non_extern_c_functions {
            seq![feature_aspect_hint(CrubitFeature::NonExternCFunctions)]
        } else {
            Seq::empty()
        }));
        if self.missing_features.experimental {
            hints.push(String::from_str(CrubitFeature::Experimental.aspect_hint()));
        }
        assert(views(hints@) =~= second + (if self.missing_features.experimental {
            seq![feature_aspect_hint(CrubitFeature::Experimental)]
        } else {
            Seq::empty()
        }));
        let mut s = self.target.0.clone();
        s.append(" needs [");
        s.append(join_strings(&hints, ", ").as_str());
        s.append("] for ");
        s.append(self.item.as_str());
        if self.capability_description.as_str().unicode_len() != 0 {
            s.append(" (");
            s.append(self.capability_description.as_str());
            s.append(")");
        }
        s
    }
}

/// What a target lacks for one type.
#[derive(Debug)]
pub struct TypeNeed {
    /// The features that the target has not switched on and the type needs.
    pub missing: CrubitFeatures,
    /// What of the type needs them.
    pub description: String,
}

/// What the targets of an item lack for one of the item's types: where
/// the item has a defining target, what that target lacks, and then what
/// the owning target lacks.
#[derive(Debug)]
pub struct TypeReport {
    pub per_target: Vec<TypeNeed>,
}

/// What is known of the types of an item: of a function, its return type
/// and then the types of its parameters; of a record, an alias or an enum,
/// the type that the item defines. A type that cannot be used at all has
/// an error in place of its report.
#[derive(Debug)]
pub struct ItemTypes {
    pub types: Vec<Result<TypeReport, Error>>,
}

/// The targets whose features decide on the bindings of an item.
pub open spec fn item_targets(item: Item) -> Seq<BazelLabel> {
    (match item_defining_target(item) {
        Some(t) => seq![t],
        None => Seq::empty(),
    }) + (match item_owning_target(item) {
        Some(t) => seq![t],
        None => Seq::empty(),
    })
}

/// No feature of `wanted` is among `enabled`.
pub open spec fn none_enabled(wanted: CrubitFeatures, enabled: CrubitFeatures) -> bool {
    !(wanted.supported && enabled.supported) && !(wanted.non_extern_c_functions
        && enabled.non_extern_c_functions) && !(wanted.experimental && enabled.experimental)
}

/// What the first `n` targets lack, where a capability needs any one of
/// the features `alternatives`.
pub open spec fn any_missing(
    ir: IR,
    targets: Seq<BazelLabel>,
    name: Seq<char>,
    alternatives: CrubitFeatures,
    description: Seq<char>,
    n: int,
) -> Seq<RequiredView>
    decreases n,
{
    if n <= 0 || n > targets.len() {
        Seq::empty()
    } else if none_enabled(alternatives, features_of(ir.features(), targets[n - 1].0@, 0)) {
        any_missing(ir, targets, name, alternatives, description, n - 1).push(
            RequiredView {
                target: targets[n - 1].0@,
                item: name,
                missing_features: alternatives,
                capability_description: description,
            },
        )
    } else {
        any_missing(ir, targets, name, alternatives, description, n - 1)
    }
}

/// What a type needs, said in the context in which the type stands.
pub open spec fn described(context: Seq<char>, description: Seq<char>) -> Seq<char> {
    if description.len() == 0 {
        context
    } else if context.len() == 0 {
        description
    } else {
        context + ": "@ + description
    }
}

/// What the first `n` targets lack for a type.
pub open spec fn type_missing(
    targets: Seq<BazelLabel>,
    name: Seq<char>,
    report: Seq<TypeNeed>,
    context: Seq<char>,
    n: int,
) -> Seq<RequiredView>
    decreases n,
{
    if n <= 0 || n > targets.len() || n > report.len() {
        Seq::empty()
    } else if !report[n - 1].missing.none() {
        type_missing(targets, name, report, context, n - 1).push(
            RequiredView {
                target: targets[n - 1].0@,
                item: name,
                missing_features: report[n - 1].missing,
                capability_description: described(context, report[n - 1].description@),
            },
        )
    } else {
        type_missing(targets, name, report, context, n - 1)
    }
}

/// The number of targets for which a report says something.
pub open spec fn reported(targets: Seq<BazelLabel>, report: Seq<TypeNeed>) -> int {
    if report.len() <= targets.len() {
        report.len() as int
    } else {
        targets.len() as int
    }
}

/// What is known of the `k`-th type of an item.
pub open spec fn type_at(types: Seq<Result<TypeReport, Error>>, k: int) -> Result<
    Seq<TypeNeed>,
    Messages,
> {
    if 0 <= k < types.len() {
        match types[k] {
            Ok(r) => Ok(r.per_target@),
            Err(e) => Err(e@),
        }
    } else {
        Err(seq!["Nothing is known of the type"@])
    }
}

/// The features that a set of one feature holds.
pub open spec fn just(f: CrubitFeature) -> CrubitFeatures {
    CrubitFeatures {
        supported: f == CrubitFeature::Supported,
        non_extern_c_functions: f == CrubitFeature::NonExternCFunctions,
        experimental: f == CrubitFeature::Experimental,
    }
}

/// What the targets lack for the types of the first `n` parameters; the
/// error of the first type that cannot be used at all.
pub open spec fn param_types_missing(
    targets: Seq<BazelLabel>,
    name: Seq<char>,
    params: Seq<FuncParam>,
    types: Seq<Result<TypeReport, Error>>,
    n: int,
) -> Result<Seq<RequiredView>, Messages>
    decreases n,
{
    if n <= 0 || n > params.len() {
        Ok(Seq::empty())
    } else {
        match param_types_missing(targets, name, params, types, n - 1) {
            Err(e) => Err(e),
            Ok(before) => match type_at(types, n) {
                Err(e) => Err(e),
                Ok(report) => Ok(
                    before + type_missing(
                        targets,
                        name,
                        report,
                        "the type of "@ + params[n - 1].identifier.identifier@ + " (parameter #"@
                            + decimal((n - 1) as nat) + ")"@,
                        reported(targets, report),
                    ),
                ),
            },
        }
    }
}

/// What the targets lack for the parameters, among the first `n`, that have
/// attributes which are not understood.
pub open spec fn param_attrs_missing(
    ir: IR,
    targets: Seq<BazelLabel>,
    name: Seq<char>,
    params: Seq<FuncParam>,
    n: int,
) -> Seq<RequiredView>
    decreases n,
{
    if n <= 0 || n > params.len() {
        Seq::empty()
    } else {
        match params[n - 1].unknown_attr {
            Some(attr) => param_attrs_missing(ir, targets, name, params, n - 1) + any_missing(
                ir,
                targets,
                name,
                just(CrubitFeature::Experimental),
                "param "@ + params[n - 1].identifier.identifier@ + " has unknown attribute(s): "@
                    + attr@,
                targets.len() as int,
            ),
            None => param_attrs_missing(ir, targets, name, params, n - 1),
        }
    }
}

/// What the targets lack for a function. A destructor needs `supported`
/// and nothing else. Any other function needs what its types need;
/// `supported` where it has C linkage, else `non_extern_c_functions` or
/// `experimental`; and `experimental` for a calling convention other
/// than that of C, for `[[noreturn]]`, `[[nodiscard]]`, `[[deprecated]]`
/// and for a parameter with attributes that are not understood.
pub open spec fn func_missing(
    ir: IR,
    f: Func,
    targets: Seq<BazelLabel>,
    name: Seq<char>,
    types: Seq<Result<TypeReport, Error>>,
) -> Result<Seq<RequiredView>, Messages> {
    let all = targets.len() as int;
    let experimental = just(CrubitFeature::Experimental);
    if f.name is Destructor {
        Ok(any_missing(ir, targets, name, just(CrubitFeature::Supported), "destructors"@, all))
    } else {
        match type_at(types, 0) {
            Err(e) => Err(e),
            Ok(ret) => match param_types_missing(
                targets,
                name,
                f.params@,
                types,
                f.params@.len() as int,
            ) {
                Err(e) => Err(e),
                Ok(params) => Ok(
                    type_missing(targets, name, ret, "return type"@, reported(targets, ret))
                        + params + (if f.is_extern_c {
                        any_missing(
                            ir,
                            targets,
                            name,
                            just(CrubitFeature::Supported),
                            "extern \"C\" function"@,
                            all,
                        )
                    } else {
                        any_missing(
                            ir,
                            targets,
                            name,
                            CrubitFeatures {
                                supported: false,
                                non_extern_c_functions: true,
                                experimental: true,
                            },
                            "non-extern \"C\" function"@,
                            all,
                        )
                    }) + (if !f.has_c_calling_convention {
                        any_missing(ir, targets, name, experimental, "non-C calling convention"@, all)
                    } else {
                        Seq::empty()
                    }) + (if f.is_noreturn {
                        any_missing(ir, targets, name, experimental, "[[noreturn]] attribute"@, all)
                    } else {
                        Seq::empty()
                    }) + (if f.nodiscard is Some {
                        any_missing(ir, targets, name, experimental, "[[nodiscard]] attribute"@, all)
                    } else {
                        Seq::empty()
                    }) + (if f.deprecated is Some {
                        any_missing(ir, targets, name, experimental, "[[deprecated]] attribute"@, all)
                    } else {
                        Seq::empty()
                    }) + param_attrs_missing(ir, targets, name, f.params@, f.params@.len() as int),
                ),
            },
        }
    }
}

/// What the targets of an item lack for the item, after what they lack for
/// its attributes that are not understood.
pub open spec fn kind_missing(
    ir: IR,
    item: Item,
    targets: Seq<BazelLabel>,
    name: Seq<char>,
    types: Seq<Result<TypeReport, Error>>,
) -> Result<Seq<RequiredView>, Messages> {
    let all = targets.len() as int;
    match item {
        Item::UnsupportedItem(_) => Ok(Seq::empty()),
        Item::Func(f) => func_missing(ir, f, targets, name, types),
        Item::Record(_) | Item::TypeAlias(_) | Item::Enum(_) => match type_at(types, 0) {
            Err(e) => Err(e),
            Ok(report) => Ok(type_missing(targets, name, report, ""@, reported(targets, report))),
        },
        Item::Namespace(_) => Ok(
            any_missing(ir, targets, name, just(CrubitFeature::Supported), "namespace"@, all),
        ),
        Item::IncompleteRecord(_) => Ok(
            any_missing(ir, targets, name, just(CrubitFeature::Experimental), "incomplete type"@, all),
        ),
        Item::Comment(_) | Item::UseMod(_) => Ok(Seq::empty()),
        Item::TypeMapOverride(_) => Ok(
            any_missing(
                ir,
                targets,
                name,
                just(CrubitFeature::Experimental),
                "type map override"@,
                all,
            ),
        ),
    }
}

/// The features that an item uses and that its targets have not switched
/// on. Where the list is not empty, the item gets no bindings.
pub open spec fn required_features(ir: IR, item: Item, types: Seq<Result<TypeReport, Error>>) -> Result<
    Seq<RequiredView>,
    Messages,
> {
    let targets = item_targets(item);
    let name = item_debug_name(ir, item);
    let attrs = match item_unknown_attr(item) {
        Some(attr) => any_missing(
            ir,
            targets,
            name,
            just(CrubitFeature::Experimental),
            "unknown attribute(s): "@ + attr,
            targets.len() as int,
        ),
        None => Seq::empty(),
    };
    match kind_missing(ir, item, targets, name, types) {
        Err(e) => Err(e),
        Ok(rest) => Ok(attrs + rest),
    }
}

/// Copies of the targets of an item.
pub fn targets_of(item: &Item) -> (r: Vec<BazelLabel>)
    ensures
        r@ == item_targets(*item),
{
    let mut v: Vec<BazelLabel> = Vec::new();
    match item.defining_target() {
        Some(t) => v.push(BazelLabel(t.0.clone())),
        None => {},
    }
    let ghost first = v@;
    match item.owning_target() {
        Some(t) => v.push(BazelLabel(t.0.clone())),
        None => {},
    }
    assert(v@ =~= item_targets(*item));
    v
}

/// Adds what the targets lack where a capability needs any one of the
/// features `alternatives`.
pub fn require_any_feature(
    ir: &IR,
    targets: &Vec<BazelLabel>,
    name: &str,
    missing_features: &mut Vec<RequiredCrubitFeature>,
    alternatives: CrubitFeatures,
    description: &str,
)
    ensures
        required_views(final(missing_features)@) == required_views(old(missing_features)@)
            + any_missing(*ir, targets@, name@, alternatives, description@, targets@.len() as int),
{
    let ghost start = required_views(missing_features@);
    assert(start + Seq::<RequiredView>::empty() =~= start);
    let mut i: usize = 0;
    while i < targets.len()
        invariant
            i <= targets.len(),
            required_views(missing_features@) == start + any_missing(
                *ir,
                targets@,
                name@,
                alternatives,
                description@,
                i as int,
            ),
        decreases targets.len() - i,
    {
        let enabled = ir.target_crubit_features(&targets[i]);
        let common = alternatives.intersection(enabled);
        proof {
            assert(common.has(CrubitFeature::Supported) == (alternatives.has(
                CrubitFeature::Supported,
            ) && enabled.has(CrubitFeature::Supported)));
            assert(common.has(CrubitFeature::NonExternCFunctions) == (alternatives.has(
                CrubitFeature::NonExternCFunctions,
            ) && enabled.has(CrubitFeature::NonExternCFunctions)));
            assert(common.has(CrubitFeature::Experimental) == (alternatives.has(
                CrubitFeature::Experimental,
            ) && enabled.has(CrubitFeature::Experimental)));
            assert(common.none() == none_enabled(alternatives, enabled));
        }
        if common.is_empty() {
            let ghost before = required_views(missing_features@);
            let r = RequiredCrubitFeature {
                target: BazelLabel::new(targets[i].0.as_str()),
                item: String::from_str(name),
                missing_features: alternatives,
                capability_description: String::from_str(description),
            };
            missing_features.push(r);
            assert(required_views(missing_features@) =~= before.push(r@));
            assert(start + any_missing(
                *ir,
                targets@,
                name@,
                alternatives,
                description@,
                i as int,
            ).push(r@) =~= (start + any_missing(
                *ir,
                targets@,
                name@,
                alternatives,
                description@,
                i as int,
            )).push(r@));
        }
        i += 1;
    }
}

/// Adds what the targets lack for a type.
pub fn require_rs_type_kind(
    targets: &Vec<BazelLabel>,
    name: &str,
    missing_features: &mut Vec<RequiredCrubitFeature>,
    report: &TypeReport,
    context: &str,
)
    ensures
        required_views(final(missing_features)@) == required_views(old(missing_features)@)
            + type_missing(
            targets@,
            name@,
            report.per_target@,
            context@,
            reported(targets@, report.per_target@),
        ),
{
    let ghost start = required_views(missing_features@);
    assert(start + Seq::<RequiredView>::empty() =~= start);
    let count = if report.per_target.len() <= targets.len() {
        report.per_target.len()
    } else {
        targets.len()
    };
    let mut i: usize = 0;
    while i < count
        invariant
            i <= count,
            count as int == reported(targets@, report.per_target@),
            required_views(missing_features@) == start + type_missing(
                targets@,
                name@,
                report.per_target@,
                context@,
                i as int,
            ),
        decreases count - i,
    {
        let need = &report.per_target[i];
        if !need.missing.is_empty() {
            let ghost before = required_views(missing_features@);
            let capability_description = if need.description.as_str().unicode_len() == 0 {
                String::from_str(context)
            } else if context.unicode_len() == 0 {
                need.description.clone()
            } else {
                let mut s = String::from_str(context);
                s.append(": ");
                s.append(need.description.as_str());
                s
            };
            let r = RequiredCrubitFeature {
                target: BazelLabel::new(targets[i].0.as_str()),
                item: String::from_str(name),
                missing_features: need.missing,
                capability_description,
            };
            missing_features.push(r);
            assert(required_views(missing_features@) =~= before.push(r@));
            assert(start + type_missing(
                targets@,
                name@,
                report.per_target@,
                context@,
                i as int,
            ).push(r@) =~= (start + type_missing(
                targets@,
                name@,
                report.per_target@,
                context@,
                i as int,
            )).push(r@));
        }
        i += 1;
    }
}

/// The set of one feature.
pub fn only(f: CrubitFeature) -> (r: CrubitFeatures)
    ensures
        r == just(f),
{
    match f {
        CrubitFeature::Supported => CrubitFeatures {
            supported: true,
            non_extern_c_functions: false,
            experimental: false,
        },
        CrubitFeature::NonExternCFunctions => CrubitFeatures {
            supported: false,
            non_extern_c_functions: true,
            experimental: false,
        },
        CrubitFeature::Experimental => CrubitFeatures {
            supported: false,
            non_extern_c_functions: false,
            experimental: true,
        },
    }
}

/// A features result and the function's result agree.
pub open spec fn required_result_is(
    r: Result<Vec<RequiredCrubitFeature>, Error>,
    expected: Result<Seq<RequiredView>, Messages>,
) -> bool {
    match expected {
        Ok(v) => r matches Ok(list) && required_views(list@) == v,
        Err(e) => r matches Err(x) && x@ == e,
    }
}

/// What is known of the `k`-th type of an item.
pub fn get_type(types: &ItemTypes, k: usize) -> (r: Result<&TypeReport, Error>)
    ensures
        match type_at(types.types@, k as int) {
            Ok(report) => r matches Ok(x) && x.per_target@ == report,
            Err(e) => r matches Err(x) && x@ == e,
        },
{
    if k < types.types.len() {
        match &types.types[k] {
            Ok(r) => Ok(r),
            Err(e) => Err(e.copy()),
        }
    } else {
        Err(Error::new("Nothing is known of the type"))
    }
}

/// Finds what the targets lack for a function.
pub fn required_func_features(
    ir: &IR,
    f: &Func,
    targets: &Vec<BazelLabel>,
    name: &str,
    types: &ItemTypes,
    missing_features: &mut Vec<RequiredCrubitFeature>,
) -> (r: Result<(), Error>)
    ensures
        match func_missing(*ir, *f, targets@, name@, types.types@) {
            Ok(v) => r is Ok && required_views(final(missing_features)@) == required_views(
                old(missing_features)@,
            ) + v,
            Err(e) => r matches Err(x) && x@ == e,
        },
{
    let ghost start = required_views(missing_features@);
    let ghost all = targets@.len() as int;
    match &f.name {
        UnqualifiedIdentifier::Destructor => {
            require_any_feature(
                ir,
                targets,
                name,
                missing_features,
                only(CrubitFeature::Supported),
                "destructors",
            );
            return Ok(());
        },
        _ => {},
    }
    let ret = match get_type(types, 0) {
        Ok(r) => r,
        Err(e) => {
            return Err(e);
        },
    };
    let mut found: Vec<RequiredCrubitFeature> = Vec::new();
    assert(required_views(found@) =~= Seq::<RequiredView>::empty());
    require_rs_type_kind(targets, name, &mut found, ret, "return type");
    let ghost ret_part = type_missing(
        targets@,
        name@,
        ret.per_target@,
        "return type"@,
        reported(targets@, ret.per_target@),
    );
    assert(required_views(found@) =~= ret_part);
    let mut i: usize = 0;
    while i < f.params.len()
        invariant
            i <= f.params.len(),
            !(f.name is Destructor),
            type_at(types.types@, 0) is Ok,
            param_types_missing(targets@, name@, f.params@, types.types@, i as int) is Ok,
            required_views(found@) == ret_part + param_types_missing(
                targets@,
                name@,
                f.params@,
                types.types@,
                i as int,
            )->Ok_0,
        decreases f.params.len() - i,
    {
        let ghost before = param_types_missing(targets@, name@, f.params@, types.types@, i as int)->Ok_0;
        let report = match get_type(types, i + 1) {
            Ok(r) => r,
            Err(e) => {
                proof {
                    lemma_param_types_error(
                        targets@,
                        name@,
                        f.params@,
                        types.types@,
                        i + 1,
                        f.params@.len() as int,
                    );
                }
                return Err(e);
            },
        };
        let mut context = String::from_str("the type of ");
        context.append(f.params[i].identifier.identifier.as_str());
        context.append(" (parameter #");
        push_decimal(&mut context, i as u64);
        context.append(")");
        require_rs_type_kind(targets, name, &mut found, report, context.as_str());
        assert(ret_part + before + type_missing(
            targets@,
            name@,
            report.per_target@,
            context@,
            reported(targets@, report.per_target@),
        ) =~= ret_part + (before + type_missing(
            targets@,
            name@,
            report.per_target@,
            context@,
            reported(targets@, report.per_target@),
        )));
        i += 1;
    }
    if f.is_extern_c {
        require_any_feature(
            ir,
            targets,
            name,
            &mut found,
            only(CrubitFeature::Supported),
            "extern \"C\" function",
        );
    } else {
        require_any_feature(
            ir,
            targets,
            name,
            &mut found,
            CrubitFeatures { supported: false, non_extern_c_functions: true, experimental: true },
            "non-extern \"C\" function",
        );
    }
    let experimental = only(CrubitFeature::Experimental);
    if !f.has_c_calling_convention {
        require_any_feature(ir, targets, name, &mut found, experimental, "non-C calling convention");
    } else {
        assert(required_views(found@) + Seq::<RequiredView>::empty() =~= required_views(found@));
    }
    if f.is_noreturn {
        require_any_feature(ir, targets, name, &mut found, experimental, "[[noreturn]] attribute");
    } else {
        assert(required_views(found@) + Seq::<RequiredView>::empty() =~= required_views(found@));
    }
    if f.nodiscard.is_some() {
        require_any_feature(ir, targets, name, &mut found, experimental, "[[nodiscard]] attribute");
    } else {
        assert(required_views(found@) + Seq::<RequiredView>::empty() =~= required_views(found@));
    }
    if f.deprecated.is_some() {
        require_any_feature(ir, targets, name, &mut found, experimental, "[[deprecated]] attribute");
    } else {
        assert(required_views(found@) + Seq::<RequiredView>::empty() =~= required_views(found@));
    }
    let ghost fixed = required_views(found@);
    assert(fixed + Seq::<RequiredView>::empty() =~= fixed);
    let mut j: usize = 0;
    while j < f.params.len()
        invariant
            j <= f.params.len(),
            experimental == just(CrubitFeature::Experimental),
            required_views(found@) == fixed + param_attrs_missing(
                *ir,
                targets@,
                name@,
                f.params@,
                j as int,
            ),
        decreases f.params.len() - j,
    {
        let ghost before = param_attrs_missing(*ir, targets@, name@, f.params@, j as int);
        match &f.params[j].unknown_attr {
            Some(attr) => {
                let mut d = String::from_str("param ");
                d.append(f.params[j].identifier.identifier.as_str());
                d.append(" has unknown attribute(s): ");
                d.append(attr.as_str());
                require_any_feature(ir, targets, name, &mut found, experimental, d.as_str());
                assert(fixed + before + any_missing(
                    *ir,
                    targets@,
                    name@,
                    experimental,
                    d@,
                    targets@.len() as int,
                ) =~= fixed + (before + any_missing(
                    *ir,
                    targets@,
                    name@,
                    experimental,
                    d@,
                    targets@.len() as int,
                )));
            },
            None => {},
        }
        j += 1;
    }
    append_required(missing_features, found);
    Ok(())
}

/// Once a type cannot be used, neither can the function.
pub proof fn lemma_param_types_error(
    targets: Seq<BazelLabel>,
    name: Seq<char>,
    params: Seq<FuncParam>,
    types: Seq<Result<TypeReport, Error>>,
    n: int,
    m: int,
)
    requires
        0 <= n <= m <= params.len(),
        param_types_missing(targets, name, params, types, n) is Err,
    ensures
        param_types_missing(targets, name, params, types, m) == param_types_missing(
            targets,
            name,
            params,
            types,
            n,
        ),
    decreases m - n,
{
    if n < m {
        lemma_param_types_error(targets, name, params, types, n, m - 1);
    }
}

/// Moves the entries of `more` to the end of `list`.
pub fn append_required(list: &mut Vec<RequiredCrubitFeature>, more: Vec<RequiredCrubitFeature>)
    ensures
        required_views(final(list)@) == required_views(old(list)@) + required_views(more@),
{
    let mut more = more;
    let ghost a = required_views(list@);
    let ghost b = required_views(more@);
    list.append(&mut more);
    assert(required_views(list@) =~= a + b);
}

/// Finds the features that an item uses and that its targets have not
/// switched on. `types` says what the targets lack for the item's types.
pub fn required_crubit_features(ir: &IR, item: &Item, types: &ItemTypes) -> (r: Result<
    Vec<RequiredCrubitFeature>,
    Error,
>)
    requires
        can_be_named(*ir, *item),
    ensures
        required_result_is(r, required_features(*ir, *item, types.types@)),
{
    let targets = targets_of(item);
    let name = item.debug_name(ir);
    let mut missing_features: Vec<RequiredCrubitFeature> = Vec::new();
    assert(required_views(missing_features@) =~= Seq::<RequiredView>::empty());
    match item.unknown_attr() {
        Some(unknown_attr) => {
            let mut d = String::from_str("unknown attribute(s): ");
            d.append(unknown_attr.as_str());
            require_any_feature(
                ir,
                &targets,
                name.as_str(),
                &mut missing_features,
                only(CrubitFeature::Experimental),
                d.as_str(),
            );
            assert(Seq::<RequiredView>::empty() + any_missing(
                *ir,
                targets@,
                name@,
                just(CrubitFeature::Experimental),
                d@,
                targets@.len() as int,
            ) =~= any_missing(
                *ir,
                targets@,
                name@,
                just(CrubitFeature::Experimental),
                d@,
                targets@.len() as int,
            ));
        },
        None => {},
    }
    let n = name.as_str();
    match item {
        Item::UnsupportedItem(_) => {
            assert(required_views(missing_features@) + Seq::<RequiredView>::empty()
                =~= required_views(missing_features@));
        },
        Item::Func(func) => {
            match required_func_features(ir, func, &targets, n, types, &mut missing_features) {
                Ok(()) => {},
                Err(e) => {
                    return Err(e);
                },
            }
        },
        Item::Record(_) | Item::TypeAlias(_) | Item::Enum(_) => {
            let report = match get_type(types, 0) {
                Ok(r) => r,
                Err(e) => {
                    return Err(e);
                },
            };
            require_rs_type_kind(&targets, n, &mut missing_features, report, "");
        },
        Item::Namespace(_) => {
            require_any_feature(
                ir,
                &targets,
                n,
                &mut missing_features,
                only(CrubitFeature::Supported),
                "namespace",
            );
        },
        Item::IncompleteRecord(_) => {
            require_any_feature(
                ir,
                &targets,
                n,
                &mut missing_features,
                only(CrubitFeature::Experimental),
                "incomplete type",
            );
        },
        Item::Comment(_) | Item::UseMod(_) => {
            assert(required_views(missing_features@) + Seq::<RequiredView>::empty()
                =~= required_views(missing_features@));
        },
        Item::TypeMapOverride(_) => {
            require_any_feature(
                ir,
                &targets,
                n,
                &mut missing_features,
                only(CrubitFeature::Experimental),
                "type map override",
            );
        },
    }
    Ok(missing_features)
}

/// Why an item has no bindings.
#[derive(Debug)]
pub enum NoBindingsReason {
    /// A target has not switched on what the item uses.
    MissingRequiredFeatures { context: String, missing_features: Vec<RequiredCrubitFeature> },
    /// Something that the item depends on has no bindings.
    DependencyFailed { context: String, error: Error },
    /// The item itself is not bound.
    Unsupported { context: String, error: Error },
}

/// Whether an item has bindings.
#[derive(Debug)]
pub enum HasBindings {
    /// The item has bindings for sure: if the translation unit that
    /// defines it makes none, that unit does not compile.
    Yes,
    /// The item may have bindings or not; only where it is defined in the
    /// current translation unit can that be known.
    Maybe,
    /// The item has no bindings.
    No(NoBindingsReason),
}

/// The values of a `NoBindingsReason`.
pub enum ReasonView {
    MissingRequiredFeatures { context: Seq<char>, missing_features: Seq<RequiredView> },
    DependencyFailed { context: Seq<char>, error: Messages },
    Unsupported { context: Seq<char>, error: Messages },
}

/// The values of a `HasBindings`.
pub enum HasBindingsView {
    Yes,
    Maybe,
    No(ReasonView),
}

impl View for NoBindingsReason {
    type V = ReasonView;

    open spec fn view(&self) -> ReasonView {
        match *self {
            NoBindingsReason::MissingRequiredFeatures {
                context,
                missing_features,
            } => ReasonView::MissingRequiredFeatures {
                context: context@,
                missing_features: required_views(missing_features@),
            },
            NoBindingsReason::DependencyFailed { context, error } => ReasonView::DependencyFailed {
                context: context@,
                error: error@,
            },
            NoBindingsReason::Unsupported { context, error } => ReasonView::Unsupported {
                context: context@,
                error: error@,
            },
        }
    }
}

impl View for HasBindings {
    type V = HasBindingsView;

    open spec fn view(&self) -> HasBindingsView {
        match *self {
            HasBindings::Yes => HasBindingsView::Yes,
            HasBindings::Maybe => HasBindingsView::Maybe,
            HasBindings::No(r) => HasBindingsView::No(r@),
        }
    }
}

/// The error that says why an item has no bindings: for features that are
/// missing, a message that lists them; for a dependency or the item
/// itself, the cause in the context of the item.
pub open spec fn reason_error(r: ReasonView) -> Messages {
    match r {
        ReasonView::MissingRequiredFeatures { context, missing_features } => seq![
            "Can't generate bindings for "@ + context
                + ", because of missing required features (<internal link>):\n"@ + join(
                missing_features.map_values(|m: RequiredView| required_display(m)),
                "\n"@,
            ),
        ],
        ReasonView::DependencyFailed { context, error } => seq![
            "Can't generate bindings for "@ + context
                + " due to missing bindings for its dependency"@,
        ] + error,
        ReasonView::Unsupported { context, error } => seq![
            "Can't generate bindings for "@ + context + ", because it is unsupported"@,
        ] + error,
    }
}

impl NoBindingsReason {
    /// The error that says why the item has no bindings.
    pub fn into_error(self) -> (e: Error)
        ensures
            e@ == reason_error(self@),
    {
        match self {
            NoBindingsReason::MissingRequiredFeatures { context, missing_features } => {
                let ghost spec_missing = required_views(missing_features@);
                let mut all_missing: Vec<String> = Vec::new();
                let mut i: usize = 0;
                while i < missing_features.len()
                    invariant
                        i <= missing_features.len(),
                        spec_missing == required_views(missing_features@),
                        views(all_missing@) == spec_missing.map_values(
                            |m: RequiredView| required_display(m),
                        ).take(i as int),
                    decreases missing_features.len() - i,
                {
                    let ghost before = views(all_missing@);
                    assert(spec_missing[i as int] == missing_features@[i as int]@);
                    let s = missing_features[i].display_string();
                    all_missing.push(s);
                    assert(views(all_missing@) =~= before.push(s@));
                    assert(views(all_missing@) =~= spec_missing.map_values(
                        |m: RequiredView| required_display(m),
                    ).take(i + 1));
                    i += 1;
                }
                assert(spec_missing.map_values(|m: RequiredView| required_display(m)).take(
                    missing_features.len() as int,
                ) =~= spec_missing.map_values(|m: RequiredView| required_display(m)));
                let mut m = String::from_str("Can't generate bindings for ");
                m.append(context.as_str());
                m.append(", because of missing required features (<internal link>):\n");
                m.append(join_strings(&all_missing, "\n").as_str());
                Error::msg(m)
            },
            NoBindingsReason::DependencyFailed { context, error } => {
                let mut c = String::from_str("Can't generate bindings for ");
                c.append(context.as_str());
                c.append(" due to missing bindings for its dependency");
                error.context(c)
            },
            NoBindingsReason::Unsupported { context, error } => {
                let mut c = String::from_str("Can't generate bindings for ");
                c.append(context.as_str());
                c.append(", because it is unsupported");
                error.context(c)
            },
        }
    }
}

/// What is known of the types of the items, by the items' ids.
#[derive(Debug)]
pub struct TypesOfItems {
    pub entries: Vec<(ItemId, ItemTypes)>,
}

/// The first entry at or after `from` for the item with the given id.
pub open spec fn entry_from(entries: Seq<(ItemId, ItemTypes)>, id: ItemId, from: int) -> Option<int>
    decreases entries.len() - from,
{
    if from < 0 || from >= entries.len() {
        None
    } else if entries[from].0 == id {
        Some(from)
    } else {
        entry_from(entries, id, from + 1)
    }
}

/// What is known of the types of the item with the given id; nothing for
/// an item without an entry.
pub open spec fn types_of(entries: Seq<(ItemId, ItemTypes)>, id: ItemId) -> Seq<
    Result<TypeReport, Error>,
> {
    match entry_from(entries, id, 0) {
        Some(k) => entries[k].1.types@,
        None => Seq::empty(),
    }
}

impl TypesOfItems {
    /// The position of the entry of the item with the given id.
    pub fn find(&self, id: ItemId) -> (r: Option<usize>)
        ensures
            match r {
                Some(k) => k < self.entries@.len() && entry_from(self.entries@, id, 0) == Some(
                    k as int,
                ),
                None => entry_from(self.entries@, id, 0) is None,
            },
    {
        let mut i: usize = 0;
        while i < self.entries.len()
            invariant
                i <= self.entries.len(),
                entry_from(self.entries@, id, 0) == entry_from(self.entries@, id, i as int),
            decreases self.entries.len() - i,
        {
            if self.entries[i].0.0 == id.0 {
                return Some(i);
            }
            i += 1;
        }
        None
    }
}

/// Whether an item has bindings, looking at most `fuel` items outwards.
///
/// An item has none where a target lacks a feature that the item uses,
/// where one of its types cannot be used, where the item around it has
/// none or may have none, and where it defines a type inside a record. Of
/// the other items, a function may have bindings, and an alias has them
/// where its type can be used; every other item has them.
pub open spec fn bindings_of(ir: IR, item: Item, types: Seq<(ItemId, ItemTypes)>, fuel: nat) -> HasBindingsView
    decreases fuel,
{
    let name = item_debug_name(ir, item);
    let own = types_of(types, crate::ir::item_id(item));
    match required_features(ir, item, own) {
        Err(e) => HasBindingsView::No(ReasonView::DependencyFailed { context: name, error: e }),
        Ok(missing) => if missing.len() != 0 {
            HasBindingsView::No(
                ReasonView::MissingRequiredFeatures { context: name, missing_features: missing },
            )
        } else {
            match parent_verdict(ir, item, types, fuel) {
                Some(reason) => HasBindingsView::No(reason),
                None => match item {
                    Item::Func(_) => HasBindingsView::Maybe,
                    Item::TypeAlias(_) => match type_at(own, 0) {
                        Ok(_) => HasBindingsView::Yes,
                        Err(e) => HasBindingsView::No(
                            ReasonView::DependencyFailed { context: name, error: e },
                        ),
                    },
                    _ => HasBindingsView::Yes,
                },
            }
        },
    }
}

/// Why an item has no bindings on account of the item around it, if it
/// has none on that account.
pub open spec fn parent_verdict(ir: IR, item: Item, types: Seq<(ItemId, ItemTypes)>, fuel: nat) -> Option<
    ReasonView,
>
    decreases fuel, 0int,
{
    let name = item_debug_name(ir, item);
    match item_enclosing_id(item) {
        None => None,
        Some(parent_id) => match ir.item_with(parent_id) {
            None => Some(
                ReasonView::DependencyFailed {
                    context: name,
                    error: seq!["The item around it is not in the description"@],
                },
            ),
            Some(parent) => if fuel == 0 {
                Some(
                    ReasonView::DependencyFailed {
                        context: name,
                        error: seq!["The items that enclose one another form a cycle"@],
                    },
                )
            } else {
                match bindings_of(ir, parent, types, (fuel - 1) as nat) {
                    HasBindingsView::No(reason) => Some(
                        ReasonView::DependencyFailed { context: name, error: reason_error(reason) },
                    ),
                    HasBindingsView::Maybe => Some(
                        ReasonView::DependencyFailed {
                            context: name,
                            error: seq!["parent item might not be defined"@],
                        },
                    ),
                    HasBindingsView::Yes => if item_is_type_definition(item) && parent is Record {
                        Some(
                            ReasonView::Unsupported {
                                context: name,
                                error: seq![
                                    "b/200067824: type definitions nested inside records are not yet supported"@,
                                ],
                            },
                        )
                    } else {
                        None
                    },
                }
            },
        },
    }
}

/// Decides whether an item has bindings, looking at most `fuel` items
/// outwards.
pub fn has_bindings_within(ir: &IR, item: &Item, types: &TypesOfItems, fuel: usize) -> (r: HasBindings)
    requires
        can_be_named(*ir, *item),
        crate::ir_queries::all_can_be_named(*ir),
    ensures
        r@ == bindings_of(*ir, *item, types.entries@, fuel as nat),
    decreases fuel,
{
    let name = item.debug_name(ir);
    let empty = ItemTypes { types: Vec::new() };
    let own: &ItemTypes = match types.find(item.id()) {
        Some(k) => &types.entries[k].1,
        None => &empty,
    };
    assert(own.types@ =~= types_of(types.entries@, crate::ir::item_id(*item)));
    match required_crubit_features(ir, item, own) {
        Ok(missing_features) => {
            if missing_features.len() != 0 {
                return HasBindings::No(
                    NoBindingsReason::MissingRequiredFeatures { context: name, missing_features },
                );
            }
        },
        Err(error) => {
            return HasBindings::No(NoBindingsReason::DependencyFailed { context: name, error });
        },
    }
    match item.enclosing_item_id() {
        None => {},
        Some(parent_id) => {
            let parent = match ir.lookup(parent_id) {
                Some(p) => p,
                None => {
                    return HasBindings::No(
                        NoBindingsReason::DependencyFailed {
                            context: name,
                            error: Error::new("The item around it is not in the description"),
                        },
                    );
                },
            };
            if fuel == 0 {
                return HasBindings::No(
                    NoBindingsReason::DependencyFailed {
                        context: name,
                        error: Error::new("The items that enclose one another form a cycle"),
                    },
                );
            }
            proof {
                use_type_invariant(ir);
                ir.lemma_positions();
                let i = ir.position_of(parent_id)->0;
                assert(ir.all_items()[i] == *parent);
            }
            match has_bindings_within(ir, parent, types, fuel - 1) {
                HasBindings::No(no_parent_bindings) => {
                    return HasBindings::No(
                        NoBindingsReason::DependencyFailed {
                            context: name,
                            error: no_parent_bindings.into_error(),
                        },
                    );
                },
                HasBindings::Maybe => {
                    return HasBindings::No(
                        NoBindingsReason::DependencyFailed {
                            context: name,
                            error: Error::new("parent item might not be defined"),
                        },
                    );
                },
                HasBindings::Yes => {},
            }
            if item.is_type_definition() {
                match parent {
                    Item::Record(_) => {
                        return HasBindings::No(
                            NoBindingsReason::Unsupported {
                                context: name,
                                error: Error::new(
                                    "b/200067824: type definitions nested inside records are not yet supported",
                                ),
                            },
                        );
                    },
                    _ => {},
                }
            }
        },
    }
    match item {
        Item::Func(_) => HasBindings::Maybe,
        Item::TypeAlias(_) => match get_type(own, 0) {
            Ok(_) => HasBindings::Yes,
            Err(error) => HasBindings::No(
                NoBindingsReason::DependencyFailed { context: name, error },
            ),
        },
        _ => HasBindings::Yes,
    }
}

/// Decides whether an item has bindings.
pub fn has_bindings(ir: &IR, item: &Item, types: &TypesOfItems) -> (r: HasBindings)
    requires
        can_be_named(*ir, *item),
        crate::ir_queries::all_can_be_named(*ir),
    ensures
        r@ == bindings_of(*ir, *item, types.entries@, ir.all_items().len()),
{
    has_bindings_within(ir, item, types, ir.items().len())
}

} // verus!
