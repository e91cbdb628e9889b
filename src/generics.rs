//! The projections of a generic parameter list, and the bounds asserted on the
//! owned projection of each type parameter.
use vstd::prelude::*;
use crate::decl::{Bound, GenericParam, WherePredicate};
use crate::text::{concat2, concat3, join, join_strings, views};

verus! {

/// Which of the two conversions an implementation is generated for.
#[derive(Clone, Copy, Debug, PartialEq, Eq, Structural)]
pub enum TargetTrait {
    ToBoundedStatic,
    IntoBoundedStatic,
}

impl TargetTrait {
    /// The conversion method's name.
    pub open spec fn method_name(self) -> Seq<char> {
        match self {
            TargetTrait::ToBoundedStatic => "to_static"@,
            TargetTrait::IntoBoundedStatic => "into_static"@,
        }
    }

    /// The trait's name.
    pub open spec fn bound_name(self) -> Seq<char> {
        match self {
            TargetTrait::ToBoundedStatic => "ToBoundedStatic"@,
            TargetTrait::IntoBoundedStatic => "IntoBoundedStatic"@,
        }
    }

    pub fn method(self) -> (r: String)
        ensures
            r@ == self.method_name(),
    {
        match self {
            TargetTrait::ToBoundedStatic => String::from_str("to_static"),
            TargetTrait::IntoBoundedStatic => String::from_str("into_static"),
        }
    }

    pub fn bound(self) -> (r: String)
        ensures
            r@ == self.bound_name(),
    {
        match self {
            TargetTrait::ToBoundedStatic => String::from_str("ToBoundedStatic"),
            TargetTrait::IntoBoundedStatic => String::from_str("IntoBoundedStatic"),
        }
    }
}

/// The absolute path of the trait, as generated code names it.
pub open spec fn bound_path(t: TargetTrait) -> Seq<char> {
    "::bounded_static::"@ + t.bound_name()
}

pub(crate) fn bound_path_string(t: TargetTrait) -> (r: String)
    ensures
        r@ == bound_path(t),
{
    concat2("::bounded_static::", t.bound().as_str())
}

/// Target projection of one parameter: the argument it gets in the owned type.
pub open spec fn target_arg(p: GenericParam) -> Seq<char> {
    match p {
        GenericParam::Lifetime { .. } => "'static"@,
        GenericParam::Type { ident, .. } => ident@ + "::Static"@,
        GenericParam::Const { ident, .. } => ident@,
    }
}

pub open spec fn target_args(ps: Seq<GenericParam>) -> Seq<Seq<char>> {
    ps.map_values(|p: GenericParam| target_arg(p))
}

/// Unbounded-use projection of one parameter: the argument it gets where the
/// implementation names the original type.
pub open spec fn self_arg(p: GenericParam) -> Seq<char> {
    match p {
        GenericParam::Lifetime { .. } => "'_"@,
        GenericParam::Type { ident, .. } => ident@,
        GenericParam::Const { ident, .. } => ident@,
    }
}

pub open spec fn self_args(ps: Seq<GenericParam>) -> Seq<Seq<char>> {
    ps.map_values(|p: GenericParam| self_arg(p))
}

/// The bounds that generated code repeats, by their text: every trait bound and
/// `'static`. A bound on another lifetime is left out: the implementation declares
/// no lifetime, and the original type being well formed already implies it.
pub open spec fn emitted(bs: Seq<Bound>) -> Seq<Seq<char>>
    decreases bs.len(),
{
    if bs.len() == 0 {
        Seq::empty()
    } else {
        let rest = emitted(bs.drop_last());
        match bs.last() {
            Bound::Trait(t) => rest.push(t@),
            Bound::Lifetime(l) => if l@ == "'static"@ {
                rest.push(l@)
            } else {
                rest
            },
        }
    }
}

/// `b1 + b2 + ... + ::bounded_static::Trait`
pub open spec fn bounds_with(bounds: Seq<Seq<char>>, t: TargetTrait) -> Seq<char> {
    join(bounds.push(bound_path(t)), " + "@)
}

/// Bounded-declaration projection of a type or const parameter.
pub open spec fn impl_param(p: GenericParam, t: TargetTrait) -> Seq<char> {
    match p {
        GenericParam::Type { ident, bounds } => ident@ + ": "@ + bounds_with(emitted(bounds@), t),
        GenericParam::Const { ident, ty } => "const "@ + ident@ + ": "@ + ty@,
        GenericParam::Lifetime { .. } => Seq::empty(),
    }
}

/// Bounded-declaration projection of a parameter list: lifetimes are dropped.
pub open spec fn impl_params(ps: Seq<GenericParam>, t: TargetTrait) -> Seq<Seq<char>>
    decreases ps.len(),
{
    if ps.len() == 0 {
        Seq::empty()
    } else if ps.last() is Lifetime {
        impl_params(ps.drop_last(), t)
    } else {
        impl_params(ps.drop_last(), t).push(impl_param(ps.last(), t))
    }
}

/// A where-clause predicate carried into the implementation, with the trait appended.
pub open spec fn bounded_predicates(wc: Seq<WherePredicate>, t: TargetTrait) -> Seq<Seq<char>>
    decreases wc.len(),
{
    if wc.len() == 0 {
        Seq::empty()
    } else {
        match wc.last() {
            WherePredicate::Type { bounded, bounds } => bounded_predicates(wc.drop_last(), t).push(
                bounded@ + ": "@ + bounds_with(emitted(bounds@), t),
            ),
            WherePredicate::Lifetime { .. } => bounded_predicates(wc.drop_last(), t),
        }
    }
}

/// The predicate applies to the parameter named `ident`.
pub open spec fn applies_to(p: WherePredicate, ident: Seq<char>) -> bool {
    p matches WherePredicate::Type { bounded, .. } && bounded@ == ident
}

/// The bounds of every predicate that applies to `ident`, predicate after
/// predicate, each in its written order.
pub open spec fn where_bounds(wc: Seq<WherePredicate>, ident: Seq<char>) -> Seq<Seq<char>>
    decreases wc.len(),
{
    if wc.len() == 0 {
        Seq::empty()
    } else if applies_to(wc.last(), ident) {
        where_bounds(wc.drop_last(), ident) + emitted(wc.last()->bounds@)
    } else {
        where_bounds(wc.drop_last(), ident)
    }
}

/// The union of a type parameter's inline bounds and the bounds of every
/// where-clause predicate that applies to it: inline bounds first, then the
/// predicates in order, without removing repeats.
pub open spec fn declared_bounds(ident: Seq<char>, bounds: Seq<Bound>, wc: Seq<WherePredicate>) -> Seq<Seq<char>> {
    emitted(bounds) + where_bounds(wc, ident)
}

/// `T::Static: b1 + b2 + ...` for each type parameter that has a declared bound.
pub open spec fn static_predicates(ps: Seq<GenericParam>, wc: Seq<WherePredicate>) -> Seq<Seq<char>>
    decreases ps.len(),
{
    if ps.len() == 0 {
        Seq::empty()
    } else {
        let rest = static_predicates(ps.drop_last(), wc);
        match ps.last() {
            GenericParam::Type { ident, bounds } => {
                let all = declared_bounds(ident@, bounds@, wc);
                if all.len() > 0 {
                    rest.push(ident@ + "::Static: "@ + join(all, " + "@))
                } else {
                    rest
                }
            },
            _ => rest,
        }
    }
}

/// Appends a copy of each string of `v` to `r`.
fn push_clones(r: &mut Vec<String>, v: &Vec<String>)
    ensures
        views(final(r)@) == views(old(r)@) + views(v@),
{
    let ghost start = views(r@);
    let mut i: usize = 0;
    while i < v.len()
        invariant
            i <= v@.len(),
            views(r@) == start + views(v@.take(i as int)),
        decreases v@.len() - i,
    {
        let ghost prev = r@;
        let c = v[i].clone();
        r.push(c);
        assert(r@ == prev.push(c));
        assert(views(prev.push(c)) =~= views(prev).push(v@[i as int]@));
        assert(views(v@.take(i + 1)) =~= views(v@.take(i as int)).push(v@[i as int]@));
        assert(views(r@) =~= start + views(v@.take(i + 1)));
        i += 1;
    }
    assert(v@.take(v@.len() as int) =~= v@);
}

/// Appends the text of each bound that generated code repeats.
fn push_emitted(r: &mut Vec<String>, bs: &Vec<Bound>)
    ensures
        views(final(r)@) == views(old(r)@) + emitted(bs@),
{
    let ghost start = views(r@);
    let mut i: usize = 0;
    while i < bs.len()
        invariant
            i <= bs@.len(),
            views(r@) == start + emitted(bs@.take(i as int)),
        decreases bs@.len() - i,
    {
        assert(bs@.take(i + 1).drop_last() =~= bs@.take(i as int));
        let ghost prev = r@;
        match &bs[i] {
            Bound::Trait(t) => {
                let c = t.clone();
                r.push(c);
                assert(views(r@) =~= views(prev).push(c@));
            },
            Bound::Lifetime(l) => {
                if l.eq(&String::from_str("'static")) {
                    let c = l.clone();
                    r.push(c);
                    assert(views(r@) =~= views(prev).push(c@));
                }
            },
        }
        assert(views(r@) =~= start + emitted(bs@.take(i + 1)));
        i += 1;
    }
    assert(bs@.take(bs@.len() as int) =~= bs@);
}

/// The bounds that generated code repeats, then the trait's path, joined by ` + `.
pub fn clone_with_bound(bounds: &Vec<Bound>, t: TargetTrait) -> (r: String)
    ensures
        r@ == bounds_with(emitted(bounds@), t),
{
    let mut all: Vec<String> = Vec::new();
    push_emitted(&mut all, bounds);
    all.push(bound_path_string(t));
    assert(views(all@) =~= emitted(bounds@).push(bound_path(t)));
    join_strings(&all, " + ")
}

/// The generic arguments of the owned type (`Foo<'static, T::Static, N>`).
pub fn make_target_generics(params: &Vec<GenericParam>) -> (r: Vec<String>)
    ensures
        views(r@) == target_args(params@),
{
    let mut r: Vec<String> = Vec::new();
    let mut i: usize = 0;
    while i < params.len()
        invariant
            i <= params@.len(),
            views(r@) == target_args(params@.take(i as int)),
        decreases params@.len() - i,
    {
        let a = match &params[i] {
            GenericParam::Lifetime { .. } => String::from_str("'static"),
            GenericParam::Type { ident, .. } => concat2(ident.as_str(), "::Static"),
            GenericParam::Const { ident, .. } => ident.clone(),
        };
        let ghost prev = r@;
        assert(a@ == target_arg(params@[i as int]));
        r.push(a);
        assert(views(r@) =~= views(prev).push(a@));
        assert(target_args(params@.take(i + 1)) =~= target_args(params@.take(i as int)).push(a@));
        i += 1;
    }
    assert(params@.take(params@.len() as int) =~= params@);
    r
}

/// The generic arguments that name the original type (`Foo<'_, T, N>`).
pub fn make_unbounded_generics(params: &Vec<GenericParam>) -> (r: Vec<String>)
    ensures
        views(r@) == self_args(params@),
{
    let mut r: Vec<String> = Vec::new();
    let mut i: usize = 0;
    while i < params.len()
        invariant
            i <= params@.len(),
            views(r@) == self_args(params@.take(i as int)),
        decreases params@.len() - i,
    {
        let a = match &params[i] {
            GenericParam::Lifetime { .. } => String::from_str("'_"),
            GenericParam::Type { ident, .. } => ident.clone(),
            GenericParam::Const { ident, .. } => ident.clone(),
        };
        let ghost prev = r@;
        assert(a@ == self_arg(params@[i as int]));
        r.push(a);
        assert(views(r@) =~= views(prev).push(a@));
        assert(self_args(params@.take(i + 1)) =~= self_args(params@.take(i as int)).push(a@));
        i += 1;
    }
    assert(params@.take(params@.len() as int) =~= params@);
    r
}

/// The implementation's own generic parameters: lifetimes dropped, each type
/// parameter bound by the trait as well, const parameters unchanged.
pub fn make_bounded_generic_params(params: &Vec<GenericParam>, t: TargetTrait) -> (r: Vec<String>)
    ensures
        views(r@) == impl_params(params@, t),
{
    let mut r: Vec<String> = Vec::new();
    let mut i: usize = 0;
    while i < params.len()
        invariant
            i <= params@.len(),
            views(r@) == impl_params(params@.take(i as int), t),
        decreases params@.len() - i,
    {
        assert(params@.take(i + 1).drop_last() =~= params@.take(i as int));
        match &params[i] {
            GenericParam::Lifetime { .. } => {},
            GenericParam::Type { ident, bounds } => {
                r.push(concat3(ident.as_str(), ": ", clone_with_bound(bounds, t).as_str()));
            },
            GenericParam::Const { ident, ty } => {
                let mut p = concat3("const ", ident.as_str(), ": ");
                p.append(ty.as_str());
                r.push(p);
            },
        }
        assert(views(r@) =~= impl_params(params@.take(i + 1), t));
        i += 1;
    }
    assert(params@.take(params@.len() as int) =~= params@);
    r
}

/// The declaration's type predicates, each bound by the trait as well.
pub fn make_bounded_generic_predicates(wc: &Vec<WherePredicate>, t: TargetTrait) -> (r: Vec<String>)
    ensures
        views(r@) == bounded_predicates(wc@, t),
{
    let mut r: Vec<String> = Vec::new();
    let mut i: usize = 0;
    while i < wc.len()
        invariant
            i <= wc@.len(),
            views(r@) == bounded_predicates(wc@.take(i as int), t),
        decreases wc@.len() - i,
    {
        assert(wc@.take(i + 1).drop_last() =~= wc@.take(i as int));
        match &wc[i] {
            WherePredicate::Type { bounded, bounds } => {
                r.push(concat3(bounded.as_str(), ": ", clone_with_bound(bounds, t).as_str()));
            },
            WherePredicate::Lifetime { .. } => {},
        }
        assert(views(r@) =~= bounded_predicates(wc@.take(i + 1), t));
        i += 1;
    }
    assert(wc@.take(wc@.len() as int) =~= wc@);
    r
}

/// Appends the bounds of every where-clause predicate whose bounded type is
/// exactly `var`, in order.
pub fn push_where_bounds(r: &mut Vec<String>, wc: &Vec<WherePredicate>, var: &String)
    ensures
        views(final(r)@) == views(old(r)@) + where_bounds(wc@, var@),
{
    let ghost start = views(r@);
    let mut i: usize = 0;
    while i < wc.len()
        invariant
            i <= wc@.len(),
            views(r@) == start + where_bounds(wc@.take(i as int), var@),
        decreases wc@.len() - i,
    {
        assert(wc@.take(i + 1).drop_last() =~= wc@.take(i as int));
        match &wc[i] {
            WherePredicate::Type { bounded, bounds } => {
                if bounded.eq(var) {
                    push_emitted(r, bounds);
                }
            },
            WherePredicate::Lifetime { .. } => {},
        }
        assert(views(r@) =~= start + where_bounds(wc@.take(i + 1), var@));
        i += 1;
    }
    assert(wc@.take(wc@.len() as int) =~= wc@);
}

/// For each type parameter with a declared bound (inline, or in any where-clause
/// predicate on the parameter itself), the predicate `T::Static: <those bounds>`.
pub fn make_static_generic_predicates(params: &Vec<GenericParam>, wc: &Vec<WherePredicate>) -> (r: Vec<String>)
    ensures
        views(r@) == static_predicates(params@, wc@),
{
    let mut r: Vec<String> = Vec::new();
    let mut i: usize = 0;
    while i < params.len()
        invariant
            i <= params@.len(),
            views(r@) == static_predicates(params@.take(i as int), wc@),
        decreases params@.len() - i,
    {
        assert(params@.take(i + 1).drop_last() =~= params@.take(i as int));
        match &params[i] {
            GenericParam::Type { ident, bounds } => {
                let mut all: Vec<String> = Vec::new();
                push_emitted(&mut all, bounds);
                push_where_bounds(&mut all, wc, ident);
                assert(views(all@) =~= declared_bounds(ident@, bounds@, wc@));
                if all.len() > 0 {
                    r.push(concat3(ident.as_str(), "::Static: ", join_strings(&all, " + ").as_str()));
                }
            },
            _ => {},
        }
        assert(views(r@) =~= static_predicates(params@.take(i + 1), wc@));
        i += 1;
    }
    assert(params@.take(params@.len() as int) =~= params@);
    r
}

/// The implementation's generic parameters and where-clause: the declaration's
/// type predicates bound by the trait, then the bounds on the owned projections.
pub fn make_bounded_generics(
    params: &Vec<GenericParam>,
    wc: &Vec<WherePredicate>,
    t: TargetTrait,
) -> (r: (Vec<String>, Vec<String>))
    ensures
        views(r.0@) == impl_params(params@, t),
        views(r.1@) == bounded_predicates(wc@, t) + static_predicates(params@, wc@),
{
    let mut predicates = make_bounded_generic_predicates(wc, t);
    push_clones(&mut predicates, &make_static_generic_predicates(params, wc));
    (make_bounded_generic_params(params, t), predicates)
}

} // verus!
