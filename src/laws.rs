//! Properties of the generator that hold of every declaration.
use vstd::prelude::*;
use crate::decl::{all_fields, DeriveInput, GenericParam, WherePredicate};
use crate::derive::{body_of, derivable, derived_text, is_impl_of, predicates_of, receiver, Generated};
use crate::generics::{
    applies_to, bound_path, bounded_predicates, declared_bounds, emitted, impl_params, self_args,
    static_predicates, target_args, where_bounds, TargetTrait,
};
use crate::text::{join, views};
use crate::validate::{first_invalid_text, is_invalid, lemma_first_invalid_earliest};

verus! {

/// Every shape can be derived: a struct with named fields, tuple fields or none,
/// and an enum with any mixture of unit, named and tuple variants, as long as no
/// field is a reference that names a lifetime other than `'static`.
pub proof fn law_every_shape_derivable(input: DeriveInput)
    requires
        !(input.data is Union),
        forall|i: int|
            0 <= i < all_fields(input.data).len() ==> !is_invalid(#[trigger] all_fields(input.data)[i]),
    ensures
        derivable(input),
{
    lemma_first_invalid_earliest(all_fields(input.data));
}

/// The owned type gets one argument per generic parameter, in declaration order:
/// `'static` for each lifetime, `T::Static` for each type parameter `T`, and each
/// const parameter unchanged; the original type is named with `'_` for each
/// lifetime and every other parameter unchanged. Both implementations name the
/// same owned type.
pub proof fn law_generic_fidelity(input: DeriveInput, g: Generated)
    requires
        is_impl_of(g.to, input, TargetTrait::ToBoundedStatic),
        is_impl_of(g.into, input, TargetTrait::IntoBoundedStatic),
    ensures
        views(g.to.static_args@) == views(g.into.static_args@),
        views(g.to.self_args@) == views(g.into.self_args@),
        views(g.to.static_args@).len() == input.params@.len(),
        views(g.to.self_args@).len() == input.params@.len(),
        forall|i: int|
            0 <= i < input.params@.len() ==> match #[trigger] input.params@[i] {
                GenericParam::Lifetime { .. } => views(g.to.static_args@)[i] == "'static"@
                    && views(g.to.self_args@)[i] == "'_"@,
                GenericParam::Type { ident, .. } => views(g.to.static_args@)[i] == ident@
                    + "::Static"@ && views(g.to.self_args@)[i] == ident@,
                GenericParam::Const { ident, .. } => views(g.to.static_args@)[i] == ident@
                    && views(g.to.self_args@)[i] == ident@,
            },
{
}

proof fn lemma_static_predicate_present(ps: Seq<GenericParam>, wc: Seq<WherePredicate>, i: int)
    requires
        0 <= i < ps.len(),
        ps[i] matches GenericParam::Type { ident, bounds } && declared_bounds(ident@, bounds@, wc).len() > 0,
    ensures
        ps[i] matches GenericParam::Type { ident, bounds } && static_predicates(ps, wc).contains(
            ident@ + "::Static: "@ + join(declared_bounds(ident@, bounds@, wc), " + "@),
        ),
    decreases ps.len(),
{
    let rest = static_predicates(ps.drop_last(), wc);
    if i < ps.len() - 1 {
        lemma_static_predicate_present(ps.drop_last(), wc, i);
        assert(ps.drop_last()[i] == ps[i]);
        let x = choose|x: int| 0 <= x < rest.len() && rest[x] == (match ps[i] {
            GenericParam::Type { ident, bounds } => ident@ + "::Static: "@ + join(
                declared_bounds(ident@, bounds@, wc),
                " + "@,
            ),
            _ => Seq::empty(),
        });
        match ps.last() {
            GenericParam::Type { ident, bounds } => {
                if declared_bounds(ident@, bounds@, wc).len() > 0 {
                    assert(static_predicates(ps, wc)[x] == rest[x]);
                }
            },
            _ => {},
        }
    } else {
        assert(static_predicates(ps, wc).last() == (match ps[i] {
            GenericParam::Type { ident, bounds } => ident@ + "::Static: "@ + join(
                declared_bounds(ident@, bounds@, wc),
                " + "@,
            ),
            _ => Seq::empty(),
        }));
    }
}

/// Every where-clause predicate on `T` itself contributes all of its repeated
/// bounds, in order, to the bounds declared for `T`.
proof fn lemma_where_bounds_cover(wc: Seq<WherePredicate>, ident: Seq<char>, k: int, j: int)
    requires
        0 <= k < wc.len(),
        applies_to(wc[k], ident),
        0 <= j < emitted(wc[k]->bounds@).len(),
    ensures
        where_bounds(wc, ident).contains(emitted(wc[k]->bounds@)[j]),
    decreases wc.len(),
{
    let p = wc.drop_last();
    let x = emitted(wc[k]->bounds@)[j];
    if k == wc.len() - 1 {
        let w = where_bounds(p, ident);
        assert(where_bounds(wc, ident)[w.len() + j] == x);
    } else {
        assert(p[k] == wc[k]);
        lemma_where_bounds_cover(p, ident, k, j);
        let y = choose|y: int| 0 <= y < where_bounds(p, ident).len() && where_bounds(p, ident)[y] == x;
        assert(where_bounds(wc, ident)[y] == x);
    }
}

/// A type parameter `T` declared with bounds, inline or in any number of
/// where-clause predicates on `T` itself, gets one predicate
/// `T::Static: <all those bounds>` in the where-clause of both implementations:
/// the inline bounds first, then those of each predicate in order, so every
/// declared trait bound (and `'static`) is asserted of `T::Static`.
pub proof fn law_bound_propagation(input: DeriveInput, i: int, t: TargetTrait)
    requires
        0 <= i < input.params@.len(),
        input.params@[i] matches GenericParam::Type { ident, bounds } && declared_bounds(
            ident@,
            bounds@,
            input.where_clause@,
        ).len() > 0,
    ensures
        input.params@[i] matches GenericParam::Type { ident, bounds } && declared_bounds(
            ident@,
            bounds@,
            input.where_clause@,
        ) == emitted(bounds@) + where_bounds(input.where_clause@, ident@),
        input.params@[i] matches GenericParam::Type { ident, bounds } && forall|k: int, j: int|
            0 <= k < input.where_clause@.len() && applies_to(input.where_clause@[k], ident@) && 0
                <= j < emitted(input.where_clause@[k]->bounds@).len() ==> declared_bounds(
                ident@,
                bounds@,
                input.where_clause@,
            ).contains(emitted(input.where_clause@[k]->bounds@)[j]),
        input.params@[i] matches GenericParam::Type { ident, bounds } && predicates_of(
            input,
            t,
        ).contains(
            ident@ + "::Static: "@ + join(
                declared_bounds(ident@, bounds@, input.where_clause@),
                " + "@,
            ),
        ),
{
    let ps = input.params@;
    let wc = input.where_clause@;
    lemma_static_predicate_present(ps, wc, i);
    let a = bounded_predicates(wc, t);
    let b = static_predicates(ps, wc);
    let want = match ps[i] {
        GenericParam::Type { ident, bounds } => ident@ + "::Static: "@ + join(
            declared_bounds(ident@, bounds@, wc),
            " + "@,
        ),
        _ => Seq::empty(),
    };
    let x = choose|x: int| 0 <= x < b.len() && b[x] == want;
    assert((a + b)[a.len() + x] == want);
    match ps[i] {
        GenericParam::Type { ident, bounds } => {
            assert forall|k: int, j: int|
                0 <= k < wc.len() && applies_to(wc[k], ident@) && 0 <= j < emitted(
                    wc[k]->bounds@,
                ).len() implies declared_bounds(ident@, bounds@, wc).contains(
                emitted(wc[k]->bounds@)[j],
            ) by {
                lemma_where_bounds_cover(wc, ident@, k, j);
                let e = emitted(bounds@);
                let w = where_bounds(wc, ident@);
                let y = choose|y: int| 0 <= y < w.len() && w[y] == emitted(wc[k]->bounds@)[j];
                assert((e + w)[e.len() + y] == w[y]);
            }
        },
        _ => {},
    }
}

/// A declaration is rejected for its fields exactly when one of them is a
/// reference that names a lifetime other than `'static`, and the diagnostic
/// quotes the first such field.
pub proof fn law_validator_rejection(input: DeriveInput)
    requires
        !(input.data is Union),
    ensures
        !derivable(input) <==> exists|i: int|
            0 <= i < all_fields(input.data).len() && is_invalid(#[trigger] all_fields(input.data)[i]),
        first_invalid_text(all_fields(input.data)) matches Some(t) ==> exists|k: int|
            0 <= k < all_fields(input.data).len() && is_invalid(all_fields(input.data)[k])
                && all_fields(input.data)[k].text@ == t && forall|j: int|
                0 <= j < k ==> !is_invalid(#[trigger] all_fields(input.data)[j]),
{
    lemma_first_invalid_earliest(all_fields(input.data));
}

/// A declaration without generic parameters or where-clause gets plain,
/// non-generic implementations: no parameter list, no generic arguments, no
/// where-clause.
pub proof fn law_degenerate(input: DeriveInput, t: TargetTrait)
    requires
        input.params@.len() == 0,
        input.where_clause@.len() == 0,
    ensures
        impl_params(input.params@, t).len() == 0,
        self_args(input.params@).len() == 0,
        target_args(input.params@).len() == 0,
        predicates_of(input, t).len() == 0,
        derived_text(input, t) == "impl"@ + " "@ + bound_path(t) + " for "@ + input.ident@
            + " { type Static = "@ + input.ident@ + "; fn "@ + t.method_name() + receiver(t)
            + " -> Self::Static { "@ + body_of(input, t) + " } }"@,
{
    assert(predicates_of(input, t) =~= Seq::<Seq<char>>::empty());
    assert(derived_text(input, t) =~= "impl"@ + " "@ + bound_path(t) + " for "@ + input.ident@
        + " { type Static = "@ + input.ident@ + "; fn "@ + t.method_name() + receiver(t)
        + " -> Self::Static { "@ + body_of(input, t) + " } }"@);
}

} // verus!
