//! The driver: validates a declaration, then builds and renders both implementations.
use vstd::prelude::*;
use crate::decl::{all_fields, Data, DeriveInput};
use crate::emit::{enum_body, generate_enum_body, generate_struct_body, struct_body};
use crate::generics::{
    bound_path, bound_path_string, bounded_predicates, impl_params, make_bounded_generics,
    make_target_generics, make_unbounded_generics, self_args, static_predicates, target_args,
    TargetTrait,
};
use crate::text::{angled, angled_strings, concat2, concat3, join, join_strings, views};
use crate::validate::{check_data, first_invalid_text};

verus! {

/// Why no implementation could be generated for a declaration.
#[derive(Clone, Debug)]
pub enum DeriveError {
    /// A field is a reference with a lifetime other than `'static`; holds the
    /// field's text.
    NonStaticReference(String),
    /// The declaration is a union.
    UnsupportedShape,
}

impl DeriveError {
    /// The diagnostic reported to the developer.
    pub fn message(&self) -> (r: String)
        ensures
            match self {
                DeriveError::NonStaticReference(f) => r@
                    == "non-static references cannot be made static: "@ + f@,
                DeriveError::UnsupportedShape => r@ == "union is not yet supported"@,
            },
    {
        match self {
            DeriveError::NonStaticReference(f) => concat2(
                "non-static references cannot be made static: ",
                f.as_str(),
            ),
            DeriveError::UnsupportedShape => String::from_str("union is not yet supported"),
        }
    }
}

/// One generated implementation, by its parts.
#[derive(Clone, Debug)]
pub struct ImplBlock {
    /// The trait implemented.
    pub target: TargetTrait,
    /// The name of the type it is implemented for.
    pub name: String,
    /// The implementation's own generic parameters.
    pub params: Vec<String>,
    /// The generic arguments that name the original type.
    pub self_args: Vec<String>,
    /// The where-clause predicates.
    pub predicates: Vec<String>,
    /// The generic arguments of the owned type.
    pub static_args: Vec<String>,
    /// The conversion method's body.
    pub body: String,
}

/// The two implementations generated for one declaration.
#[derive(Clone, Debug)]
pub struct Generated {
    pub to: ImplBlock,
    pub into: ImplBlock,
}

/// The receiver and parentheses of the conversion method.
pub open spec fn receiver(t: TargetTrait) -> Seq<char> {
    match t {
        TargetTrait::ToBoundedStatic => "(&self)"@,
        TargetTrait::IntoBoundedStatic => "(self)"@,
    }
}

/// ` where p1, p2`, or nothing at all for no predicate.
pub open spec fn where_part(ps: Seq<Seq<char>>) -> Seq<char> {
    if ps.len() == 0 {
        Seq::empty()
    } else {
        " where "@ + join(ps, ", "@)
    }
}

/// The source text of an implementation made of these parts.
pub open spec fn impl_text(
    name: Seq<char>,
    t: TargetTrait,
    params: Seq<Seq<char>>,
    self_args: Seq<Seq<char>>,
    preds: Seq<Seq<char>>,
    static_args: Seq<Seq<char>>,
    body: Seq<char>,
) -> Seq<char> {
    "impl"@ + angled(params) + " "@ + bound_path(t) + " for "@ + name + angled(self_args)
        + where_part(preds) + " { type Static = "@ + name + angled(static_args) + "; fn "@
        + t.method_name() + receiver(t) + " -> Self::Static { "@ + body + " } }"@
}

/// The method body generated for the declaration.
pub open spec fn body_of(input: DeriveInput, t: TargetTrait) -> Seq<char> {
    match input.data {
        Data::Struct(f) => struct_body(input.ident@, f, t.method_name()),
        Data::Enum(vs) => enum_body(input.ident@, vs@, t.method_name()),
        Data::Union => Seq::empty(),
    }
}

/// The where-clause generated for the declaration: its own type predicates with
/// the trait appended, then the bounds on the owned projections.
pub open spec fn predicates_of(input: DeriveInput, t: TargetTrait) -> Seq<Seq<char>> {
    bounded_predicates(input.where_clause@, t) + static_predicates(
        input.params@,
        input.where_clause@,
    )
}

/// `ib` is the implementation of `t` generated for the declaration.
pub open spec fn is_impl_of(ib: ImplBlock, input: DeriveInput, t: TargetTrait) -> bool {
    &&& ib.target == t
    &&& ib.name@ == input.ident@
    &&& views(ib.params@) == impl_params(input.params@, t)
    &&& views(ib.self_args@) == self_args(input.params@)
    &&& views(ib.predicates@) == predicates_of(input, t)
    &&& views(ib.static_args@) == target_args(input.params@)
    &&& ib.body@ == body_of(input, t)
}

/// The source text of the implementation of `t` generated for the declaration.
pub open spec fn derived_text(input: DeriveInput, t: TargetTrait) -> Seq<char> {
    impl_text(
        input.ident@,
        t,
        impl_params(input.params@, t),
        self_args(input.params@),
        predicates_of(input, t),
        target_args(input.params@),
        body_of(input, t),
    )
}

/// Generation succeeds: the declaration is no union and no field is rejected.
pub open spec fn derivable(input: DeriveInput) -> bool {
    !(input.data is Union) && first_invalid_text(all_fields(input.data)) is None
}

impl ImplBlock {
    /// The source text of the implementation.
    pub open spec fn text(self) -> Seq<char> {
        impl_text(
            self.name@,
            self.target,
            views(self.params@),
            views(self.self_args@),
            views(self.predicates@),
            views(self.static_args@),
            self.body@,
        )
    }

    /// The implementation as source text.
    pub fn render(&self) -> (r: String)
        ensures
            r@ == self.text(),
    {
        let mut r = String::from_str("impl");
        r.append(angled_strings(&self.params).as_str());
        r.append(" ");
        r.append(bound_path_string(self.target).as_str());
        r.append(" for ");
        r.append(self.name.as_str());
        r.append(angled_strings(&self.self_args).as_str());
        let ghost head = r@;
        if self.predicates.len() > 0 {
            r.append(" where ");
            r.append(join_strings(&self.predicates, ", ").as_str());
        }
        assert(r@ =~= head + where_part(views(self.predicates@)));
        r.append(" { type Static = ");
        r.append(self.name.as_str());
        r.append(angled_strings(&self.static_args).as_str());
        r.append("; fn ");
        r.append(self.target.method().as_str());
        let ghost head2 = r@;
        match self.target {
            TargetTrait::ToBoundedStatic => r.append("(&self)"),
            TargetTrait::IntoBoundedStatic => r.append("(self)"),
        }
        assert(r@ =~= head2 + receiver(self.target));
        r.append(" -> Self::Static { ");
        r.append(self.body.as_str());
        r.append(" } }");
        assert(r@ =~= self.text());
        r
    }
}

/// Builds the implementation of `target` for a declaration that is no union.
pub fn generate_impl(input: &DeriveInput, target: TargetTrait) -> (r: ImplBlock)
    requires
        !(input.data is Union),
    ensures
        is_impl_of(r, *input, target),
{
    let body = match &input.data {
        Data::Struct(f) => generate_struct_body(&input.ident, f, target),
        Data::Enum(vs) => generate_enum_body(&input.ident, vs, target),
        Data::Union => String::new(),
    };
    let (params, predicates) = make_bounded_generics(&input.params, &input.where_clause, target);
    ImplBlock {
        target,
        name: input.ident.clone(),
        params,
        self_args: make_unbounded_generics(&input.params),
        predicates,
        static_args: make_target_generics(&input.params),
        body,
    }
}

/// Validates the declaration, then builds both implementations.
pub fn generate(input: &DeriveInput) -> (r: Result<Generated, DeriveError>)
    ensures
        r is Ok <==> derivable(*input),
        input.data is Union ==> r matches Err(DeriveError::UnsupportedShape),
        !(input.data is Union) ==> match first_invalid_text(all_fields(input.data)) {
            Some(t) => r matches Err(DeriveError::NonStaticReference(f)) && f@ == t,
            None => r matches Ok(g) && is_impl_of(g.to, *input, TargetTrait::ToBoundedStatic)
                && is_impl_of(g.into, *input, TargetTrait::IntoBoundedStatic),
        },
{
    if let Data::Union = &input.data {
        return Err(DeriveError::UnsupportedShape);
    }
    match check_data(&input.data) {
        Some(f) => Err(DeriveError::NonStaticReference(f)),
        None => Ok(
            Generated {
                to: generate_impl(input, TargetTrait::ToBoundedStatic),
                into: generate_impl(input, TargetTrait::IntoBoundedStatic),
            },
        ),
    }
}

/// The source text of both implementations, the borrowing one first.
pub fn generate_traits(input: &DeriveInput) -> (r: Result<String, DeriveError>)
    ensures
        r is Ok <==> derivable(*input),
        input.data is Union ==> r matches Err(DeriveError::UnsupportedShape),
        !(input.data is Union) ==> match first_invalid_text(all_fields(input.data)) {
            Some(t) => r matches Err(DeriveError::NonStaticReference(f)) && f@ == t,
            None => r matches Ok(s) && s@ == derived_text(*input, TargetTrait::ToBoundedStatic)
                + "\n"@ + derived_text(*input, TargetTrait::IntoBoundedStatic),
        },
{
    match generate(input) {
        Ok(g) => Ok(concat3(g.to.render().as_str(), "\n", g.into.render().as_str())),
        Err(e) => Err(e),
    }
}

} // verus!
