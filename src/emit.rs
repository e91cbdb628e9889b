//! The bodies of the conversion methods, one form per shape.
use vstd::prelude::*;
use crate::decl::{Field, Fields, NamedField, Variant};
use crate::generics::TargetTrait;
use crate::text::{concat2, concat3, decimal, decimal_string, join, join_strings, views};

verus! {

/// `f: self.f.m()`
pub open spec fn named_init(f: Seq<char>, m: Seq<char>) -> Seq<char> {
    f + ": self."@ + f + "."@ + m + "()"@
}

pub open spec fn named_inits(fs: Seq<NamedField>, m: Seq<char>) -> Seq<Seq<char>> {
    fs.map_values(|nf: NamedField| named_init(nf.ident@, m))
}

/// `self.i.m()`
pub open spec fn unnamed_init(i: nat, m: Seq<char>) -> Seq<char> {
    "self."@ + decimal(i) + "."@ + m + "()"@
}

pub open spec fn unnamed_inits(n: nat, m: Seq<char>) -> Seq<Seq<char>> {
    Seq::new(n, |i: int| unnamed_init(i as nat, m))
}

/// The name bound to the `i`-th field of a tuple variant in a match arm.
pub open spec fn placeholder(i: nat) -> Seq<char> {
    "field_"@ + decimal(i)
}

pub open spec fn placeholders(n: nat) -> Seq<Seq<char>> {
    Seq::new(n, |i: int| placeholder(i as nat))
}

/// `x.m()`
pub open spec fn call_on(x: Seq<char>, m: Seq<char>) -> Seq<char> {
    x + "."@ + m + "()"@
}

pub open spec fn placeholder_calls(n: nat, m: Seq<char>) -> Seq<Seq<char>> {
    Seq::new(n, |i: int| call_on(placeholder(i as nat), m))
}

pub open spec fn field_idents(fs: Seq<NamedField>) -> Seq<Seq<char>> {
    fs.map_values(|nf: NamedField| nf.ident@)
}

/// `f: f.m()`
pub open spec fn bound_init(f: Seq<char>, m: Seq<char>) -> Seq<char> {
    f + ": "@ + call_on(f, m)
}

pub open spec fn bound_inits(fs: Seq<NamedField>, m: Seq<char>) -> Seq<Seq<char>> {
    fs.map_values(|nf: NamedField| bound_init(nf.ident@, m))
}

/// `Name::Variant`
pub open spec fn variant_path(name: Seq<char>, v: Seq<char>) -> Seq<char> {
    name + "::"@ + v
}

/// The match arm that converts one variant.
pub open spec fn variant_arm(name: Seq<char>, v: Variant, m: Seq<char>) -> Seq<char> {
    let path = variant_path(name, v.ident@);
    match v.fields {
        Fields::Unit => path + " => "@ + path,
        Fields::Named(fs) => path + " { "@ + join(field_idents(fs@), ", "@) + " } => "@ + path
            + " { "@ + join(bound_inits(fs@, m), ", "@) + " }"@,
        Fields::Unnamed(fs) => path + "("@ + join(placeholders(fs@.len()), ", "@) + ") => "@
            + path + "("@ + join(placeholder_calls(fs@.len(), m), ", "@) + ")"@,
    }
}

pub open spec fn variant_arms(name: Seq<char>, vs: Seq<Variant>, m: Seq<char>) -> Seq<Seq<char>> {
    vs.map_values(|v: Variant| variant_arm(name, v, m))
}

/// The body of a struct's conversion method: the struct rebuilt from its
/// converted fields.
pub open spec fn struct_body(name: Seq<char>, f: Fields, m: Seq<char>) -> Seq<char> {
    match f {
        Fields::Unit => name,
        Fields::Named(fs) => name + " { "@ + join(named_inits(fs@, m), ", "@) + " }"@,
        Fields::Unnamed(fs) => name + "("@ + join(unnamed_inits(fs@.len(), m), ", "@) + ")"@,
    }
}

/// The body of an enum's conversion method: one arm per variant.
pub open spec fn enum_body(name: Seq<char>, vs: Seq<Variant>, m: Seq<char>) -> Seq<char> {
    "match self { "@ + join(variant_arms(name, vs, m), ", "@) + " }"@
}

/// `foo: self.foo.to_static()`
pub fn make_named_field_init_method(field: &NamedField, target: TargetTrait) -> (r: String)
    ensures
        r@ == named_init(field.ident@, target.method_name()),
{
    let mut r = concat3(field.ident.as_str(), ": self.", field.ident.as_str());
    r.append(".");
    r.append(target.method().as_str());
    r.append("()");
    r
}

pub fn make_named_fields_init_methods(fields: &Vec<NamedField>, target: TargetTrait) -> (r: Vec<String>)
    ensures
        views(r@) == named_inits(fields@, target.method_name()),
{
    let mut r: Vec<String> = Vec::new();
    let mut i: usize = 0;
    while i < fields.len()
        invariant
            i <= fields@.len(),
            views(r@) == named_inits(fields@.take(i as int), target.method_name()),
        decreases fields@.len() - i,
    {
        let ghost prev = r@;
        let a = make_named_field_init_method(&fields[i], target);
        r.push(a);
        assert(views(r@) =~= views(prev).push(a@));
        assert(named_inits(fields@.take(i + 1), target.method_name()) =~= named_inits(
            fields@.take(i as int),
            target.method_name(),
        ).push(a@));
        i += 1;
    }
    assert(fields@.take(fields@.len() as int) =~= fields@);
    r
}

/// `self.0.to_static()`
pub fn make_unnamed_field(i: usize, target: TargetTrait) -> (r: String)
    ensures
        r@ == unnamed_init(i as nat, target.method_name()),
{
    let mut r = concat3("self.", decimal_string(i).as_str(), ".");
    r.append(target.method().as_str());
    r.append("()");
    r
}

pub fn make_unnamed_fields(fields: &Vec<Field>, target: TargetTrait) -> (r: Vec<String>)
    ensures
        views(r@) == unnamed_inits(fields@.len(), target.method_name()),
{
    let mut r: Vec<String> = Vec::new();
    let mut i: usize = 0;
    while i < fields.len()
        invariant
            i <= fields@.len(),
            views(r@) == unnamed_inits(i as nat, target.method_name()),
        decreases fields@.len() - i,
    {
        let ghost prev = r@;
        let a = make_unnamed_field(i, target);
        r.push(a);
        assert(views(r@) =~= views(prev).push(a@));
        assert(unnamed_inits((i + 1) as nat, target.method_name()) =~= unnamed_inits(
            i as nat,
            target.method_name(),
        ).push(a@));
        i += 1;
    }
    r
}

/// The body of a struct's conversion method.
pub fn generate_struct_body(name: &String, fields: &Fields, target: TargetTrait) -> (r: String)
    ensures
        r@ == struct_body(name@, *fields, target.method_name()),
{
    match fields {
        Fields::Unit => name.clone(),
        Fields::Named(fs) => {
            let inits = make_named_fields_init_methods(fs, target);
            let mut r = concat2(name.as_str(), " { ");
            r.append(join_strings(&inits, ", ").as_str());
            r.append(" }");
            r
        },
        Fields::Unnamed(fs) => {
            let inits = make_unnamed_fields(fs, target);
            let mut r = concat2(name.as_str(), "(");
            r.append(join_strings(&inits, ", ").as_str());
            r.append(")");
            r
        },
    }
}

/// The names a named variant's fields are bound to (their own names).
pub fn extract_named_fields(fields: &Vec<NamedField>) -> (r: Vec<String>)
    ensures
        views(r@) == field_idents(fields@),
{
    let mut r: Vec<String> = Vec::new();
    let mut i: usize = 0;
    while i < fields.len()
        invariant
            i <= fields@.len(),
            views(r@) == field_idents(fields@.take(i as int)),
        decreases fields@.len() - i,
    {
        let ghost prev = r@;
        let a = fields[i].ident.clone();
        r.push(a);
        assert(views(r@) =~= views(prev).push(a@));
        assert(field_idents(fields@.take(i + 1)) =~= field_idents(fields@.take(i as int)).push(a@));
        i += 1;
    }
    assert(fields@.take(fields@.len() as int) =~= fields@);
    r
}

/// `foo: foo.to_static()`, for each field of a named variant.
pub fn generate_named_field_init_method(fields: &Vec<NamedField>, target: TargetTrait) -> (r: Vec<String>)
    ensures
        views(r@) == bound_inits(fields@, target.method_name()),
{
    let method = target.method();
    let mut r: Vec<String> = Vec::new();
    let mut i: usize = 0;
    while i < fields.len()
        invariant
            i <= fields@.len(),
            method@ == target.method_name(),
            views(r@) == bound_inits(fields@.take(i as int), target.method_name()),
        decreases fields@.len() - i,
    {
        let ghost prev = r@;
        let f = fields[i].ident.as_str();
        let mut a = concat3(f, ": ", f);
        a.append(".");
        a.append(method.as_str());
        a.append("()");
        assert(a@ =~= bound_init(fields@[i as int].ident@, target.method_name()));
        r.push(a);
        assert(views(r@) =~= views(prev).push(a@));
        assert(bound_inits(fields@.take(i + 1), target.method_name()) =~= bound_inits(
            fields@.take(i as int),
            target.method_name(),
        ).push(a@));
        i += 1;
    }
    assert(fields@.take(fields@.len() as int) =~= fields@);
    r
}

fn placeholder_string(i: usize) -> (r: String)
    ensures
        r@ == placeholder(i as nat),
{
    concat2("field_", decimal_string(i).as_str())
}

/// `field_0`, `field_1`, ... for the fields of a tuple variant.
pub fn extract_unnamed_fields(fields: &Vec<Field>) -> (r: Vec<String>)
    ensures
        views(r@) == placeholders(fields@.len()),
{
    let mut r: Vec<String> = Vec::new();
    let mut i: usize = 0;
    while i < fields.len()
        invariant
            i <= fields@.len(),
            views(r@) == placeholders(i as nat),
        decreases fields@.len() - i,
    {
        let ghost prev = r@;
        let a = placeholder_string(i);
        r.push(a);
        assert(views(r@) =~= views(prev).push(a@));
        assert(placeholders((i + 1) as nat) =~= placeholders(i as nat).push(a@));
        i += 1;
    }
    r
}

/// `field_0.to_static()`, ... for the fields of a tuple variant.
pub fn generate_unnamed_field_init_method(fields: &Vec<Field>, target: TargetTrait) -> (r: Vec<String>)
    ensures
        views(r@) == placeholder_calls(fields@.len(), target.method_name()),
{
    let method = target.method();
    let mut r: Vec<String> = Vec::new();
    let mut i: usize = 0;
    while i < fields.len()
        invariant
            i <= fields@.len(),
            method@ == target.method_name(),
            views(r@) == placeholder_calls(i as nat, target.method_name()),
        decreases fields@.len() - i,
    {
        let ghost prev = r@;
        let mut a = concat3(placeholder_string(i).as_str(), ".", method.as_str());
        a.append("()");
        r.push(a);
        assert(views(r@) =~= views(prev).push(a@));
        assert(placeholder_calls((i + 1) as nat, target.method_name()) =~= placeholder_calls(
            i as nat,
            target.method_name(),
        ).push(a@));
        i += 1;
    }
    r
}

/// `Foo::Bar => Foo::Bar`
pub fn generate_variant_unit(name: &String, variant: &String) -> (r: String)
    ensures
        r@ == variant_path(name@, variant@) + " => "@ + variant_path(name@, variant@),
{
    let path = concat3(name.as_str(), "::", variant.as_str());
    concat3(path.as_str(), " => ", path.as_str())
}

/// `Foo::Bar { a, b } => Foo::Bar { a: a.to_static(), b: b.to_static() }`
pub fn generate_variant_named(name: &String, variant: &String, fields: &Vec<NamedField>, target: TargetTrait) -> (r: String)
    ensures
        r@ == variant_arm(name@, Variant { ident: *variant, fields: Fields::Named(*fields) }, target.method_name()),
{
    let path = concat3(name.as_str(), "::", variant.as_str());
    let bound = join_strings(&extract_named_fields(fields), ", ");
    let inits = join_strings(&generate_named_field_init_method(fields, target), ", ");
    let mut r = concat3(path.as_str(), " { ", bound.as_str());
    r.append(" } => ");
    r.append(path.as_str());
    r.append(" { ");
    r.append(inits.as_str());
    r.append(" }");
    r
}

/// `Foo::Bar(field_0, field_1) => Foo::Bar(field_0.to_static(), field_1.to_static())`
pub fn generate_variant_unnamed(name: &String, variant: &String, fields: &Vec<Field>, target: TargetTrait) -> (r: String)
    ensures
        r@ == variant_arm(name@, Variant { ident: *variant, fields: Fields::Unnamed(*fields) }, target.method_name()),
{
    let path = concat3(name.as_str(), "::", variant.as_str());
    let bound = join_strings(&extract_unnamed_fields(fields), ", ");
    let inits = join_strings(&generate_unnamed_field_init_method(fields, target), ", ");
    let mut r = concat3(path.as_str(), "(", bound.as_str());
    r.append(") => ");
    r.append(path.as_str());
    r.append("(");
    r.append(inits.as_str());
    r.append(")");
    r
}

/// One match arm per variant, in declaration order.
pub fn generate_variants(name: &String, variants: &Vec<Variant>, target: TargetTrait) -> (r: Vec<String>)
    ensures
        views(r@) == variant_arms(name@, variants@, target.method_name()),
{
    let mut r: Vec<String> = Vec::new();
    let mut i: usize = 0;
    while i < variants.len()
        invariant
            i <= variants@.len(),
            views(r@) == variant_arms(name@, variants@.take(i as int), target.method_name()),
        decreases variants@.len() - i,
    {
        let ghost prev = r@;
        let v = &variants[i];
        let a = match &v.fields {
            Fields::Unit => generate_variant_unit(name, &v.ident),
            Fields::Named(fs) => generate_variant_named(name, &v.ident, fs, target),
            Fields::Unnamed(fs) => generate_variant_unnamed(name, &v.ident, fs, target),
        };
        assert(a@ == variant_arm(name@, variants@[i as int], target.method_name()));
        r.push(a);
        assert(views(r@) =~= views(prev).push(a@));
        assert(variant_arms(name@, variants@.take(i + 1), target.method_name()) =~= variant_arms(
            name@,
            variants@.take(i as int),
            target.method_name(),
        ).push(a@));
        i += 1;
    }
    assert(variants@.take(variants@.len() as int) =~= variants@);
    r
}

/// The body of an enum's conversion method.
pub fn generate_enum_body(name: &String, variants: &Vec<Variant>, target: TargetTrait) -> (r: String)
    ensures
        r@ == enum_body(name@, variants@, target.method_name()),
{
    let arms = generate_variants(name, variants, target);
    concat3("match self { ", join_strings(&arms, ", ").as_str(), " }")
}

} // verus!
