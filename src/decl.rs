//! The description of a type declaration that the generator reads.
use vstd::prelude::*;

verus! {

/// One bound of a type parameter or of a where-clause predicate.
#[derive(Clone, Debug)]
pub enum Bound {
    /// A lifetime bound, by its text with the apostrophe (`'a`, `'static`).
    Lifetime(String),
    /// A trait bound, by its text (`Into<String>`, `?Sized`).
    Trait(String),
}

/// One parameter of a declaration's generic parameter list.
#[derive(Clone, Debug)]
pub enum GenericParam {
    /// A lifetime parameter, named without its apostrophe (`a` for `'a`).
    Lifetime { name: String },
    /// A type parameter and its inline bounds, in order.
    Type { ident: String, bounds: Vec<Bound> },
    /// A const parameter and the text of its type.
    Const { ident: String, ty: String },
}

/// One predicate of a declaration's where-clause.
#[derive(Clone, Debug)]
pub enum WherePredicate {
    /// `bounded: b1 + b2 + ...`, with the text of the bounded type.
    Type { bounded: String, bounds: Vec<Bound> },
    /// A lifetime predicate such as `'b: 'a`, by its text.
    Lifetime { text: String },
}

/// What the validator needs to know of a field's declared type.
#[derive(Clone, Debug)]
pub enum FieldType {
    /// A reference type, with the name of its lifetime when one is written
    /// (without the apostrophe: `static` for `&'static str`).
    Reference { lifetime: Option<String> },
    /// Any type that is not a reference.
    Other,
}

/// A field of a struct or of an enum variant.
#[derive(Clone, Debug)]
pub struct Field {
    pub ty: FieldType,
    /// The field's declaration as source text, quoted back in diagnostics.
    pub text: String,
}

/// A field of a struct or variant with named fields.
#[derive(Clone, Debug)]
pub struct NamedField {
    pub ident: String,
    pub field: Field,
}

/// The field layout of a struct or of an enum variant.
#[derive(Clone, Debug)]
pub enum Fields {
    Unit,
    Named(Vec<NamedField>),
    Unnamed(Vec<Field>),
}

/// A variant of an enum.
#[derive(Clone, Debug)]
pub struct Variant {
    pub ident: String,
    pub fields: Fields,
}

/// The shape of a declaration.
#[derive(Clone, Debug)]
pub enum Data {
    Struct(Fields),
    Enum(Vec<Variant>),
    Union,
}

/// A type declaration on which the conversions are derived.
#[derive(Clone, Debug)]
pub struct DeriveInput {
    pub ident: String,
    pub params: Vec<GenericParam>,
    pub where_clause: Vec<WherePredicate>,
    pub data: Data,
}

/// The fields of one layout, in declaration order.
pub open spec fn fields_of(f: Fields) -> Seq<Field> {
    match f {
        Fields::Unit => Seq::empty(),
        Fields::Named(v) => v@.map_values(|nf: NamedField| nf.field),
        Fields::Unnamed(v) => v@,
    }
}

/// The fields of all the variants, variant after variant.
pub open spec fn variants_fields(vs: Seq<Variant>) -> Seq<Field>
    decreases vs.len(),
{
    if vs.len() == 0 {
        Seq::empty()
    } else {
        variants_fields(vs.drop_last()) + fields_of(vs.last().fields)
    }
}

/// Every field reachable from the declaration, in declaration order.
pub open spec fn all_fields(d: Data) -> Seq<Field> {
    match d {
        Data::Struct(f) => fields_of(f),
        Data::Enum(vs) => variants_fields(vs@),
        Data::Union => Seq::empty(),
    }
}

} // verus!
