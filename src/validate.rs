//! The field validator: a reference field must not name a lifetime other than `'static`.
use vstd::prelude::*;
use crate::decl::{all_fields, fields_of, variants_fields, Data, Field, FieldType, Fields, NamedField, Variant};

verus! {

/// A field whose type is a reference with a written lifetime other than `'static`.
pub open spec fn is_invalid(f: Field) -> bool {
    match f.ty {
        FieldType::Reference { lifetime: Some(l) } => l@ != "static"@,
        _ => false,
    }
}

/// The first invalid field of the sequence, if any.
pub open spec fn first_invalid(s: Seq<Field>) -> Option<Field>
    decreases s.len(),
{
    if s.len() == 0 {
        None
    } else {
        match first_invalid(s.drop_last()) {
            Some(f) => Some(f),
            None => if is_invalid(s.last()) {
                Some(s.last())
            } else {
                None
            },
        }
    }
}

/// The first invalid field of `a + b` is the first of `a`, or else the first of `b`.
pub proof fn lemma_first_invalid_append(a: Seq<Field>, b: Seq<Field>)
    ensures
        first_invalid(a + b) == (match first_invalid(a) {
            Some(f) => Some(f),
            None => first_invalid(b),
        }),
    decreases b.len(),
{
    if b.len() == 0 {
        assert(a + b =~= a);
    } else {
        lemma_first_invalid_append(a, b.drop_last());
        assert((a + b).drop_last() =~= a + b.drop_last());
    }
}

/// Accepts a field unless its type is a reference with a lifetime other than `'static`.
pub fn check_field(field: &Field) -> (r: Option<String>)
    ensures
        r is Some <==> is_invalid(*field),
        r matches Some(t) ==> t@ == field.text@,
{
    match &field.ty {
        FieldType::Reference { lifetime: Some(l) } => {
            if l.eq(&String::from_str("static")) {
                None
            } else {
                Some(field.text.clone())
            }
        },
        _ => None,
    }
}

/// `first_invalid` finds the earliest invalid field, and finds none exactly when
/// every field is valid.
pub proof fn lemma_first_invalid_earliest(s: Seq<Field>)
    ensures
        first_invalid(s) is None <==> forall|i: int| 0 <= i < s.len() ==> !is_invalid(#[trigger] s[i]),
        first_invalid(s) matches Some(f) ==> exists|k: int|
            0 <= k < s.len() && s[k] == f && is_invalid(f) && forall|j: int|
                0 <= j < k ==> !is_invalid(#[trigger] s[j]),
    decreases s.len(),
{
    if s.len() > 0 {
        let p = s.drop_last();
        lemma_first_invalid_earliest(p);
        assert forall|i: int| 0 <= i < p.len() implies p[i] == s[i] by {}
        if first_invalid(p) is None && !is_invalid(s.last()) {
            assert forall|i: int| 0 <= i < s.len() implies !is_invalid(#[trigger] s[i]) by {
                if i < p.len() {
                    assert(p[i] == s[i]);
                }
            }
        }
        if first_invalid(p) is Some {
            let k = choose|k: int|
                0 <= k < p.len() && p[k] == first_invalid(p)->0 && is_invalid(first_invalid(p)->0)
                    && forall|j: int| 0 <= j < k ==> !is_invalid(#[trigger] p[j]);
            assert(s[k] == first_invalid(s)->0);
            assert forall|j: int| 0 <= j < k implies !is_invalid(#[trigger] s[j]) by {
                assert(p[j] == s[j]);
            }
        }
        if first_invalid(p) is None && is_invalid(s.last()) {
            assert forall|j: int| 0 <= j < s.len() - 1 implies !is_invalid(#[trigger] s[j]) by {
                assert(p[j] == s[j]);
            }
        }
    }
}

/// Once a prefix holds an invalid field, the whole sequence has the same first one.
proof fn lemma_first_invalid_prefix(s: Seq<Field>, k: int)
    requires
        0 <= k <= s.len(),
        first_invalid(s.take(k)) is Some,
    ensures
        first_invalid(s) == first_invalid(s.take(k)),
{
    lemma_first_invalid_append(s.take(k), s.skip(k));
    assert(s.take(k) + s.skip(k) =~= s);
}

proof fn lemma_variants_fields_append(a: Seq<Variant>, b: Seq<Variant>)
    ensures
        variants_fields(a + b) == variants_fields(a) + variants_fields(b),
    decreases b.len(),
{
    if b.len() == 0 {
        assert(a + b =~= a);
        assert(variants_fields(a) + Seq::<Field>::empty() =~= variants_fields(a));
    } else {
        lemma_variants_fields_append(a, b.drop_last());
        assert((a + b).drop_last() =~= a + b.drop_last());
        assert(variants_fields(a) + variants_fields(b) =~= variants_fields(a) + variants_fields(
            b.drop_last(),
        ) + fields_of(b.last().fields));
    }
}

/// The text of the first invalid field of the sequence, if any.
pub open spec fn first_invalid_text(s: Seq<Field>) -> Option<Seq<char>> {
    match first_invalid(s) {
        Some(f) => Some(f.text@),
        None => None,
    }
}

fn check_named_fields(v: &Vec<NamedField>) -> (r: Option<String>)
    ensures
        r is Some <==> first_invalid_text(fields_of(Fields::Named(*v))) is Some,
        r matches Some(t) ==> Some(t@) == first_invalid_text(fields_of(Fields::Named(*v))),
{
    let ghost s = fields_of(Fields::Named(*v));
    let mut i: usize = 0;
    while i < v.len()
        invariant
            i <= v@.len(),
            s == v@.map_values(|nf: NamedField| nf.field),
            first_invalid(s.take(i as int)) is None,
        decreases v@.len() - i,
    {
        let r = check_field(&v[i].field);
        assert(s.take(i + 1).drop_last() =~= s.take(i as int));
        assert(s.take(i + 1).last() == v@[i as int].field);
        if r.is_some() {
            proof {
                lemma_first_invalid_prefix(s, i + 1);
            }
            return r;
        }
        i += 1;
    }
    assert(s.take(v@.len() as int) =~= s);
    None
}

fn check_unnamed_fields(v: &Vec<Field>) -> (r: Option<String>)
    ensures
        r is Some <==> first_invalid_text(v@) is Some,
        r matches Some(t) ==> Some(t@) == first_invalid_text(v@),
{
    let ghost s = v@;
    let mut i: usize = 0;
    while i < v.len()
        invariant
            i <= v@.len(),
            s == v@,
            first_invalid(s.take(i as int)) is None,
        decreases v@.len() - i,
    {
        let r = check_field(&v[i]);
        assert(s.take(i + 1).drop_last() =~= s.take(i as int));
        if r.is_some() {
            proof {
                lemma_first_invalid_prefix(s, i + 1);
            }
            return r;
        }
        i += 1;
    }
    assert(s.take(v@.len() as int) =~= s);
    None
}

/// Runs the validator over every field of one layout, in declaration order, and
/// gives the text of the first field it rejects.
pub fn check_fields(fields: &Fields) -> (r: Option<String>)
    ensures
        r is Some <==> first_invalid_text(fields_of(*fields)) is Some,
        r matches Some(t) ==> Some(t@) == first_invalid_text(fields_of(*fields)),
{
    match fields {
        Fields::Unit => None,
        Fields::Named(v) => check_named_fields(v),
        Fields::Unnamed(v) => check_unnamed_fields(v),
    }
}

/// Runs the validator over every field reachable from the declaration (each field
/// of each variant, for an enum) and gives the text of the first field it rejects.
pub fn check_data(data: &Data) -> (r: Option<String>)
    ensures
        r is Some <==> first_invalid_text(all_fields(*data)) is Some,
        r matches Some(t) ==> Some(t@) == first_invalid_text(all_fields(*data)),
{
    match data {
        Data::Struct(f) => check_fields(f),
        Data::Union => None,
        Data::Enum(vs) => {
            let ghost s = vs@;
            let mut i: usize = 0;
            while i < vs.len()
                invariant
                    i <= vs@.len(),
                    s == vs@,
                    all_fields(*data) == variants_fields(s),
                    first_invalid(variants_fields(s.take(i as int))) is None,
                decreases vs@.len() - i,
            {
                let r = check_fields(&vs[i].fields);
                assert(s.take(i + 1).drop_last() =~= s.take(i as int));
                assert(variants_fields(s.take(i + 1)) == variants_fields(s.take(i as int))
                    + fields_of(s[i as int].fields));
                proof {
                    lemma_first_invalid_append(
                        variants_fields(s.take(i as int)),
                        fields_of(s[i as int].fields),
                    );
                }
                if r.is_some() {
                    proof {
                        lemma_variants_fields_append(s.take(i + 1), s.skip(i + 1));
                        assert(s.take(i + 1) + s.skip(i + 1) =~= s);
                        lemma_first_invalid_append(
                            variants_fields(s.take(i + 1)),
                            variants_fields(s.skip(i + 1)),
                        );
                    }
                    return r;
                }
                i += 1;
            }
            assert(s.take(vs@.len() as int) =~= s);
            None
        },
    }
}

} // verus!
