//! The two conversion traits and their implementations for primitive and
//! standard types.
use vstd::prelude::*;
use std::borrow::Cow;
use std::collections::VecDeque;

verus! {

/// Conversion of `&T` into an owned value bounded by `'static`.
///
/// `T: 'static` reads "`T` is bounded by the `'static` lifetime": the value holds
/// no borrow that could end, not that it lives for the whole program.
pub trait ToBoundedStatic {
    /// The owned counterpart, bounded by `'static`.
    type Static: 'static;

    /// Builds an owned counterpart from a reference.
    fn to_static(&self) -> Self::Static;
}

/// Conversion of an owned `T` into an owned value bounded by `'static`.
pub trait IntoBoundedStatic {
    /// The owned counterpart, bounded by `'static`.
    type Static: 'static;

    /// Builds an owned counterpart by consuming the value.
    fn into_static(self) -> Self::Static;
}

impl ToBoundedStatic for &'static str {
    type Static = &'static str;

    fn to_static(&self) -> (r: &'static str)
        ensures
            r == *self,
    {
        *self
    }
}

impl IntoBoundedStatic for &'static str {
    type Static = &'static str;

    fn into_static(self) -> (r: &'static str)
        ensures
            r == self,
    {
        self
    }
}

impl ToBoundedStatic for () {
    type Static = ();

    fn to_static(&self) -> (r: ()) {
    }
}

impl IntoBoundedStatic for () {
    type Static = ();

    fn into_static(self) -> (r: ()) {
    }
}

impl ToBoundedStatic for bool {
    type Static = bool;

    fn to_static(&self) -> (r: bool)
        ensures
            r == *self,
    {
        *self
    }
}

impl IntoBoundedStatic for bool {
    type Static = bool;

    fn into_static(self) -> (r: bool)
        ensures
            r == self,
    {
        self
    }
}

impl ToBoundedStatic for char {
    type Static = char;

    fn to_static(&self) -> (r: char)
        ensures
            r == *self,
    {
        *self
    }
}

impl IntoBoundedStatic for char {
    type Static = char;

    fn into_static(self) -> (r: char)
        ensures
            r == self,
    {
        self
    }
}

impl ToBoundedStatic for usize {
    type Static = usize;

    fn to_static(&self) -> (r: usize)
        ensures
            r == *self,
    {
        *self
    }
}

impl IntoBoundedStatic for usize {
    type Static = usize;

    fn into_static(self) -> (r: usize)
        ensures
            r == self,
    {
        self
    }
}

impl ToBoundedStatic for u8 {
    type Static = u8;

    fn to_static(&self) -> (r: u8)
        ensures
            r == *self,
    {
        *self
    }
}

impl IntoBoundedStatic for u8 {
    type Static = u8;

    fn into_static(self) -> (r: u8)
        ensures
            r == self,
    {
        self
    }
}

impl ToBoundedStatic for u16 {
    type Static = u16;

    fn to_static(&self) -> (r: u16)
        ensures
            r == *self,
    {
        *self
    }
}

impl IntoBoundedStatic for u16 {
    type Static = u16;

    fn into_static(self) -> (r: u16)
        ensures
            r == self,
    {
        self
    }
}

impl ToBoundedStatic for u32 {
    type Static = u32;

    fn to_static(&self) -> (r: u32)
        ensures
            r == *self,
    {
        *self
    }
}

impl IntoBoundedStatic for u32 {
    type Static = u32;

    fn into_static(self) -> (r: u32)
        ensures
            r == self,
    {
        self
    }
}

impl ToBoundedStatic for u64 {
    type Static = u64;

    fn to_static(&self) -> (r: u64)
        ensures
            r == *self,
    {
        *self
    }
}

impl IntoBoundedStatic for u64 {
    type Static = u64;

    fn into_static(self) -> (r: u64)
        ensures
            r == self,
    {
        self
    }
}

impl ToBoundedStatic for u128 {
    type Static = u128;

    fn to_static(&self) -> (r: u128)
        ensures
            r == *self,
    {
        *self
    }
}

impl IntoBoundedStatic for u128 {
    type Static = u128;

    fn into_static(self) -> (r: u128)
        ensures
            r == self,
    {
        self
    }
}

impl ToBoundedStatic for isize {
    type Static = isize;

    fn to_static(&self) -> (r: isize)
        ensures
            r == *self,
    {
        *self
    }
}

impl IntoBoundedStatic for isize {
    type Static = isize;

    fn into_static(self) -> (r: isize)
        ensures
            r == self,
    {
        self
    }
}

impl ToBoundedStatic for i8 {
    type Static = i8;

    fn to_static(&self) -> (r: i8)
        ensures
            r == *self,
    {
        *self
    }
}

impl IntoBoundedStatic for i8 {
    type Static = i8;

    fn into_static(self) -> (r: i8)
        ensures
            r == self,
    {
        self
    }
}

impl ToBoundedStatic for i16 {
    type Static = i16;

    fn to_static(&self) -> (r: i16)
        ensures
            r == *self,
    {
        *self
    }
}

impl IntoBoundedStatic for i16 {
    type Static = i16;

    fn into_static(self) -> (r: i16)
        ensures
            r == self,
    {
        self
    }
}

impl ToBoundedStatic for i32 {
    type Static = i32;

    fn to_static(&self) -> (r: i32)
        ensures
            r == *self,
    {
        *self
    }
}

impl IntoBoundedStatic for i32 {
    type Static = i32;

    fn into_static(self) -> (r: i32)
        ensures
            r == self,
    {
        self
    }
}

impl ToBoundedStatic for i64 {
    type Static = i64;

    fn to_static(&self) -> (r: i64)
        ensures
            r == *self,
    {
        *self
    }
}

impl IntoBoundedStatic for i64 {
    type Static = i64;

    fn into_static(self) -> (r: i64)
        ensures
            r == self,
    {
        self
    }
}

impl ToBoundedStatic for i128 {
    type Static = i128;

    fn to_static(&self) -> (r: i128)
        ensures
            r == *self,
    {
        *self
    }
}

impl IntoBoundedStatic for i128 {
    type Static = i128;

    fn into_static(self) -> (r: i128)
        ensures
            r == self,
    {
        self
    }
}

impl ToBoundedStatic for String {
    type Static = String;

    fn to_static(&self) -> (r: String)
        ensures
            r@ == self@,
    {
        self.clone()
    }
}

impl IntoBoundedStatic for String {
    type Static = String;

    fn into_static(self) -> (r: String)
        ensures
            r == self,
    {
        self
    }
}

impl<T: ToBoundedStatic> ToBoundedStatic for Option<T> {
    type Static = Option<T::Static>;

    fn to_static(&self) -> (r: Option<T::Static>)
        ensures
            r is Some <==> self is Some,
            self is Some ==> call_ensures(T::to_static, (&self->0,), r->0),
    {
        match self {
            Some(x) => Some(x.to_static()),
            None => None,
        }
    }
}

impl<T: IntoBoundedStatic> IntoBoundedStatic for Option<T> {
    type Static = Option<T::Static>;

    fn into_static(self) -> (r: Option<T::Static>)
        ensures
            r is Some <==> self is Some,
            self is Some ==> call_ensures(T::into_static, (self->0,), r->0),
    {
        match self {
            Some(x) => Some(x.into_static()),
            None => None,
        }
    }
}

impl<T: ToBoundedStatic, E: ToBoundedStatic> ToBoundedStatic for Result<T, E> {
    type Static = Result<T::Static, E::Static>;

    fn to_static(&self) -> (r: Result<T::Static, E::Static>)
        ensures
            r is Ok <==> self is Ok,
            self is Ok ==> call_ensures(T::to_static, (&self->Ok_0,), r->Ok_0),
            self is Err ==> call_ensures(E::to_static, (&self->Err_0,), r->Err_0),
    {
        match self {
            Ok(value) => Ok(value.to_static()),
            Err(err) => Err(err.to_static()),
        }
    }
}

impl<T: IntoBoundedStatic, E: IntoBoundedStatic> IntoBoundedStatic for Result<T, E> {
    type Static = Result<T::Static, E::Static>;

    fn into_static(self) -> (r: Result<T::Static, E::Static>)
        ensures
            r is Ok <==> self is Ok,
            self is Ok ==> call_ensures(T::into_static, (self->Ok_0,), r->Ok_0),
            self is Err ==> call_ensures(E::into_static, (self->Err_0,), r->Err_0),
    {
        match self {
            Ok(value) => Ok(value.into_static()),
            Err(err) => Err(err.into_static()),
        }
    }
}

impl<T: ToBoundedStatic> ToBoundedStatic for Box<T> {
    type Static = Box<T::Static>;

    fn to_static(&self) -> (r: Box<T::Static>)
        ensures
            call_ensures(T::to_static, (&**self,), *r),
    {
        Box::new((**self).to_static())
    }
}

impl<T: IntoBoundedStatic> IntoBoundedStatic for Box<T> {
    type Static = Box<T::Static>;

    fn into_static(self) -> (r: Box<T::Static>)
        ensures
            call_ensures(T::into_static, (*self,), *r),
    {
        Box::new((*self).into_static())
    }
}

impl<T: ToBoundedStatic> ToBoundedStatic for Vec<T> {
    type Static = Vec<T::Static>;

    fn to_static(&self) -> (r: Vec<T::Static>)
        ensures
            r@.len() == self@.len(),
            forall|i: int|
                0 <= i < self@.len() ==> call_ensures(T::to_static, (&self@[i],), #[trigger] r@[i]),
    {
        let mut r: Vec<T::Static> = Vec::new();
        let mut i: usize = 0;
        while i < self.len()
            invariant
                i <= self@.len(),
                r@.len() == i,
                forall|j: int|
                    0 <= j < i ==> call_ensures(T::to_static, (&self@[j],), #[trigger] r@[j]),
            decreases self@.len() - i,
        {
            let x = self[i].to_static();
            r.push(x);
            i += 1;
        }
        r
    }
}

impl<T: IntoBoundedStatic> IntoBoundedStatic for Vec<T> {
    type Static = Vec<T::Static>;

    fn into_static(self) -> (r: Vec<T::Static>)
        ensures
            r@.len() == self@.len(),
            forall|i: int|
                0 <= i < self@.len() ==> call_ensures(T::into_static, (self@[i],), #[trigger] r@[i]),
    {
        let ghost orig = self@;
        let mut rest = self;
        let mut reversed: Vec<T> = Vec::new();
        while rest.len() > 0
            invariant
                reversed@.len() + rest@.len() == orig.len(),
                rest@ == orig.take(rest@.len() as int),
                forall|j: int|
                    0 <= j < reversed@.len() ==> #[trigger] reversed@[j] == orig[orig.len() - 1 - j],
            decreases rest@.len(),
        {
            let x = rest.pop().unwrap();
            reversed.push(x);
        }
        let mut r: Vec<T::Static> = Vec::new();
        while reversed.len() > 0
            invariant
                r@.len() + reversed@.len() == orig.len(),
                forall|j: int|
                    0 <= j < reversed@.len() ==> #[trigger] reversed@[j] == orig[orig.len() - 1 - j],
                forall|j: int|
                    0 <= j < r@.len() ==> call_ensures(T::into_static, (orig[j],), #[trigger] r@[j]),
            decreases reversed@.len(),
        {
            let x = reversed.pop().unwrap();
            let y = x.into_static();
            r.push(y);
        }
        r
    }
}

/// Relies on `<Cow as Clone>::clone`: a second `Cow` with the same content.
#[verifier::external_body]
fn clone_cow<'a, T: 'static + ToOwned + ?Sized>(c: &Cow<'a, T>) -> (r: Cow<'a, T>) {
    c.clone()
}

/// Relies on `Cow::into_owned`: the owned form of the content, copied out of a
/// borrow or moved out of an owned value.
#[verifier::external_body]
fn cow_into_owned<T: 'static + ToOwned + ?Sized>(c: Cow<'_, T>) -> (r: <T as ToOwned>::Owned) {
    c.into_owned()
}

impl<T: 'static + ToOwned + ?Sized> ToBoundedStatic for Cow<'_, T> {
    type Static = Cow<'static, T>;

    fn to_static(&self) -> (r: Cow<'static, T>)
        ensures
            r is Owned,
    {
        Cow::Owned(cow_into_owned(clone_cow(self)))
    }
}

impl<T: 'static + ToOwned + ?Sized> IntoBoundedStatic for Cow<'_, T> {
    type Static = Cow<'static, T>;

    fn into_static(self) -> (r: Cow<'static, T>)
        ensures
            r is Owned,
    {
        Cow::Owned(cow_into_owned(self))
    }
}

/// Relies on `core::array::from_fn`: element `i` of the result is what the
/// closure returns for `i`, here the conversion of element `i`.
#[verifier::external_body]
fn array_to_static<T: ToBoundedStatic, const N: usize>(a: &[T; N]) -> (r: [T::Static; N])
    ensures
        forall|i: int| 0 <= i < N ==> call_ensures(T::to_static, (&a@[i],), #[trigger] r@[i]),
{
    core::array::from_fn(|i| a[i].to_static())
}

/// Relies on `<[T; N]>::map`: element `i` of the result is the conversion of
/// element `i`.
#[verifier::external_body]
fn array_into_static<T: IntoBoundedStatic, const N: usize>(a: [T; N]) -> (r: [T::Static; N])
    ensures
        forall|i: int| 0 <= i < N ==> call_ensures(T::into_static, (a@[i],), #[trigger] r@[i]),
{
    a.map(IntoBoundedStatic::into_static)
}

impl<T: ToBoundedStatic, const N: usize> ToBoundedStatic for [T; N] {
    type Static = [T::Static; N];

    fn to_static(&self) -> (r: [T::Static; N])
        ensures
            forall|i: int| 0 <= i < N ==> call_ensures(T::to_static, (&self@[i],), #[trigger] r@[i]),
    {
        array_to_static(self)
    }
}

impl<T: IntoBoundedStatic, const N: usize> IntoBoundedStatic for [T; N] {
    type Static = [T::Static; N];

    fn into_static(self) -> (r: [T::Static; N])
        ensures
            forall|i: int| 0 <= i < N ==> call_ensures(T::into_static, (self@[i],), #[trigger] r@[i]),
    {
        array_into_static(self)
    }
}

impl<T0: ToBoundedStatic> ToBoundedStatic for (T0,) {
    type Static = (T0::Static,);

    fn to_static(&self) -> (r: (T0::Static,))
        ensures
            call_ensures(T0::to_static, (&self.0,), r.0),
    {
        (self.0.to_static(),)
    }
}

impl<T0: IntoBoundedStatic> IntoBoundedStatic for (T0,) {
    type Static = (T0::Static,);

    fn into_static(self) -> (r: (T0::Static,))
        ensures
            call_ensures(T0::into_static, (self.0,), r.0),
    {
        let (x0,) = self;
        (x0.into_static(),)
    }
}

impl<T0: ToBoundedStatic, T1: ToBoundedStatic> ToBoundedStatic for (T0, T1) {
    type Static = (T0::Static, T1::Static);

    fn to_static(&self) -> (r: (T0::Static, T1::Static))
        ensures
            call_ensures(T0::to_static, (&self.0,), r.0),
            call_ensures(T1::to_static, (&self.1,), r.1),
    {
        (self.0.to_static(), self.1.to_static())
    }
}

impl<T0: IntoBoundedStatic, T1: IntoBoundedStatic> IntoBoundedStatic for (T0, T1) {
    type Static = (T0::Static, T1::Static);

    fn into_static(self) -> (r: (T0::Static, T1::Static))
        ensures
            call_ensures(T0::into_static, (self.0,), r.0),
            call_ensures(T1::into_static, (self.1,), r.1),
    {
        let (x0, x1) = self;
        (x0.into_static(), x1.into_static())
    }
}

impl<T0: ToBoundedStatic, T1: ToBoundedStatic, T2: ToBoundedStatic> ToBoundedStatic for (T0, T1, T2) {
    type Static = (T0::Static, T1::Static, T2::Static);

    fn to_static(&self) -> (r: (T0::Static, T1::Static, T2::Static))
        ensures
            call_ensures(T0::to_static, (&self.0,), r.0),
            call_ensures(T1::to_static, (&self.1,), r.1),
            call_ensures(T2::to_static, (&self.2,), r.2),
    {
        (self.0.to_static(), self.1.to_static(), self.2.to_static())
    }
}

impl<T0: IntoBoundedStatic, T1: IntoBoundedStatic, T2: IntoBoundedStatic> IntoBoundedStatic for (T0, T1, T2) {
    type Static = (T0::Static, T1::Static, T2::Static);

    fn into_static(self) -> (r: (T0::Static, T1::Static, T2::Static))
        ensures
            call_ensures(T0::into_static, (self.0,), r.0),
            call_ensures(T1::into_static, (self.1,), r.1),
            call_ensures(T2::into_static, (self.2,), r.2),
    {
        let (x0, x1, x2) = self;
        (x0.into_static(), x1.into_static(), x2.into_static())
    }
}

impl<T0: ToBoundedStatic, T1: ToBoundedStatic, T2: ToBoundedStatic, T3: ToBoundedStatic> ToBoundedStatic for (T0, T1, T2, T3) {
    type Static = (T0::Static, T1::Static, T2::Static, T3::Static);

    fn to_static(&self) -> (r: (T0::Static, T1::Static, T2::Static, T3::Static))
        ensures
            call_ensures(T0::to_static, (&self.0,), r.0),
            call_ensures(T1::to_static, (&self.1,), r.1),
            call_ensures(T2::to_static, (&self.2,), r.2),
            call_ensures(T3::to_static, (&self.3,), r.3),
    {
        (self.0.to_static(), self.1.to_static(), self.2.to_static(), self.3.to_static())
    }
}

impl<T0: IntoBoundedStatic, T1: IntoBoundedStatic, T2: IntoBoundedStatic, T3: IntoBoundedStatic> IntoBoundedStatic for (T0, T1, T2, T3) {
    type Static = (T0::Static, T1::Static, T2::Static, T3::Static);

    fn into_static(self) -> (r: (T0::Static, T1::Static, T2::Static, T3::Static))
        ensures
            call_ensures(T0::into_static, (self.0,), r.0),
            call_ensures(T1::into_static, (self.1,), r.1),
            call_ensures(T2::into_static, (self.2,), r.2),
            call_ensures(T3::into_static, (self.3,), r.3),
    {
        let (x0, x1, x2, x3) = self;
        (x0.into_static(), x1.into_static(), x2.into_static(), x3.into_static())
    }
}

impl<T0: ToBoundedStatic, T1: ToBoundedStatic, T2: ToBoundedStatic, T3: ToBoundedStatic, T4: ToBoundedStatic> ToBoundedStatic for (T0, T1, T2, T3, T4) {
    type Static = (T0::Static, T1::Static, T2::Static, T3::Static, T4::Static);

    fn to_static(&self) -> (r: (T0::Static, T1::Static, T2::Static, T3::Static, T4::Static))
        ensures
            call_ensures(T0::to_static, (&self.0,), r.0),
            call_ensures(T1::to_static, (&self.1,), r.1),
            call_ensures(T2::to_static, (&self.2,), r.2),
            call_ensures(T3::to_static, (&self.3,), r.3),
            call_ensures(T4::to_static, (&self.4,), r.4),
    {
        (self.0.to_static(), self.1.to_static(), self.2.to_static(), self.3.to_static(), self.4.to_static())
    }
}

impl<T0: IntoBoundedStatic, T1: IntoBoundedStatic, T2: IntoBoundedStatic, T3: IntoBoundedStatic, T4: IntoBoundedStatic> IntoBoundedStatic for (T0, T1, T2, T3, T4) {
    type Static = (T0::Static, T1::Static, T2::Static, T3::Static, T4::Static);

    fn into_static(self) -> (r: (T0::Static, T1::Static, T2::Static, T3::Static, T4::Static))
        ensures
            call_ensures(T0::into_static, (self.0,), r.0),
            call_ensures(T1::into_static, (self.1,), r.1),
            call_ensures(T2::into_static, (self.2,), r.2),
            call_ensures(T3::into_static, (self.3,), r.3),
            call_ensures(T4::into_static, (self.4,), r.4),
    {
        let (x0, x1, x2, x3, x4) = self;
        (x0.into_static(), x1.into_static(), x2.into_static(), x3.into_static(), x4.into_static())
    }
}

impl<T0: ToBoundedStatic, T1: ToBoundedStatic, T2: ToBoundedStatic, T3: ToBoundedStatic, T4: ToBoundedStatic, T5: ToBoundedStatic> ToBoundedStatic for (T0, T1, T2, T3, T4, T5) {
    type Static = (T0::Static, T1::Static, T2::Static, T3::Static, T4::Static, T5::Static);

    fn to_static(&self) -> (r: (T0::Static, T1::Static, T2::Static, T3::Static, T4::Static, T5::Static))
        ensures
            call_ensures(T0::to_static, (&self.0,), r.0),
            call_ensures(T1::to_static, (&self.1,), r.1),
            call_ensures(T2::to_static, (&self.2,), r.2),
            call_ensures(T3::to_static, (&self.3,), r.3),
            call_ensures(T4::to_static, (&self.4,), r.4),
            call_ensures(T5::to_static, (&self.5,), r.5),
    {
        (self.0.to_static(), self.1.to_static(), self.2.to_static(), self.3.to_static(), self.4.to_static(), self.5.to_static())
    }
}

impl<T0: IntoBoundedStatic, T1: IntoBoundedStatic, T2: IntoBoundedStatic, T3: IntoBoundedStatic, T4: IntoBoundedStatic, T5: IntoBoundedStatic> IntoBoundedStatic for (T0, T1, T2, T3, T4, T5) {
    type Static = (T0::Static, T1::Static, T2::Static, T3::Static, T4::Static, T5::Static);

    fn into_static(self) -> (r: (T0::Static, T1::Static, T2::Static, T3::Static, T4::Static, T5::Static))
        ensures
            call_ensures(T0::into_static, (self.0,), r.0),
            call_ensures(T1::into_static, (self.1,), r.1),
            call_ensures(T2::into_static, (self.2,), r.2),
            call_ensures(T3::into_static, (self.3,), r.3),
            call_ensures(T4::into_static, (self.4,), r.4),
            call_ensures(T5::into_static, (self.5,), r.5),
    {
        let (x0, x1, x2, x3, x4, x5) = self;
        (x0.into_static(), x1.into_static(), x2.into_static(), x3.into_static(), x4.into_static(), x5.into_static())
    }
}

impl<T0: ToBoundedStatic, T1: ToBoundedStatic, T2: ToBoundedStatic, T3: ToBoundedStatic, T4: ToBoundedStatic, T5: ToBoundedStatic, T6: ToBoundedStatic> ToBoundedStatic for (T0, T1, T2, T3, T4, T5, T6) {
    type Static = (T0::Static, T1::Static, T2::Static, T3::Static, T4::Static, T5::Static, T6::Static);

    fn to_static(&self) -> (r: (T0::Static, T1::Static, T2::Static, T3::Static, T4::Static, T5::Static, T6::Static))
        ensures
            call_ensures(T0::to_static, (&self.0,), r.0),
            call_ensures(T1::to_static, (&self.1,), r.1),
            call_ensures(T2::to_static, (&self.2,), r.2),
            call_ensures(T3::to_static, (&self.3,), r.3),
            call_ensures(T4::to_static, (&self.4,), r.4),
            call_ensures(T5::to_static, (&self.5,), r.5),
            call_ensures(T6::to_static, (&self.6,), r.6),
    {
        (self.0.to_static(), self.1.to_static(), self.2.to_static(), self.3.to_static(), self.4.to_static(), self.5.to_static(), self.6.to_static())
    }
}

impl<T0: IntoBoundedStatic, T1: IntoBoundedStatic, T2: IntoBoundedStatic, T3: IntoBoundedStatic, T4: IntoBoundedStatic, T5: IntoBoundedStatic, T6: IntoBoundedStatic> IntoBoundedStatic for (T0, T1, T2, T3, T4, T5, T6) {
    type Static = (T0::Static, T1::Static, T2::Static, T3::Static, T4::Static, T5::Static, T6::Static);

    fn into_static(self) -> (r: (T0::Static, T1::Static, T2::Static, T3::Static, T4::Static, T5::Static, T6::Static))
        ensures
            call_ensures(T0::into_static, (self.0,), r.0),
            call_ensures(T1::into_static, (self.1,), r.1),
            call_ensures(T2::into_static, (self.2,), r.2),
            call_ensures(T3::into_static, (self.3,), r.3),
            call_ensures(T4::into_static, (self.4,), r.4),
            call_ensures(T5::into_static, (self.5,), r.5),
            call_ensures(T6::into_static, (self.6,), r.6),
    {
        let (x0, x1, x2, x3, x4, x5, x6) = self;
        (x0.into_static(), x1.into_static(), x2.into_static(), x3.into_static(), x4.into_static(), x5.into_static(), x6.into_static())
    }
}

impl<T0: ToBoundedStatic, T1: ToBoundedStatic, T2: ToBoundedStatic, T3: ToBoundedStatic, T4: ToBoundedStatic, T5: ToBoundedStatic, T6: ToBoundedStatic, T7: ToBoundedStatic> ToBoundedStatic for (T0, T1, T2, T3, T4, T5, T6, T7) {
    type Static = (T0::Static, T1::Static, T2::Static, T3::Static, T4::Static, T5::Static, T6::Static, T7::Static);

    fn to_static(&self) -> (r: (T0::Static, T1::Static, T2::Static, T3::Static, T4::Static, T5::Static, T6::Static, T7::Static))
        ensures
            call_ensures(T0::to_static, (&self.0,), r.0),
            call_ensures(T1::to_static, (&self.1,), r.1),
            call_ensures(T2::to_static, (&self.2,), r.2),
            call_ensures(T3::to_static, (&self.3,), r.3),
            call_ensures(T4::to_static, (&self.4,), r.4),
            call_ensures(T5::to_static, (&self.5,), r.5),
            call_ensures(T6::to_static, (&self.6,), r.6),
            call_ensures(T7::to_static, (&self.7,), r.7),
    {
        (self.0.to_static(), self.1.to_static(), self.2.to_static(), self.3.to_static(), self.4.to_static(), self.5.to_static(), self.6.to_static(), self.7.to_static())
    }
}

impl<T0: IntoBoundedStatic, T1: IntoBoundedStatic, T2: IntoBoundedStatic, T3: IntoBoundedStatic, T4: IntoBoundedStatic, T5: IntoBoundedStatic, T6: IntoBoundedStatic, T7: IntoBoundedStatic> IntoBoundedStatic for (T0, T1, T2, T3, T4, T5, T6, T7) {
    type Static = (T0::Static, T1::Static, T2::Static, T3::Static, T4::Static, T5::Static, T6::Static, T7::Static);

    fn into_static(self) -> (r: (T0::Static, T1::Static, T2::Static, T3::Static, T4::Static, T5::Static, T6::Static, T7::Static))
        ensures
            call_ensures(T0::into_static, (self.0,), r.0),
            call_ensures(T1::into_static, (self.1,), r.1),
            call_ensures(T2::into_static, (self.2,), r.2),
            call_ensures(T3::into_static, (self.3,), r.3),
            call_ensures(T4::into_static, (self.4,), r.4),
            call_ensures(T5::into_static, (self.5,), r.5),
            call_ensures(T6::into_static, (self.6,), r.6),
            call_ensures(T7::into_static, (self.7,), r.7),
    {
        let (x0, x1, x2, x3, x4, x5, x6, x7) = self;
        (x0.into_static(), x1.into_static(), x2.into_static(), x3.into_static(), x4.into_static(), x5.into_static(), x6.into_static(), x7.into_static())
    }
}

impl<T0: ToBoundedStatic, T1: ToBoundedStatic, T2: ToBoundedStatic, T3: ToBoundedStatic, T4: ToBoundedStatic, T5: ToBoundedStatic, T6: ToBoundedStatic, T7: ToBoundedStatic, T8: ToBoundedStatic> ToBoundedStatic for (T0, T1, T2, T3, T4, T5, T6, T7, T8) {
    type Static = (T0::Static, T1::Static, T2::Static, T3::Static, T4::Static, T5::Static, T6::Static, T7::Static, T8::Static);

    fn to_static(&self) -> (r: (T0::Static, T1::Static, T2::Static, T3::Static, T4::Static, T5::Static, T6::Static, T7::Static, T8::Static))
        ensures
            call_ensures(T0::to_static, (&self.0,), r.0),
            call_ensures(T1::to_static, (&self.1,), r.1),
            call_ensures(T2::to_static, (&self.2,), r.2),
            call_ensures(T3::to_static, (&self.3,), r.3),
            call_ensures(T4::to_static, (&self.4,), r.4),
            call_ensures(T5::to_static, (&self.5,), r.5),
            call_ensures(T6::to_static, (&self.6,), r.6),
            call_ensures(T7::to_static, (&self.7,), r.7),
            call_ensures(T8::to_static, (&self.8,), r.8),
    {
        (self.0.to_static(), self.1.to_static(), self.2.to_static(), self.3.to_static(), self.4.to_static(), self.5.to_static(), self.6.to_static(), self.7.to_static(), self.8.to_static())
    }
}

impl<T0: IntoBoundedStatic, T1: IntoBoundedStatic, T2: IntoBoundedStatic, T3: IntoBoundedStatic, T4: IntoBoundedStatic, T5: IntoBoundedStatic, T6: IntoBoundedStatic, T7: IntoBoundedStatic, T8: IntoBoundedStatic> IntoBoundedStatic for (T0, T1, T2, T3, T4, T5, T6, T7, T8) {
    type Static = (T0::Static, T1::Static, T2::Static, T3::Static, T4::Static, T5::Static, T6::Static, T7::Static, T8::Static);

    fn into_static(self) -> (r: (T0::Static, T1::Static, T2::Static, T3::Static, T4::Static, T5::Static, T6::Static, T7::Static, T8::Static))
        ensures
            call_ensures(T0::into_static, (self.0,), r.0),
            call_ensures(T1::into_static, (self.1,), r.1),
            call_ensures(T2::into_static, (self.2,), r.2),
            call_ensures(T3::into_static, (self.3,), r.3),
            call_ensures(T4::into_static, (self.4,), r.4),
            call_ensures(T5::into_static, (self.5,), r.5),
            call_ensures(T6::into_static, (self.6,), r.6),
            call_ensures(T7::into_static, (self.7,), r.7),
            call_ensures(T8::into_static, (self.8,), r.8),
    {
        let (x0, x1, x2, x3, x4, x5, x6, x7, x8) = self;
        (x0.into_static(), x1.into_static(), x2.into_static(), x3.into_static(), x4.into_static(), x5.into_static(), x6.into_static(), x7.into_static(), x8.into_static())
    }
}

impl<T0: ToBoundedStatic, T1: ToBoundedStatic, T2: ToBoundedStatic, T3: ToBoundedStatic, T4: ToBoundedStatic, T5: ToBoundedStatic, T6: ToBoundedStatic, T7: ToBoundedStatic, T8: ToBoundedStatic, T9: ToBoundedStatic> ToBoundedStatic for (T0, T1, T2, T3, T4, T5, T6, T7, T8, T9) {
    type Static = (T0::Static, T1::Static, T2::Static, T3::Static, T4::Static, T5::Static, T6::Static, T7::Static, T8::Static, T9::Static);

    fn to_static(&self) -> (r: (T0::Static, T1::Static, T2::Static, T3::Static, T4::Static, T5::Static, T6::Static, T7::Static, T8::Static, T9::Static))
        ensures
            call_ensures(T0::to_static, (&self.0,), r.0),
            call_ensures(T1::to_static, (&self.1,), r.1),
            call_ensures(T2::to_static, (&self.2,), r.2),
            call_ensures(T3::to_static, (&self.3,), r.3),
            call_ensures(T4::to_static, (&self.4,), r.4),
            call_ensures(T5::to_static, (&self.5,), r.5),
            call_ensures(T6::to_static, (&self.6,), r.6),
            call_ensures(T7::to_static, (&self.7,), r.7),
            call_ensures(T8::to_static, (&self.8,), r.8),
            call_ensures(T9::to_static, (&self.9,), r.9),
    {
        (self.0.to_static(), self.1.to_static(), self.2.to_static(), self.3.to_static(), self.4.to_static(), self.5.to_static(), self.6.to_static(), self.7.to_static(), self.8.to_static(), self.9.to_static())
    }
}

impl<T0: IntoBoundedStatic, T1: IntoBoundedStatic, T2: IntoBoundedStatic, T3: IntoBoundedStatic, T4: IntoBoundedStatic, T5: IntoBoundedStatic, T6: IntoBoundedStatic, T7: IntoBoundedStatic, T8: IntoBoundedStatic, T9: IntoBoundedStatic> IntoBoundedStatic for (T0, T1, T2, T3, T4, T5, T6, T7, T8, T9) {
    type Static = (T0::Static, T1::Static, T2::Static, T3::Static, T4::Static, T5::Static, T6::Static, T7::Static, T8::Static, T9::Static);

    fn into_static(self) -> (r: (T0::Static, T1::Static, T2::Static, T3::Static, T4::Static, T5::Static, T6::Static, T7::Static, T8::Static, T9::Static))
        ensures
            call_ensures(T0::into_static, (self.0,), r.0),
            call_ensures(T1::into_static, (self.1,), r.1),
            call_ensures(T2::into_static, (self.2,), r.2),
            call_ensures(T3::into_static, (self.3,), r.3),
            call_ensures(T4::into_static, (self.4,), r.4),
            call_ensures(T5::into_static, (self.5,), r.5),
            call_ensures(T6::into_static, (self.6,), r.6),
            call_ensures(T7::into_static, (self.7,), r.7),
            call_ensures(T8::into_static, (self.8,), r.8),
            call_ensures(T9::into_static, (self.9,), r.9),
    {
        let (x0, x1, x2, x3, x4, x5, x6, x7, x8, x9) = self;
        (x0.into_static(), x1.into_static(), x2.into_static(), x3.into_static(), x4.into_static(), x5.into_static(), x6.into_static(), x7.into_static(), x8.into_static(), x9.into_static())
    }
}

impl<T0: ToBoundedStatic, T1: ToBoundedStatic, T2: ToBoundedStatic, T3: ToBoundedStatic, T4: ToBoundedStatic, T5: ToBoundedStatic, T6: ToBoundedStatic, T7: ToBoundedStatic, T8: ToBoundedStatic, T9: ToBoundedStatic, T10: ToBoundedStatic> ToBoundedStatic for (T0, T1, T2, T3, T4, T5, T6, T7, T8, T9, T10) {
    type Static = (T0::Static, T1::Static, T2::Static, T3::Static, T4::Static, T5::Static, T6::Static, T7::Static, T8::Static, T9::Static, T10::Static);

    fn to_static(&self) -> (r: (T0::Static, T1::Static, T2::Static, T3::Static, T4::Static, T5::Static, T6::Static, T7::Static, T8::Static, T9::Static, T10::Static))
        ensures
            call_ensures(T0::to_static, (&self.0,), r.0),
            call_ensures(T1::to_static, (&self.1,), r.1),
            call_ensures(T2::to_static, (&self.2,), r.2),
            call_ensures(T3::to_static, (&self.3,), r.3),
            call_ensures(T4::to_static, (&self.4,), r.4),
            call_ensures(T5::to_static, (&self.5,), r.5),
            call_ensures(T6::to_static, (&self.6,), r.6),
            call_ensures(T7::to_static, (&self.7,), r.7),
            call_ensures(T8::to_static, (&self.8,), r.8),
            call_ensures(T9::to_static, (&self.9,), r.9),
            call_ensures(T10::to_static, (&self.10,), r.10),
    {
        (self.0.to_static(), self.1.to_static(), self.2.to_static(), self.3.to_static(), self.4.to_static(), self.5.to_static(), self.6.to_static(), self.7.to_static(), self.8.to_static(), self.9.to_static(), self.10.to_static())
    }
}

impl<T0: IntoBoundedStatic, T1: IntoBoundedStatic, T2: IntoBoundedStatic, T3: IntoBoundedStatic, T4: IntoBoundedStatic, T5: IntoBoundedStatic, T6: IntoBoundedStatic, T7: IntoBoundedStatic, T8: IntoBoundedStatic, T9: IntoBoundedStatic, T10: IntoBoundedStatic> IntoBoundedStatic for (T0, T1, T2, T3, T4, T5, T6, T7, T8, T9, T10) {
    type Static = (T0::Static, T1::Static, T2::Static, T3::Static, T4::Static, T5::Static, T6::Static, T7::Static, T8::Static, T9::Static, T10::Static);

    fn into_static(self) -> (r: (T0::Static, T1::Static, T2::Static, T3::Static, T4::Static, T5::Static, T6::Static, T7::Static, T8::Static, T9::Static, T10::Static))
        ensures
            call_ensures(T0::into_static, (self.0,), r.0),
            call_ensures(T1::into_static, (self.1,), r.1),
            call_ensures(T2::into_static, (self.2,), r.2),
            call_ensures(T3::into_static, (self.3,), r.3),
            call_ensures(T4::into_static, (self.4,), r.4),
            call_ensures(T5::into_static, (self.5,), r.5),
            call_ensures(T6::into_static, (self.6,), r.6),
            call_ensures(T7::into_static, (self.7,), r.7),
            call_ensures(T8::into_static, (self.8,), r.8),
            call_ensures(T9::into_static, (self.9,), r.9),
            call_ensures(T10::into_static, (self.10,), r.10),
    {
        let (x0, x1, x2, x3, x4, x5, x6, x7, x8, x9, x10) = self;
        (x0.into_static(), x1.into_static(), x2.into_static(), x3.into_static(), x4.into_static(), x5.into_static(), x6.into_static(), x7.into_static(), x8.into_static(), x9.into_static(), x10.into_static())
    }
}

impl<T0: ToBoundedStatic, T1: ToBoundedStatic, T2: ToBoundedStatic, T3: ToBoundedStatic, T4: ToBoundedStatic, T5: ToBoundedStatic, T6: ToBoundedStatic, T7: ToBoundedStatic, T8: ToBoundedStatic, T9: ToBoundedStatic, T10: ToBoundedStatic, T11: ToBoundedStatic> ToBoundedStatic for (T0, T1, T2, T3, T4, T5, T6, T7, T8, T9, T10, T11) {
    type Static = (T0::Static, T1::Static, T2::Static, T3::Static, T4::Static, T5::Static, T6::Static, T7::Static, T8::Static, T9::Static, T10::Static, T11::Static);

    fn to_static(&self) -> (r: (T0::Static, T1::Static, T2::Static, T3::Static, T4::Static, T5::Static, T6::Static, T7::Static, T8::Static, T9::Static, T10::Static, T11::Static))
        ensures
            call_ensures(T0::to_static, (&self.0,), r.0),
            call_ensures(T1::to_static, (&self.1,), r.1),
            call_ensures(T2::to_static, (&self.2,), r.2),
            call_ensures(T3::to_static, (&self.3,), r.3),
            call_ensures(T4::to_static, (&self.4,), r.4),
            call_ensures(T5::to_static, (&self.5,), r.5),
            call_ensures(T6::to_static, (&self.6,), r.6),
            call_ensures(T7::to_static, (&self.7,), r.7),
            call_ensures(T8::to_static, (&self.8,), r.8),
            call_ensures(T9::to_static, (&self.9,), r.9),
            call_ensures(T10::to_static, (&self.10,), r.10),
            call_ensures(T11::to_static, (&self.11,), r.11),
    {
        (self.0.to_static(), self.1.to_static(), self.2.to_static(), self.3.to_static(), self.4.to_static(), self.5.to_static(), self.6.to_static(), self.7.to_static(), self.8.to_static(), self.9.to_static(), self.10.to_static(), self.11.to_static())
    }
}

impl<T0: IntoBoundedStatic, T1: IntoBoundedStatic, T2: IntoBoundedStatic, T3: IntoBoundedStatic, T4: IntoBoundedStatic, T5: IntoBoundedStatic, T6: IntoBoundedStatic, T7: IntoBoundedStatic, T8: IntoBoundedStatic, T9: IntoBoundedStatic, T10: IntoBoundedStatic, T11: IntoBoundedStatic> IntoBoundedStatic for (T0, T1, T2, T3, T4, T5, T6, T7, T8, T9, T10, T11) {
    type Static = (T0::Static, T1::Static, T2::Static, T3::Static, T4::Static, T5::Static, T6::Static, T7::Static, T8::Static, T9::Static, T10::Static, T11::Static);

    fn into_static(self) -> (r: (T0::Static, T1::Static, T2::Static, T3::Static, T4::Static, T5::Static, T6::Static, T7::Static, T8::Static, T9::Static, T10::Static, T11::Static))
        ensures
            call_ensures(T0::into_static, (self.0,), r.0),
            call_ensures(T1::into_static, (self.1,), r.1),
            call_ensures(T2::into_static, (self.2,), r.2),
            call_ensures(T3::into_static, (self.3,), r.3),
            call_ensures(T4::into_static, (self.4,), r.4),
            call_ensures(T5::into_static, (self.5,), r.5),
            call_ensures(T6::into_static, (self.6,), r.6),
            call_ensures(T7::into_static, (self.7,), r.7),
            call_ensures(T8::into_static, (self.8,), r.8),
            call_ensures(T9::into_static, (self.9,), r.9),
            call_ensures(T10::into_static, (self.10,), r.10),
            call_ensures(T11::into_static, (self.11,), r.11),
    {
        let (x0, x1, x2, x3, x4, x5, x6, x7, x8, x9, x10, x11) = self;
        (x0.into_static(), x1.into_static(), x2.into_static(), x3.into_static(), x4.into_static(), x5.into_static(), x6.into_static(), x7.into_static(), x8.into_static(), x9.into_static(), x10.into_static(), x11.into_static())
    }
}

impl<T: ToBoundedStatic> ToBoundedStatic for VecDeque<T> {
    type Static = VecDeque<T::Static>;

    fn to_static(&self) -> (r: VecDeque<T::Static>)
        ensures
            r@.len() == self@.len(),
            forall|i: int|
                0 <= i < self@.len() ==> call_ensures(T::to_static, (&self@[i],), #[trigger] r@[i]),
    {
        let mut r: VecDeque<T::Static> = VecDeque::new();
        let mut i: usize = 0;
        while i < self.len()
            invariant
                i <= self@.len(),
                r@.len() == i,
                forall|j: int|
                    0 <= j < i ==> call_ensures(T::to_static, (&self@[j],), #[trigger] r@[j]),
            decreases self@.len() - i,
        {
            let x = self[i].to_static();
            r.push_back(x);
            i += 1;
        }
        r
    }
}

impl<T: IntoBoundedStatic> IntoBoundedStatic for VecDeque<T> {
    type Static = VecDeque<T::Static>;

    fn into_static(self) -> (r: VecDeque<T::Static>)
        ensures
            r@.len() == self@.len(),
            forall|i: int|
                0 <= i < self@.len() ==> call_ensures(T::into_static, (self@[i],), #[trigger] r@[i]),
    {
        let ghost orig = self@;
        let mut rest = self;
        let mut r: VecDeque<T::Static> = VecDeque::new();
        while rest.len() > 0
            invariant
                r@.len() + rest@.len() == orig.len(),
                rest@ == orig.skip(r@.len() as int),
                forall|j: int|
                    0 <= j < r@.len() ==> call_ensures(T::into_static, (orig[j],), #[trigger] r@[j]),
            decreases rest@.len(),
        {
            let x = rest.pop_front().unwrap();
            assert(rest@ =~= orig.skip(r@.len() + 1 as int));
            let y = x.into_static();
            r.push_back(y);
        }
        r
    }
}

/// Relies on `<RandomState as Clone>::clone`: a builder with the same keys.
#[verifier::external_body]
fn clone_random_state(s: &std::collections::hash_map::RandomState) -> (r: std::collections::hash_map::RandomState) {
    s.clone()
}

impl ToBoundedStatic for std::collections::hash_map::RandomState {
    type Static = std::collections::hash_map::RandomState;

    fn to_static(&self) -> (r: std::collections::hash_map::RandomState) {
        clone_random_state(self)
    }
}

} // verus!
