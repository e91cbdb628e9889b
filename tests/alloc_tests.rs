use bounded_static::{IntoBoundedStatic, ToBoundedStatic};
use std::borrow::Cow;

fn ensure_static<T: 'static>(t: T) {
    drop(t);
}

#[derive(Copy, Clone)]
struct Plain {}

impl ToBoundedStatic for Plain {
    type Static = Self;

    fn to_static(&self) -> Self::Static {
        *self
    }
}

#[derive(Clone)]
struct OneCow<'a> {
    foo: Cow<'a, str>,
}

impl ToBoundedStatic for OneCow<'_> {
    type Static = OneCow<'static>;

    fn to_static(&self) -> Self::Static {
        OneCow {
            foo: self.foo.to_static(),
        }
    }
}

#[derive(Clone)]
struct Multi<'a> {
    bar: Cow<'a, str>,
    baz: Vec<Cow<'a, str>>,
}

impl ToBoundedStatic for Multi<'_> {
    type Static = Multi<'static>;

    fn to_static(&self) -> Self::Static {
        Multi {
            bar: self.bar.to_static(),
            baz: self.baz.to_static(),
        }
    }
}

struct Mixed<'a> {
    prim: u64,
    borrowed_str: &'static str,
    owned_str: String,
    cow_str: Cow<'a, str>,
}

impl ToBoundedStatic for Mixed<'_> {
    type Static = Mixed<'static>;

    fn to_static(&self) -> Self::Static {
        Mixed {
            prim: self.prim.to_static(),
            borrowed_str: self.borrowed_str.to_static(),
            owned_str: self.owned_str.to_static(),
            cow_str: self.cow_str.to_static(),
        }
    }
}

#[test]
fn test_string() {
    let s = String::from("");
    let to_static = s.to_static();
    ensure_static(to_static);
}

#[test]
fn test_cow_borrowed_str() {
    let s = String::from("");
    let to_static = Cow::from(&s).to_static();
    ensure_static(to_static);
}

#[test]
fn test_cow_owned_string() {
    let s = String::from("");
    let to_static = Cow::from(s).to_static();
    ensure_static(to_static);
}

#[test]
fn test_cow_to_static() {
    let s = String::from("");
    let s_cow: Cow<'_, str> = Cow::Borrowed(&s);
    let s1_cow_owned: Cow<'_, str> = s_cow.to_static();
    let s2_cow_owned: Cow<'_, str> = Cow::Owned(s_cow.into_owned());
    assert_eq!(s1_cow_owned, s2_cow_owned);
}

#[test]
fn test_cow_into_static() {
    let s = String::from("");
    let s_cow: Cow<'_, str> = Cow::Borrowed(&s);
    let s1_cow_owned: Cow<'_, str> = s_cow.clone().into_static();
    let s2_cow_owned: Cow<'_, str> = Cow::Owned(s_cow.into_owned());
    assert_eq!(s1_cow_owned, s2_cow_owned);
}

#[test]
fn test_vec1() {
    let s = String::from("");
    let value = vec![Cow::from(&s)];
    let to_static = value.to_static();
    ensure_static(to_static);
}

#[test]
fn test_vec2() {
    let s = String::from("");
    let value = vec![Cow::from(&s), Cow::from(s.as_str())];
    let to_static = value.to_static();
    ensure_static(to_static);
}

#[test]
fn lib_test_option_none() {
    let value: Option<Cow<'_, str>> = None;
    let to_static = value.to_static();
    ensure_static(to_static);
}

#[test]
fn lib_test_option_some() {
    let s = String::from("");
    let value = Some(Cow::from(&s));
    let to_static = value.to_static();
    ensure_static(to_static);
}

#[test]
fn test_box() {
    let s = String::from("");
    let value = Box::new(s);
    let to_static = value.to_static();
    ensure_static(to_static);
}

#[test]
fn test_box_cow() {
    let s = String::from("");
    let value = Box::new(Cow::from(&s));
    let to_static = value.to_static();
    ensure_static(to_static);
}

#[test]
fn test_box_vec_cow() {
    let s = String::from("");
    let value = Box::new(vec![Cow::from(&s)]);
    let to_static = value.to_static();
    ensure_static(to_static);
}

#[test]
fn test_vec_box_cow() {
    let s = String::from("");
    let value = vec![Box::new(Cow::from(&s))];
    let to_static = value.to_static();
    ensure_static(to_static);
}

#[test]
fn test_cow_box() {
    let s = String::from("");
    let boxed = Box::new(s);
    let value = Cow::Borrowed(&boxed);
    let to_static = value.to_static();
    ensure_static(to_static);
}

#[test]
fn test_cow_struct() {
    let foo = Plain {};
    let value = Cow::Borrowed(&foo);
    let to_static = value.to_static();
    ensure_static(to_static);
}

#[test]
fn test_cow_struct_of_cow() {
    let s = String::from("");
    let foo = OneCow { foo: Cow::from(&s) };
    let value = Cow::Borrowed(&foo);
    let to_static = value.into_owned().to_static();
    ensure_static(to_static);
}

#[test]
fn test_cow_cow() {
    let s = String::from("");
    let value1: Cow<'_, str> = Cow::Borrowed(&s);
    let value2: Cow<'_, Cow<'_, str>> = Cow::Borrowed(&value1);
    let to_static = value2.into_owned().to_static();
    ensure_static(to_static);
}

#[test]
fn test_struct_cow_borrowed_str() {
    let s = String::from("");
    let foo = OneCow { foo: Cow::from(&s) };
    let to_static = foo.to_static();
    ensure_static(to_static);
}

#[test]
fn test_struct_cow_owned_string() {
    let s = String::from("");
    let foo = OneCow { foo: Cow::from(s) };
    let to_static = foo.to_static();
    ensure_static(to_static);
}

#[test]
fn test_struct_multi() {
    let s = String::from("");
    let foo = Multi {
        bar: Cow::from(&s),
        baz: vec![Cow::from(&s)],
    };
    let to_static = foo.to_static();
    ensure_static(to_static);
}

#[test]
fn test_struct_mixed() {
    let s = String::from("");
    let foo = Mixed {
        prim: 0,
        borrowed_str: "",
        owned_str: s.clone(),
        cow_str: Cow::from(&s),
    };
    let to_static = foo.to_static();
    ensure_static(to_static);
}

#[test]
fn cow_conversions_copy_borrowed_content() {
    let s = String::from("borrowed");
    let c: Cow<'_, str> = Cow::Borrowed(&s);
    let to = c.to_static();
    assert!(matches!(to, Cow::Owned(ref o) if o == "borrowed"));
    let into = Cow::Borrowed(s.as_str()).into_static();
    assert!(matches!(into, Cow::Owned(ref o) if o == "borrowed"));
    let owned: Cow<'_, str> = Cow::Owned(String::from("own"));
    assert!(matches!(owned.into_static(), Cow::Owned(ref o) if o == "own"));
}

#[test]
fn containers_keep_order_and_content() {
    let a = String::from("a");
    let b = String::from("b");
    let v = vec![Cow::from(&a), Cow::from(&b), Cow::from("c")];
    let to = v.to_static();
    assert_eq!(to, vec![Cow::<str>::Owned(a.clone()), Cow::Owned(b.clone()), Cow::Owned(String::from("c"))]);
    let into = v.into_static();
    assert_eq!(into, vec![Cow::<str>::Owned(a.clone()), Cow::Owned(b.clone()), Cow::Owned(String::from("c"))]);
    let empty: Vec<u8> = Vec::new();
    assert!(empty.into_static().is_empty());
    let nums = vec![3u32, 1, 2].into_static();
    assert_eq!(nums, vec![3, 1, 2]);
    let boxed = Box::new(String::from("x")).into_static();
    assert_eq!(*boxed, "x");
    assert_eq!(String::from("y").to_static(), "y");
}
