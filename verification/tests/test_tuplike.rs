use seoul::model::{Data, DeriveInput, Fields, NamedField, UnnamedField, Variant};
use seoul::{expanded_tuple_argument, get_tokens, impl_tuplike_macro, Error, Tuplike};

fn named(fields: &[(&str, &str)]) -> Fields {
    Fields::Named(
        fields
            .iter()
            .map(|(ident, ty)| NamedField {
                vis: String::new(),
                ident: ident.to_string(),
                ty: ty.to_string(),
            })
            .collect(),
    )
}

fn unnamed(types: &[&str]) -> Fields {
    Fields::Unnamed(
        types
            .iter()
            .map(|ty| UnnamedField { vis: String::new(), ty: ty.to_string() })
            .collect(),
    )
}

fn variant(ident: &str, fields: Fields) -> Variant {
    Variant { attrs: Vec::new(), ident: ident.to_string(), fields }
}

fn input(ident: &str, generics: &str, where_clause: &str, data: Data) -> DeriveInput {
    DeriveInput {
        attrs: Vec::new(),
        vis: String::new(),
        ident: ident.to_string(),
        generics: generics.to_string(),
        where_clause: where_clause.to_string(),
        data,
    }
}

/// The tokens of `code` one by one, the content of a group between its
/// delimiters.
fn tokens(code: &str) -> Vec<String> {
    fn walk(stream: proc_macro2::TokenStream, out: &mut Vec<String>) {
        for tree in stream {
            match tree {
                proc_macro2::TokenTree::Group(group) => {
                    out.push(format!("{:?} {{", group.delimiter()));
                    walk(group.stream(), out);
                    out.push("}".to_string());
                }
                other => out.push(other.to_string()),
            }
        }
    }
    let mut out = Vec::new();
    walk(code.parse().unwrap(), &mut out);
    out
}

#[test]
fn test_tuplike1() {
    #[derive(Debug, Clone, PartialEq)]
    struct AB {
        a: u8,
        b: String,
    }

    let generated = impl_tuplike_macro(&input(
        "AB",
        "",
        "",
        Data::Struct(named(&[("a", "u8"), ("b", "String")])),
    ))
    .unwrap();
    assert_eq!(
        generated,
        "impl Tuplike for AB { } \
         impl From < (u8 , String ,) > for AB { \
         fn from ((f0 , f1 ,) : (u8 , String ,)) -> Self { Self { a : f0 , b : f1 , } } } \
         impl Into < (u8 , String ,) > for AB { \
         fn into (self) -> (u8 , String ,) { (self . a , self . b ,) } } \
         impl < 'tpl > Into < (& 'tpl u8 , & 'tpl String ,) > for & 'tpl AB { \
         fn into (self) -> (& 'tpl u8 , & 'tpl String ,) { (& self . a , & self . b ,) } }"
    );

    // What was generated, as code.
    impl Tuplike for AB {}
    impl From<(u8, String,)> for AB {
        fn from((f0, f1,): (u8, String,)) -> Self {
            Self { a: f0, b: f1, }
        }
    }
    impl Into<(u8, String,)> for AB {
        fn into(self) -> (u8, String,) {
            (self.a, self.b,)
        }
    }
    impl<'tpl> Into<(&'tpl u8, &'tpl String,)> for &'tpl AB {
        fn into(self) -> (&'tpl u8, &'tpl String,) {
            (&self.a, &self.b,)
        }
    }

    let tuple_: (u8, String) = (0, "string".to_string());
    let ab_: AB = AB { a: 0, b: "string".to_string() };

    let ab_into: (u8, String) = ab_.clone().into();
    let tuple_into: AB = tuple_.clone().into();

    assert_eq!(&ab_into, &tuple_);
    assert_eq!(&tuple_into, &ab_);

    let _ab_ref_into: (&u8, &String) = (&ab_).into();
}

#[test]
fn test_tuplike2() {
    #[derive(Debug, Clone, PartialEq)]
    struct AB(u8, String);

    let generated =
        impl_tuplike_macro(&input("AB", "", "", Data::Struct(unnamed(&["u8", "String"]))))
            .unwrap();
    assert_eq!(
        tokens(&generated),
        tokens(
            "impl Tuplike for AB {}
             impl From<(u8, String,)> for AB {
                 fn from((f0, f1,): (u8, String,)) -> Self {
                     Self(f0, f1,)
                 }
             }
             impl Into<(u8, String,)> for AB {
                 fn into(self) -> (u8, String,) {
                     (self.0, self.1,)
                 }
             }
             impl<'tpl> Into<(&'tpl u8, &'tpl String,)> for &'tpl AB {
                 fn into(self) -> (&'tpl u8, &'tpl String,) {
                     (&self.0, &self.1,)
                 }
             }"
        )
    );

    impl Tuplike for AB {}
    impl From<(u8, String,)> for AB {
        fn from((f0, f1,): (u8, String,)) -> Self {
            Self(f0, f1,)
        }
    }
    impl Into<(u8, String,)> for AB {
        fn into(self) -> (u8, String,) {
            (self.0, self.1,)
        }
    }
    impl<'tpl> Into<(&'tpl u8, &'tpl String,)> for &'tpl AB {
        fn into(self) -> (&'tpl u8, &'tpl String,) {
            (&self.0, &self.1,)
        }
    }

    let tuple_: (u8, String) = (0, "string".to_string());
    let ab_: AB = AB(0, "string".to_string());

    let ab_into: (u8, String) = ab_.clone().into();
    let tuple_into: AB = tuple_.clone().into();

    assert_eq!(&ab_into, &tuple_);
    assert_eq!(&tuple_into, &ab_);

    let _ab_ref_into: (&u8, &String) = (&ab_).into();
}

#[test]
fn test_tuplike3() {
    #[derive(Debug, Clone, PartialEq)]
    struct AB<X: Clone> {
        a: u8,
        b: X,
    }

    let generated = impl_tuplike_macro(&input(
        "AB",
        "<X: Clone>",
        "",
        Data::Struct(named(&[("a", "u8"), ("b", "X")])),
    ))
    .unwrap();
    assert_eq!(
        tokens(&generated),
        tokens(
            "impl<X: Clone> Tuplike for AB<X> {}
             impl<X: Clone> From<(u8, X,)> for AB<X> {
                 fn from((f0, f1,): (u8, X,)) -> Self {
                     Self { a: f0, b: f1, }
                 }
             }
             impl<X: Clone> Into<(u8, X,)> for AB<X> {
                 fn into(self) -> (u8, X,) {
                     (self.a, self.b,)
                 }
             }
             impl<'tpl, X: Clone,> Into<(&'tpl u8, &'tpl X,)> for &'tpl AB<X> {
                 fn into(self) -> (&'tpl u8, &'tpl X,) {
                     (&self.a, &self.b,)
                 }
             }"
        )
    );

    impl<X: Clone> Tuplike for AB<X> {}
    impl<X: Clone> From<(u8, X,)> for AB<X> {
        fn from((f0, f1,): (u8, X,)) -> Self {
            Self { a: f0, b: f1, }
        }
    }
    impl<X: Clone> Into<(u8, X,)> for AB<X> {
        fn into(self) -> (u8, X,) {
            (self.a, self.b,)
        }
    }
    impl<'tpl, X: Clone,> Into<(&'tpl u8, &'tpl X,)> for &'tpl AB<X> {
        fn into(self) -> (&'tpl u8, &'tpl X,) {
            (&self.a, &self.b,)
        }
    }

    let tuple_: (u8, String) = (0, "string".to_string());
    let ab_: AB<String> = AB { a: 0, b: "string".to_string() };

    let ab_into: (u8, String) = ab_.clone().into();
    let tuple_into: AB<String> = tuple_.clone().into();

    assert_eq!(&ab_into, &tuple_);
    assert_eq!(&tuple_into, &ab_);

    let _ab_ref_into: (&u8, &String) = (&ab_).into();
}

#[test]
fn test_tuplike4() {
    #[derive(Debug, Clone, PartialEq)]
    struct AB<X: Clone, Y>
    where
        Y: Clone,
    {
        a: X,
        b: Y,
    }

    let generated = impl_tuplike_macro(&input(
        "AB",
        "<X: Clone, Y>",
        "where Y : Clone",
        Data::Struct(named(&[("a", "X"), ("b", "Y")])),
    ))
    .unwrap();
    assert_eq!(
        tokens(&generated),
        tokens(
            "impl<X: Clone, Y> Tuplike for AB<X, Y> where Y: Clone {}
             impl<X: Clone, Y> From<(X, Y,)> for AB<X, Y> where Y: Clone {
                 fn from((f0, f1,): (X, Y,)) -> Self {
                     Self { a: f0, b: f1, }
                 }
             }
             impl<X: Clone, Y> Into<(X, Y,)> for AB<X, Y> where Y: Clone {
                 fn into(self) -> (X, Y,) {
                     (self.a, self.b,)
                 }
             }
             impl<'tpl, X: Clone, Y,> Into<(&'tpl X, &'tpl Y,)> for &'tpl AB<X, Y> where Y: Clone {
                 fn into(self) -> (&'tpl X, &'tpl Y,) {
                     (&self.a, &self.b,)
                 }
             }"
        )
    );

    impl<X: Clone, Y> Tuplike for AB<X, Y> where Y: Clone {}
    impl<X: Clone, Y> From<(X, Y,)> for AB<X, Y> where Y: Clone {
        fn from((f0, f1,): (X, Y,)) -> Self {
            Self { a: f0, b: f1, }
        }
    }
    impl<X: Clone, Y> Into<(X, Y,)> for AB<X, Y> where Y: Clone {
        fn into(self) -> (X, Y,) {
            (self.a, self.b,)
        }
    }
    impl<'tpl, X: Clone, Y,> Into<(&'tpl X, &'tpl Y,)> for &'tpl AB<X, Y> where Y: Clone {
        fn into(self) -> (&'tpl X, &'tpl Y,) {
            (&self.a, &self.b,)
        }
    }

    let tuple_: (u8, String) = (0, "string".to_string());
    let ab_: AB<u8, String> = AB { a: 0, b: "string".to_string() };

    let ab_into: (u8, String) = ab_.clone().into();
    let tuple_into: AB<u8, String> = tuple_.clone().into();

    assert_eq!(&ab_into, &tuple_);
    assert_eq!(&tuple_into, &ab_);

    let _ab_ref_into: (&u8, &String) = (&ab_).into();
}

#[test]
fn test_tuplike5() {
    #[derive(Debug, Clone, PartialEq)]
    enum ABC {
        A,
        B(String),
        C { a: i32, b: String },
    }

    let generated = impl_tuplike_macro(&input(
        "ABC",
        "",
        "",
        Data::Enum(vec![
            variant("A", Fields::Unit),
            variant("B", unnamed(&["String"])),
            variant("C", named(&[("a", "i32"), ("b", "String")])),
        ]),
    ))
    .unwrap();
    assert_eq!(
        tokens(&generated),
        tokens(
            "impl Tuplike for ABC {}
             impl From<(String,)> for ABC {
                 fn from((f0,): (String,)) -> Self {
                     Self::B(f0,)
                 }
             }
             impl From<(i32, String,)> for ABC {
                 fn from((f0, f1,): (i32, String,)) -> Self {
                     Self::C { a: f0, b: f1, }
                 }
             }"
        )
    );

    impl Tuplike for ABC {}
    impl From<(String,)> for ABC {
        fn from((f0,): (String,)) -> Self {
            Self::B(f0,)
        }
    }
    impl From<(i32, String,)> for ABC {
        fn from((f0, f1,): (i32, String,)) -> Self {
            Self::C { a: f0, b: f1, }
        }
    }

    let _ = ABC::A;

    let b1: (String,) = ("string".to_string(),);
    let b2: ABC = ABC::B("string".to_string());

    let b1_: ABC = b1.clone().into();

    assert_eq!(&b1_, &b2);

    let c1: (i32, String) = (10, "string".to_string());
    let c2: ABC = ABC::C { a: 10, b: "string".to_string() };
    let c1_: ABC = c1.clone().into();

    assert_eq!(&c1_, &c2);
}

#[test]
fn tuplike_refuses_a_struct_without_fields() {
    for fields in [Fields::Unit, Fields::Named(Vec::new()), Fields::Unnamed(Vec::new())] {
        let r = impl_tuplike_macro(&input("Empty", "", "", Data::Struct(fields)));
        assert_eq!(r, Err(Error::NoFields));
    }
    assert_eq!(Error::NoFields.message(), "Not for 0 fields data");
}

#[test]
fn tuplike_refuses_a_union() {
    let r = impl_tuplike_macro(&input("U", "", "", Data::Union));
    assert_eq!(r, Err(Error::Union));
    assert_eq!(Error::Union.message(), "Not for Union data type");
}

#[test]
fn tuplike_reports_generics_that_do_not_parse() {
    let r = impl_tuplike_macro(&input("AB", "<X", "", Data::Struct(unnamed(&["X"]))));
    assert!(matches!(r, Err(Error::Syntax(_))));
}

#[test]
fn tuplike_on_an_enum_without_fields_is_the_marker_alone() {
    let generated = impl_tuplike_macro(&input(
        "Unit",
        "",
        "",
        Data::Enum(vec![variant("A", Fields::Unit), variant("B", Fields::Named(Vec::new()))]),
    ))
    .unwrap();
    assert_eq!(generated, "impl Tuplike for Unit { }");
}

#[test]
fn tuplike_puts_the_lifetime_before_the_type_parameters() {
    let generated = impl_tuplike_macro(&input(
        "W",
        "<'x, T: Copy = u8, const N: usize = 3>",
        "",
        Data::Struct(unnamed(&["& 'x [T ; N]"])),
    ))
    .unwrap();
    assert_eq!(
        tokens(&generated),
        tokens(
            "impl<'x, T: Copy, const N: usize> Tuplike for W<'x, T, N> {}
             impl<'x, T: Copy, const N: usize> From<(&'x [T; N],)> for W<'x, T, N> {
                 fn from((f0,): (&'x [T; N],)) -> Self {
                     Self(f0,)
                 }
             }
             impl<'x, T: Copy, const N: usize> Into<(&'x [T; N],)> for W<'x, T, N> {
                 fn into(self) -> (&'x [T; N],) {
                     (self.0,)
                 }
             }
             impl<'x, 'tpl, T: Copy, const N: usize,> Into<(&'tpl &'x [T; N],)>
                 for &'tpl W<'x, T, N>
             {
                 fn into(self) -> (&'tpl &'x [T; N],) {
                     (&self.0,)
                 }
             }"
        )
    );
}

#[test]
fn tuple_argument_counts_in_decimal() {
    assert_eq!(expanded_tuple_argument(&Fields::Unit), "()");
    assert_eq!(expanded_tuple_argument(&unnamed(&["u8"])), "(f0 ,)");
    let twelve = unnamed(&["u8"; 12]);
    assert_eq!(
        expanded_tuple_argument(&twelve),
        "(f0 , f1 , f2 , f3 , f4 , f5 , f6 , f7 , f8 , f9 , f10 , f11 ,)"
    );
    let t = get_tokens(&twelve).unwrap();
    assert!(t.into.ends_with("self . 9 , self . 10 , self . 11 ,)"));
    assert!(t.ref_into.ends_with("& self . 10 , & self . 11 ,)"));
    assert_eq!(t.build, expanded_tuple_argument(&twelve));
}

#[test]
fn get_tokens_gives_the_five_pieces() {
    assert!(get_tokens(&Fields::Unit).is_none());
    assert!(get_tokens(&Fields::Named(Vec::new())).is_none());
    let t = get_tokens(&named(&[("x", "Vec < u8 >"), ("y", "bool")])).unwrap();
    assert_eq!(t.tuple, "(Vec < u8 > , bool ,)");
    assert_eq!(t.ref_tuple, "(& 'tpl Vec < u8 > , & 'tpl bool ,)");
    assert_eq!(t.build, "{ x : f0 , y : f1 , }");
    assert_eq!(t.into, "(self . x , self . y ,)");
    assert_eq!(t.ref_into, "(& self . x , & self . y ,)");
}
