use seoul::model::{Attribute, Data, DeriveInput, Fields, NamedField, UnnamedField, Variant};
use seoul::reflica::{
    apply_argument, apply_arguments, read_names, read_shadow, write_shadow_impls, Names, Shadow,
};
use seoul::syntax::Meta;
use seoul::{get_ref_fields, impl_reflica_macro, Error, Reflica};

fn named(fields: &[(&str, &str)]) -> Fields {
    Fields::Named(
        fields
            .iter()
            .map(|(ident, ty)| NamedField {
                vis: String::new(),
                ident: ident.to_string(),
                ty: ty.to_string(),
            })
            .collect(),
    )
}

fn unnamed(types: &[&str]) -> Fields {
    Fields::Unnamed(
        types
            .iter()
            .map(|ty| UnnamedField { vis: String::new(), ty: ty.to_string() })
            .collect(),
    )
}

fn attr(name: &str, args: Option<&str>) -> Attribute {
    Attribute { name: name.to_string(), args: args.map(|a| a.to_string()) }
}

fn variant(attrs: Vec<Attribute>, ident: &str, fields: Fields) -> Variant {
    Variant { attrs, ident: ident.to_string(), fields }
}

fn input(
    attrs: Vec<Attribute>,
    ident: &str,
    generics: &str,
    where_clause: &str,
    data: Data,
) -> DeriveInput {
    DeriveInput {
        attrs,
        vis: String::new(),
        ident: ident.to_string(),
        generics: generics.to_string(),
        where_clause: where_clause.to_string(),
        data,
    }
}

/// The tokens of `code` one by one, the content of a group between its
/// delimiters.
fn tokens(code: &str) -> Vec<String> {
    fn walk(stream: proc_macro2::TokenStream, out: &mut Vec<String>) {
        for tree in stream {
            match tree {
                proc_macro2::TokenTree::Group(group) => {
                    out.push(format!("{:?} {{", group.delimiter()));
                    walk(group.stream(), out);
                    out.push("}".to_string());
                }
                other => out.push(other.to_string()),
            }
        }
    }
    let mut out = Vec::new();
    walk(code.parse().unwrap(), &mut out);
    out
}

#[test]
fn test_reflica1() {
    // struct
    struct AB<I> {
        a: u8,
        b: I,
    }

    let generated = impl_reflica_macro(&input(
        vec![attr("reflica", Some("Clone, Copy, Debug, PartialEq, Eq, PartialOrd, Ord"))],
        "AB",
        "<I>",
        "",
        Data::Struct(named(&[("a", "u8"), ("b", "I")])),
    ))
    .unwrap();
    assert_eq!(
        generated,
        "impl < I > Reflica for AB < I > { } \
         # [derive (Clone , Copy , Debug , PartialEq , Eq , PartialOrd , Ord)] \
         struct RefAB < 'a , I , > { a : & 'a u8 , b : & 'a I } \
         impl < 'a , I , > Into < RefAB < 'a , I , > > for & 'a AB < I > { \
         fn into (self) -> RefAB < 'a , I , > { let AB { a , b } = self ; RefAB { a , b } } }"
    );

    // What was generated, as code.
    impl<I> Reflica for AB<I> {}
    #[derive(Clone, Copy, Debug, PartialEq, Eq, PartialOrd, Ord)]
    struct RefAB<'a, I,> {
        a: &'a u8,
        b: &'a I,
    }
    impl<'a, I,> Into<RefAB<'a, I,>> for &'a AB<I> {
        fn into(self) -> RefAB<'a, I,> {
            let AB { a, b } = self;
            RefAB { a, b }
        }
    }

    // RefAB delcared
    let _: RefAB<String> = RefAB { a: &8, b: &String::from("ab") };

    // check Into<RefAB> for &AB
    let x = AB { a: 0, b: String::from("x") };
    let _: RefAB<String> = (&x).into();

    // check derive `Ord`
    let a: RefAB<u8> = RefAB { a: &2, b: &10 };
    let b: RefAB<u8> = RefAB { a: &2, b: &11 };
    let c: RefAB<u8> = RefAB { a: &3, b: &10 };
    let x = vec![a, b, c];
    let mut y = x.clone();
    y.sort();
    assert_eq!(x, y);

    // unnamed fields
    struct CD(u8, u8);

    let generated =
        impl_reflica_macro(&input(vec![], "CD", "", "", Data::Struct(unnamed(&["u8", "u8"]))))
            .unwrap();
    assert_eq!(
        tokens(&generated),
        tokens(
            "impl Reflica for CD {}
             struct RefCD<'a>(&'a u8, &'a u8);
             impl<'a> Into<RefCD<'a>> for &'a CD {
                 fn into(self) -> RefCD<'a> {
                     let CD(f0, f1) = self;
                     RefCD(f0, f1)
                 }
             }"
        )
    );

    impl Reflica for CD {}
    struct RefCD<'a>(&'a u8, &'a u8);
    impl<'a> Into<RefCD<'a>> for &'a CD {
        fn into(self) -> RefCD<'a> {
            let CD(f0, f1) = self;
            RefCD(f0, f1)
        }
    }

    let _: RefCD = RefCD(&0, &10);
    let cd = CD(1, 2);
    let r: RefCD = (&cd).into();
    assert_eq!((*r.0, *r.1), (1, 2));
}

#[test]
fn test_reflica2() {
    // enum, use prefix other than basic `Ref`
    enum ABC<I>
    where
        I: Clone,
    {
        A,
        B { a: u8, b: I },
        C(u8),
    }

    let generated = impl_reflica_macro(&input(
        vec![attr("reflica", Some("Clone, Copy, Debug, prefix=\"Ref2\""))],
        "ABC",
        "<I>",
        "where I : Clone",
        Data::Enum(vec![
            variant(vec![], "A", Fields::Unit),
            variant(vec![], "B", named(&[("a", "u8"), ("b", "I")])),
            variant(vec![], "C", unnamed(&["u8"])),
        ]),
    ))
    .unwrap();
    assert_eq!(
        tokens(&generated),
        tokens(
            "impl<I> Reflica for ABC<I> where I: Clone {}
             #[derive(Clone, Copy, Debug)]
             enum Ref2ABC<'a, I,> where I: Clone {
                 A,
                 B { a: &'a u8, b: &'a I },
                 C(&'a u8),
             }
             impl<'a, I,> Into<Ref2ABC<'a, I,>> for &'a ABC<I> where I: Clone {
                 fn into(self) -> Ref2ABC<'a, I,> {
                     match self {
                         ABC::A => Ref2ABC::A,
                         ABC::B { a, b } => Ref2ABC::B { a, b },
                         ABC::C(f0) => Ref2ABC::C(f0),
                     }
                 }
             }"
        )
    );

    // What was generated, as code.
    impl<I> Reflica for ABC<I> where I: Clone {}
    #[derive(Clone, Copy, Debug)]
    enum Ref2ABC<'a, I,>
    where
        I: Clone,
    {
        A,
        B { a: &'a u8, b: &'a I },
        C(&'a u8),
    }
    impl<'a, I,> Into<Ref2ABC<'a, I,>> for &'a ABC<I>
    where
        I: Clone,
    {
        fn into(self) -> Ref2ABC<'a, I,> {
            match self {
                ABC::A => Ref2ABC::A,
                ABC::B { a, b } => Ref2ABC::B { a, b },
                ABC::C(f0) => Ref2ABC::C(f0),
            }
        }
    }

    // Ref2AB delcared
    let _: Ref2ABC<u8> = Ref2ABC::A;
    let _: Ref2ABC<String> = Ref2ABC::B { a: &8, b: &String::from("ab") };

    // check Into<Ref2AB>
    let x = ABC::B { a: 0, b: String::from("x") };
    let _: Ref2ABC<String> = (&x).into();

    let x = ABC::<u8>::C(0);
    let _: Ref2ABC<u8> = (&x).into();

    let x = ABC::<u8>::A;
    let r: Ref2ABC<u8> = (&x).into();
    assert!(matches!(r, Ref2ABC::A));
}

#[test]
fn reflica_keeps_the_visibility_of_the_type_and_of_its_fields() {
    let fields = Fields::Named(vec![
        NamedField { vis: "pub".to_string(), ident: "a".to_string(), ty: "u8".to_string() },
        NamedField {
            vis: "pub (crate)".to_string(),
            ident: "b".to_string(),
            ty: "String".to_string(),
        },
    ]);
    let mut ast = input(vec![], "AB", "", "", Data::Struct(fields));
    ast.vis = "pub".to_string();
    assert_eq!(
        tokens(&impl_reflica_macro(&ast).unwrap()),
        tokens(
            "impl Reflica for AB {}
             pub struct RefAB<'a> { pub a: &'a u8, pub(crate) b: &'a String }
             impl<'a> Into<RefAB<'a>> for &'a AB {
                 fn into(self) -> RefAB<'a> {
                     let AB { a, b } = self;
                     RefAB { a, b }
                 }
             }"
        )
    );
}

#[test]
fn reflica_on_a_unit_struct() {
    assert_eq!(
        impl_reflica_macro(&input(vec![], "U", "", "", Data::Struct(Fields::Unit))).unwrap(),
        "impl Reflica for U { } struct RefU < 'a > ; \
         impl < 'a > Into < RefU < 'a > > for & 'a U { \
         fn into (self) -> RefU < 'a > { let U = self ; RefU } }"
    );
}

#[test]
fn reflica_with_an_attribute_that_lists_nothing() {
    let generated = impl_reflica_macro(&input(
        vec![attr("doc", None), attr("reflica", Some("")), attr("reflica", Some("Clone"))],
        "U",
        "",
        "",
        Data::Enum(vec![]),
    ))
    .unwrap();
    assert_eq!(
        generated,
        "impl Reflica for U { } # [derive ()] enum RefU < 'a > { } \
         impl < 'a > Into < RefU < 'a > > for & 'a U { \
         fn into (self) -> RefU < 'a > { match self { } } }"
    );
}

#[test]
fn reflica_passes_over_a_longer_path_and_takes_the_last_prefix() {
    let generated = impl_reflica_macro(&input(
        vec![attr("reflica", Some("prefix = \"A\", std::fmt::Debug, Clone, prefix = \"B_\","))],
        "U",
        "",
        "",
        Data::Struct(unnamed(&["u8"])),
    ))
    .unwrap();
    assert!(generated.contains("# [derive (Clone)] struct B_U < 'a > (& 'a u8) ;"));
}

#[test]
fn reflica_refuses_a_union() {
    let r = impl_reflica_macro(&input(vec![], "U", "", "", Data::Union));
    assert_eq!(r, Err(Error::Union));
}

#[test]
fn reflica_refuses_an_attribute_without_parentheses() {
    let r = impl_reflica_macro(&input(
        vec![attr("reflica", None)],
        "U",
        "",
        "",
        Data::Struct(Fields::Unit),
    ));
    assert_eq!(r, Err(Error::MissingArguments("reflica".to_string())));
    assert_eq!(
        r.unwrap_err().message(),
        "expected attribute arguments in parentheses: #[reflica(...)]"
    );
}

#[test]
fn reflica_reports_what_the_parser_refuses() {
    let cases = [
        // no list of items
        "Clone Copy",
        // the prefix is no string
        "prefix = 3",
        // the name of the shadow type is no identifier
        "prefix = \"1\"",
        "prefix = \"a b\"",
    ];
    for args in cases {
        let r = impl_reflica_macro(&input(
            vec![attr("reflica", Some(args))],
            "U",
            "",
            "",
            Data::Struct(Fields::Unit),
        ));
        assert!(matches!(r, Err(Error::Syntax(_))), "{}", args);
    }
    // a trait with something after it
    for args in ["Clone = 1", "Clone(x)", "a::b = 1"] {
        let r = impl_reflica_macro(&input(
            vec![attr("reflica", Some(args))],
            "U",
            "",
            "",
            Data::Struct(Fields::Unit),
        ));
        assert_eq!(r, Err(Error::ExpectedComma), "{}", args);
    }
    // the prefix has no value
    for args in ["prefix", "prefix(\"Ref\")"] {
        let r = impl_reflica_macro(&input(
            vec![attr("reflica", Some(args))],
            "U",
            "",
            "",
            Data::Struct(Fields::Unit),
        ));
        assert_eq!(r, Err(Error::ExpectedValue), "{}", args);
    }
    let r = impl_reflica_macro(&input(
        vec![attr("reflica", Some("prefix"))],
        "U",
        "",
        "",
        Data::Struct(Fields::Unit),
    ));
    assert_eq!(r, Err(Error::ExpectedValue));
    let r = impl_reflica_macro(&input(
        vec![attr("reflica", Some("Clone(x)"))],
        "U",
        "",
        "",
        Data::Struct(Fields::Unit),
    ));
    assert_eq!(r, Err(Error::ExpectedComma));
}

#[test]
fn reflica_reads_the_name_of_the_shadow_type_as_an_identifier() {
    let generated = impl_reflica_macro(&input(
        vec![attr("reflica", Some("prefix = \" Shadow\""))],
        "U",
        "",
        "",
        Data::Struct(Fields::Unit),
    ))
    .unwrap();
    assert!(generated.contains("struct ShadowU < 'a > ;"));
    assert!(generated.contains("fn into (self) -> ShadowU < 'a > { let U = self ; ShadowU }"));
}

#[test]
fn reflica_takes_a_keyword_for_the_name_of_the_shadow_type() {
    let generated = impl_reflica_macro(&input(
        vec![attr("reflica", Some("prefix = \"sel\""))],
        "f",
        "",
        "",
        Data::Struct(Fields::Unit),
    ))
    .unwrap();
    assert!(generated.contains("struct self < 'a > ;"));
}

#[test]
fn reflica_unescapes_the_prefix() {
    let generated = impl_reflica_macro(&input(
        vec![attr("reflica", Some("prefix = \"R\\u{65}f\""))],
        "U",
        "",
        "",
        Data::Struct(Fields::Unit),
    ))
    .unwrap();
    assert!(generated.contains("struct RefU < 'a > ;"));
}

#[test]
fn ref_fields_of_each_kind() {
    let (is_named, fields, bindings) = get_ref_fields(&named(&[("a", "u8"), ("b", "I")]));
    assert!(is_named);
    assert_eq!(fields, "{ a : & 'a u8 , b : & 'a I }");
    assert_eq!(bindings, "{ a , b }");

    let (is_named, fields, bindings) = get_ref_fields(&unnamed(&["u8", "I", "bool"]));
    assert!(!is_named);
    assert_eq!(fields, "(& 'a u8 , & 'a I , & 'a bool)");
    assert_eq!(bindings, "(f0 , f1 , f2)");

    let (is_named, fields, bindings) = get_ref_fields(&Fields::Unit);
    assert!(!is_named);
    assert_eq!(fields, "");
    assert_eq!(bindings, "");

    let (is_named, fields, bindings) = get_ref_fields(&Fields::Named(vec![]));
    assert!(is_named);
    assert_eq!(fields, "{ }");
    assert_eq!(bindings, "{ }");

    let (is_named, fields, bindings) = get_ref_fields(&Fields::Unnamed(vec![]));
    assert!(!is_named);
    assert_eq!(fields, "()");
    assert_eq!(bindings, "()");
}

#[test]
fn reflica_arguments_one_by_one() {
    let none = Shadow { derives: vec![], prefix: None };
    let path = |name: &str| Meta::Path(Some(name.to_string()));
    let s = apply_argument(none.clone(), &path("Clone")).unwrap();
    let s = apply_argument(s, &Meta::Path(None)).unwrap();
    let s = apply_argument(s, &path("Debug")).unwrap();
    let s = apply_argument(s, &Meta::NameValue(Some("prefix".to_string()), "\"P\"".to_string()))
        .unwrap();
    assert_eq!(
        s,
        Shadow { derives: vec!["Clone".to_string(), "Debug".to_string()], prefix: Some("P".to_string()) }
    );
    assert_eq!(
        apply_argument(none.clone(), &path("prefix")),
        Err(Error::ExpectedValue)
    );
    assert_eq!(
        apply_argument(none.clone(), &Meta::List(None, String::new())),
        Err(Error::ExpectedComma)
    );
    assert_eq!(apply_arguments(&vec![]), Ok(none.clone()));
    assert_eq!(read_shadow(&vec![attr("derive", Some("Clone"))]), Ok(None));
    assert_eq!(read_shadow(&vec![attr("reflica", Some(""))]), Ok(Some(none)));
}

#[test]
fn names_as_read_and_as_written() {
    let ast = input(
        vec![attr("reflica", Some("Clone, prefix = \"Borrowed\""))],
        "Pair",
        "<A, B = A>",
        "where A : Copy",
        Data::Struct(unnamed(&["A", "B"])),
    );
    let names = read_names(&ast).unwrap();
    assert_eq!(
        names,
        Names {
            derive: "# [derive (Clone)]".to_string(),
            vis: String::new(),
            name: "Pair".to_string(),
            ref_name: "BorrowedPair".to_string(),
            for_impl: "< A , B >".to_string(),
            for_type: "< A , B >".to_string(),
            for_ref_impl: "< 'a , A , B , >".to_string(),
            for_ref_type: "< 'a , A , B , >".to_string(),
            where_clause: "where A : Copy".to_string(),
        }
    );
    assert_eq!(write_shadow_impls(&names, &ast.data), impl_reflica_macro(&ast));
    assert_eq!(write_shadow_impls(&names, &Data::Union), Err(Error::Union));
}
