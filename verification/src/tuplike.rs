//! `Tuplike`: conversions between a struct and the tuple of its fields, and
//! from such a tuple into a variant of an enum.

use vstd::prelude::*;
use crate::error::{Error, ErrorView, outcome};
use crate::model::{
    Data, DataView, DeriveInput, DeriveInputView, Fields, FieldsView, NamedFieldView, Subject,
    subject_of, SubjectView, UnnamedFieldView, Variant, VariantView,
};
use crate::text::{
    brace, braced, decimal, decimal_text, join, join_all, join_first, paren, parenthesized,
    positional, positional_name, positional_names, positionals, push_word, texts, wrap_each,
    wrapped_each,
};

verus! {

/// A type that converts to and from the tuple of its fields.
pub trait Tuplike: Sized {

}

/// The pattern that binds the fields of a tuple: `(f0 , f1 ,)`, one binding
/// for each field.
pub open spec fn tuple_argument(fields: FieldsView) -> Seq<char> {
    paren(wrapped_each(positionals(fields.len()), Seq::empty(), ","@))
}

/// Writes the pattern that binds the fields of a tuple.
pub fn expanded_tuple_argument(fields: &Fields) -> (r: String)
    ensures
        r@ == tuple_argument(fields@),
{
    let names = positional_names(fields.len());
    let inner = wrap_each(&names, "", ",");
    proof {
        reveal_strlit("");
        assert(""@ =~= Seq::<char>::empty());
    }
    parenthesized(inner.as_str())
}

/// The types of the fields, in order.
pub open spec fn field_types(fields: FieldsView) -> Seq<Seq<char>> {
    match fields {
        FieldsView::Named(v) => v.map_values(|f: NamedFieldView| f.ty),
        FieldsView::Unnamed(v) => v.map_values(|f: UnnamedFieldView| f.ty),
        FieldsView::Unit => Seq::empty(),
    }
}

/// What stands after `self .` to reach each field: its name, or its position
/// in decimal.
pub open spec fn field_accessors(fields: FieldsView) -> Seq<Seq<char>> {
    match fields {
        FieldsView::Named(v) => v.map_values(|f: NamedFieldView| f.ident),
        FieldsView::Unnamed(v) => Seq::new(v.len(), |i: int| decimal(i as nat)),
        FieldsView::Unit => Seq::empty(),
    }
}

/// The field list that builds a value from the positional bindings:
/// `{ a : f0 , b : f1 , }` or `(f0 , f1 ,)`.
pub open spec fn build_token(fields: FieldsView) -> Seq<char> {
    match fields {
        FieldsView::Named(v) => brace(
            wrapped_each(
                Seq::new(v.len(), |i: int| join(seq![v[i].ident, ":"@, positional(i as nat)])),
                Seq::empty(),
                ","@,
            ),
        ),
        _ => paren(wrapped_each(positionals(fields.len()), Seq::empty(), ","@)),
    }
}

/// The pieces from which the conversions of one field list are written.
#[derive(Clone, Debug, PartialEq, Eq)]
pub struct TupleTokens {
    /// The tuple type of the fields: `(A , B ,)`.
    pub tuple: String,
    /// The tuple type of the borrowed fields: `(& 'tpl A , & 'tpl B ,)`.
    pub ref_tuple: String,
    /// The field list that builds a value from the positional bindings.
    pub build: String,
    /// The tuple of the fields of `self`.
    pub into: String,
    /// The tuple of references to the fields of `self`.
    pub ref_into: String,
}

pub struct TupleTokensView {
    pub tuple: Seq<char>,
    pub ref_tuple: Seq<char>,
    pub build: Seq<char>,
    pub into: Seq<char>,
    pub ref_into: Seq<char>,
}

impl View for TupleTokens {
    type V = TupleTokensView;

    open spec fn view(&self) -> TupleTokensView {
        TupleTokensView {
            tuple: self.tuple@,
            ref_tuple: self.ref_tuple@,
            build: self.build@,
            into: self.into@,
            ref_into: self.ref_into@,
        }
    }
}

/// The pieces for a field list; none for one without fields.
pub open spec fn tokens_of(fields: FieldsView) -> Option<TupleTokensView> {
    if fields.len() == 0 {
        None
    } else {
        Some(
            TupleTokensView {
                tuple: paren(wrapped_each(field_types(fields), Seq::empty(), ","@)),
                ref_tuple: paren(wrapped_each(field_types(fields), "& 'tpl"@, ","@)),
                build: build_token(fields),
                into: paren(wrapped_each(field_accessors(fields), "self ."@, ","@)),
                ref_into: paren(wrapped_each(field_accessors(fields), "& self ."@, ","@)),
            },
        )
    }
}

/// The types of the fields, in order.
fn types_of(fields: &Fields) -> (r: Vec<String>)
    ensures
        texts(r@) == field_types(fields@),
{
    let mut types: Vec<String> = Vec::new();
    match fields {
        Fields::Named(v) => {
            let mut i: usize = 0;
            while i < v.len()
                invariant
                    i <= v.len(),
                    types@.len() == i,
                    forall|j: int| 0 <= j < i ==> (#[trigger] types@[j])@ == v@[j]@.ty,
                decreases v.len() - i,
            {
                types.push(v[i].ty.clone());
                i += 1;
            }
        },
        Fields::Unnamed(v) => {
            let mut i: usize = 0;
            while i < v.len()
                invariant
                    i <= v.len(),
                    types@.len() == i,
                    forall|j: int| 0 <= j < i ==> (#[trigger] types@[j])@ == v@[j]@.ty,
                decreases v.len() - i,
            {
                types.push(v[i].ty.clone());
                i += 1;
            }
        },
        Fields::Unit => {},
    }
    assert(texts(types@) =~= field_types(fields@));
    types
}

/// What stands after `self .` to reach each field.
fn accessors_of(fields: &Fields) -> (r: Vec<String>)
    ensures
        texts(r@) == field_accessors(fields@),
{
    let mut accessors: Vec<String> = Vec::new();
    match fields {
        Fields::Named(v) => {
            let mut i: usize = 0;
            while i < v.len()
                invariant
                    i <= v.len(),
                    accessors@.len() == i,
                    forall|j: int| 0 <= j < i ==> (#[trigger] accessors@[j])@ == v@[j]@.ident,
                decreases v.len() - i,
            {
                accessors.push(v[i].ident.clone());
                i += 1;
            }
        },
        Fields::Unnamed(v) => {
            let mut i: usize = 0;
            while i < v.len()
                invariant
                    i <= v.len(),
                    accessors@.len() == i,
                    forall|j: int| 0 <= j < i ==> (#[trigger] accessors@[j])@ == decimal(j as nat),
                decreases v.len() - i,
            {
                accessors.push(decimal_text(i));
                i += 1;
            }
        },
        Fields::Unit => {},
    }
    assert(texts(accessors@) =~= field_accessors(fields@));
    accessors
}

/// The field list that builds a value from the positional bindings.
fn build_of(fields: &Fields) -> (r: String)
    ensures
        r@ == build_token(fields@),
{
    proof {
        reveal_strlit("");
        assert(""@ =~= Seq::<char>::empty());
    }
    match fields {
        Fields::Named(v) => {
            let mut items: Vec<String> = Vec::new();
            let mut i: usize = 0;
            while i < v.len()
                invariant
                    i <= v.len(),
                    items@.len() == i,
                    forall|j: int|
                        0 <= j < i ==> (#[trigger] items@[j])@ == join(
                            seq![v@[j]@.ident, ":"@, positional(j as nat)],
                        ),
                decreases v.len() - i,
            {
                let binding = positional_name(i);
                let mut item = String::new();
                push_word(&mut item, v[i].ident.as_str());
                push_word(&mut item, ":");
                push_word(&mut item, binding.as_str());
                proof {
                    reveal_with_fuel(join_first, 4);
                }
                items.push(item);
                i += 1;
            }
            assert(texts(items@) =~= Seq::new(
                v@.len(),
                |i: int|
                    join(seq![fields@->Named_0[i].ident, ":"@, positional(i as nat)]),
            ));
            let inner = wrap_each(&items, "", ",");
            braced(inner.as_str())
        },
        _ => {
            let names = positional_names(fields.len());
            let inner = wrap_each(&names, "", ",");
            parenthesized(inner.as_str())
        },
    }
}

/// The pieces for a field list; none for one without fields.
pub fn get_tokens(fields: &Fields) -> (r: Option<TupleTokens>)
    ensures
        match r {
            Some(t) => tokens_of(fields@) == Some(t@),
            None => tokens_of(fields@) is None,
        },
{
    if fields.len() == 0 {
        return None;
    }
    proof {
        reveal_strlit("");
        assert(""@ =~= Seq::<char>::empty());
    }
    let types = types_of(fields);
    let accessors = accessors_of(fields);
    let tuple = wrap_each(&types, "", ",");
    let ref_tuple = wrap_each(&types, "& 'tpl", ",");
    let into = wrap_each(&accessors, "self .", ",");
    let ref_into = wrap_each(&accessors, "& self .", ",");
    Some(
        TupleTokens {
            tuple: parenthesized(tuple.as_str()),
            ref_tuple: parenthesized(ref_tuple.as_str()),
            build: build_of(fields),
            into: parenthesized(into.as_str()),
            ref_into: parenthesized(ref_into.as_str()),
        },
    )
}

/// `impl Tuplike` for the type.
pub open spec fn marker_impl(s: SubjectView) -> Seq<char> {
    join(
        seq![
            "impl"@,
            s.for_impl,
            "Tuplike for"@,
            s.name,
            s.for_type,
            s.where_clause,
            brace(Seq::empty()),
        ],
    )
}

/// `impl From` the tuple for the type: the tuple is bound by `argument` and
/// the value is built by `constructor` from the bindings.
pub open spec fn from_tuple(
    s: SubjectView,
    t: TupleTokensView,
    argument: Seq<char>,
    constructor: Seq<char>,
) -> Seq<char> {
    join(
        seq![
            "impl"@,
            s.for_impl,
            "From <"@,
            t.tuple,
            "> for"@,
            s.name,
            s.for_type,
            s.where_clause,
            brace(
                join(
                    seq![
                        "fn from"@,
                        paren(join(seq![argument, ":"@, t.tuple])),
                        "-> Self"@,
                        brace(join(seq![constructor, t.build])),
                    ],
                ),
            ),
        ],
    )
}

/// `impl Into` the tuple for the type.
pub open spec fn into_tuple(s: SubjectView, t: TupleTokensView) -> Seq<char> {
    join(
        seq![
            "impl"@,
            s.for_impl,
            "Into <"@,
            t.tuple,
            "> for"@,
            s.name,
            s.for_type,
            s.where_clause,
            brace(join(seq!["fn into (self) ->"@, t.tuple, brace(t.into)])),
        ],
    )
}

/// `impl Into` the tuple of references for a reference to the type.
pub open spec fn into_ref_tuple(s: SubjectView, t: TupleTokensView) -> Seq<char> {
    join(
        seq![
            "impl"@,
            s.for_ref_impl,
            "Into <"@,
            t.ref_tuple,
            "> for & 'tpl"@,
            s.name,
            s.for_type,
            s.where_clause,
            brace(join(seq!["fn into (self) ->"@, t.ref_tuple, brace(t.ref_into)])),
        ],
    )
}

/// The conversion from the tuple of a variant's fields into the variant;
/// nothing for a variant without fields.
pub open spec fn variant_from(s: SubjectView, v: VariantView) -> Seq<char> {
    match tokens_of(v.fields) {
        None => Seq::empty(),
        Some(t) => from_tuple(s, t, tuple_argument(v.fields), join(seq!["Self ::"@, v.ident])),
    }
}

/// The impls for a type whose generics are split already.
///
/// A struct gets the marker impl and the three conversions; one without
/// fields is refused. An enum gets the marker impl and one conversion for
/// each variant that has fields. A union is refused.
pub open spec fn tuple_impls(s: SubjectView, data: DataView) -> Result<Seq<char>, ErrorView> {
    match data {
        DataView::Struct(fields) => match tokens_of(fields) {
            None => Err(ErrorView::NoFields),
            Some(t) => Ok(
                join(
                    seq![
                        marker_impl(s),
                        from_tuple(s, t, tuple_argument(fields), "Self"@),
                        into_tuple(s, t),
                        into_ref_tuple(s, t),
                    ],
                ),
            ),
        },
        DataView::Enum(variants) => Ok(
            join(
                seq![
                    marker_impl(s),
                    join(variants.map_values(|v: VariantView| variant_from(s, v))),
                ],
            ),
        ),
        DataView::Union => Err(ErrorView::Union),
    }
}

/// What deriving `Tuplike` gives for a declaration: its impls, once the
/// generics are split, with `'tpl` as the lifetime of the borrowed tuple.
pub open spec fn tuplike_expansion(ast: DeriveInputView) -> Result<Seq<char>, ErrorView> {
    match subject_of(ast, "'tpl"@) {
        Err(e) => Err(e),
        Ok(s) => tuple_impls(s, ast.data),
    }
}

fn write_marker_impl(s: &Subject) -> (r: String)
    ensures
        r@ == marker_impl(s@),
{
    let body = braced("");
    assert(body@ == brace(Seq::empty())) by {
        reveal_strlit("");
        assert(""@ =~= Seq::<char>::empty());
    }
    let mut r = String::new();
    push_word(&mut r, "impl");
    push_word(&mut r, s.for_impl.as_str());
    push_word(&mut r, "Tuplike for");
    push_word(&mut r, s.name.as_str());
    push_word(&mut r, s.for_type.as_str());
    push_word(&mut r, s.where_clause.as_str());
    push_word(&mut r, body.as_str());
    proof {
        reveal_with_fuel(join_first, 8);
    }
    r
}

fn write_from_tuple(s: &Subject, t: &TupleTokens, argument: &str, constructor: &str) -> (r: String)
    ensures
        r@ == from_tuple(s@, t@, argument@, constructor@),
{
    let mut parameter = String::new();
    push_word(&mut parameter, argument);
    push_word(&mut parameter, ":");
    push_word(&mut parameter, t.tuple.as_str());
    let parameters = parenthesized(parameter.as_str());
    let mut value = String::new();
    push_word(&mut value, constructor);
    push_word(&mut value, t.build.as_str());
    let block = braced(value.as_str());
    let mut method = String::new();
    push_word(&mut method, "fn from");
    push_word(&mut method, parameters.as_str());
    push_word(&mut method, "-> Self");
    push_word(&mut method, block.as_str());
    let methods = braced(method.as_str());
    let mut r = String::new();
    push_word(&mut r, "impl");
    push_word(&mut r, s.for_impl.as_str());
    push_word(&mut r, "From <");
    push_word(&mut r, t.tuple.as_str());
    push_word(&mut r, "> for");
    push_word(&mut r, s.name.as_str());
    push_word(&mut r, s.for_type.as_str());
    push_word(&mut r, s.where_clause.as_str());
    push_word(&mut r, methods.as_str());
    proof {
        reveal_with_fuel(join_first, 10);
    }
    r
}

fn write_into(s: &Subject, generics: &str, tuple: &str, receiver: &str, value: &str) -> (r: String)
    ensures
        r@ == join(
            seq![
                "impl"@,
                generics@,
                "Into <"@,
                tuple@,
                receiver@,
                s@.name,
                s@.for_type,
                s@.where_clause,
                brace(join(seq!["fn into (self) ->"@, tuple@, brace(value@)])),
            ],
        ),
{
    let block = braced(value);
    let mut method = String::new();
    push_word(&mut method, "fn into (self) ->");
    push_word(&mut method, tuple);
    push_word(&mut method, block.as_str());
    let methods = braced(method.as_str());
    let mut r = String::new();
    push_word(&mut r, "impl");
    push_word(&mut r, generics);
    push_word(&mut r, "Into <");
    push_word(&mut r, tuple);
    push_word(&mut r, receiver);
    push_word(&mut r, s.name.as_str());
    push_word(&mut r, s.for_type.as_str());
    push_word(&mut r, s.where_clause.as_str());
    push_word(&mut r, methods.as_str());
    proof {
        reveal_with_fuel(join_first, 10);
    }
    r
}

fn write_variant_from(s: &Subject, v: &Variant) -> (r: String)
    ensures
        r@ == variant_from(s@, v@),
{
    match get_tokens(&v.fields) {
        None => String::new(),
        Some(t) => {
            let argument = expanded_tuple_argument(&v.fields);
            let mut constructor = String::new();
            push_word(&mut constructor, "Self ::");
            push_word(&mut constructor, v.ident.as_str());
            proof {
                reveal_with_fuel(join_first, 3);
            }
            write_from_tuple(s, &t, argument.as_str(), constructor.as_str())
        },
    }
}

fn write_struct(s: &Subject, fields: &Fields, t: &TupleTokens) -> (r: String)
    ensures
        r@ == join(
            seq![
                marker_impl(s@),
                from_tuple(s@, t@, tuple_argument(fields@), "Self"@),
                into_tuple(s@, t@),
                into_ref_tuple(s@, t@),
            ],
        ),
{
    let argument = expanded_tuple_argument(fields);
    let marker = write_marker_impl(s);
    let from = write_from_tuple(s, t, argument.as_str(), "Self");
    let into = write_into(s, s.for_impl.as_str(), t.tuple.as_str(), "> for", t.into.as_str());
    let ref_into = write_into(
        s,
        s.for_ref_impl.as_str(),
        t.ref_tuple.as_str(),
        "> for & 'tpl",
        t.ref_into.as_str(),
    );
    let mut r = String::new();
    push_word(&mut r, marker.as_str());
    push_word(&mut r, from.as_str());
    push_word(&mut r, into.as_str());
    push_word(&mut r, ref_into.as_str());
    proof {
        reveal_with_fuel(join_first, 5);
    }
    r
}

fn write_enum(s: &Subject, variants: &Vec<Variant>) -> (r: String)
    ensures
        r@ == join(
            seq![
                marker_impl(s@),
                join(
                    variants@.map_values(|v: Variant| v@).map_values(
                        |v: VariantView| variant_from(s@, v),
                    ),
                ),
            ],
        ),
{
    let mut impls: Vec<String> = Vec::new();
    let mut i: usize = 0;
    while i < variants.len()
        invariant
            i <= variants.len(),
            impls@.len() == i,
            forall|j: int|
                0 <= j < i ==> (#[trigger] impls@[j])@ == variant_from(s@, variants@[j]@),
        decreases variants.len() - i,
    {
        impls.push(write_variant_from(s, &variants[i]));
        i += 1;
    }
    assert(texts(impls@) =~= variants@.map_values(|v: Variant| v@).map_values(
        |v: VariantView| variant_from(s@, v),
    ));
    let all = join_all(&impls);
    let marker = write_marker_impl(s);
    let mut r = String::new();
    push_word(&mut r, marker.as_str());
    push_word(&mut r, all.as_str());
    proof {
        reveal_with_fuel(join_first, 3);
    }
    r
}

/// Writes the impls for the type `s` with the fields or variants of `data`.
pub fn write_tuple_impls(s: &Subject, data: &Data) -> (r: Result<String, Error>)
    ensures
        outcome(r) == tuple_impls(s@, data@),
{
    match data {
        Data::Struct(fields) => match get_tokens(fields) {
            Some(t) => Ok(write_struct(s, fields, &t)),
            None => Err(Error::NoFields),
        },
        Data::Enum(variants) => Ok(write_enum(s, variants)),
        Data::Union => Err(Error::Union),
    }
}

/// Expands `#[derive(Tuplike)]` on `ast`.
pub fn impl_tuplike_macro(ast: &DeriveInput) -> (r: Result<String, Error>)
    ensures
        outcome(r) == tuplike_expansion(ast@),
{
    match ast.subject("'tpl") {
        Ok(s) => write_tuple_impls(&s, &ast.data),
        Err(e) => Err(e),
    }
}

} // verus!
