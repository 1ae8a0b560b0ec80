//! `IntoWrap`: the conversion from the type of a single field into the struct
//! or enum variant that wraps it.

use vstd::prelude::*;
use crate::error::{Error, ErrorView, outcome};
use crate::model::{
    Data, DataView, DeriveInput, DeriveInputView, Fields, FieldsView, generics_of, Variant,
    VariantView,
};
use crate::text::{
    brace, braced, join, join_all, join_first, paren, parenthesized, push_word, texts,
};

verus! {

/// A type that wraps a single value and converts from it.
pub trait IntoWrap: Sized {

}

/// `impl From<ty>` for the declared type, with `value` as the wrapped value
/// and `constructor` as the expression that wraps it.
pub open spec fn wrap_impl(
    ast: DeriveInputView,
    generics: (Seq<char>, Seq<char>),
    ty: Seq<char>,
    constructor: Seq<char>,
) -> Seq<char> {
    join(
        seq![
            "impl"@,
            generics.0,
            "From <"@,
            ty,
            "> for"@,
            ast.ident,
            generics.1,
            ast.where_clause,
            brace(
                join(
                    seq![
                        "fn from"@,
                        paren(join(seq!["value :"@, ty])),
                        "-> Self"@,
                        brace(constructor),
                    ],
                ),
            ),
        ],
    )
}

/// The conversion into a struct of one field: `Self { name : value }` for a
/// named field and `Self (value)` for a positional one.
pub open spec fn struct_wrap(
    ast: DeriveInputView,
    generics: (Seq<char>, Seq<char>),
    fields: FieldsView,
) -> Seq<char> {
    match fields {
        FieldsView::Named(v) => wrap_impl(
            ast,
            generics,
            v[0].ty,
            join(seq!["Self"@, brace(join(seq![v[0].ident, ": value"@]))]),
        ),
        FieldsView::Unnamed(v) => wrap_impl(ast, generics, v[0].ty, "Self (value)"@),
        FieldsView::Unit => Seq::empty(),
    }
}

/// The conversion into a variant with one positional field; nothing for any
/// other variant.
pub open spec fn variant_wrap(
    ast: DeriveInputView,
    generics: (Seq<char>, Seq<char>),
    v: VariantView,
) -> Seq<char> {
    match v.fields {
        FieldsView::Unnamed(f) => if f.len() == 1 {
            wrap_impl(ast, generics, f[0].ty, join(seq!["Self ::"@, v.ident, "(value)"@]))
        } else {
            Seq::empty()
        },
        _ => Seq::empty(),
    }
}

/// The conversions for a declaration whose generics are split already.
///
/// A struct must have exactly one field and gets the conversion from that
/// field's type. An enum gets one conversion for each variant with exactly
/// one positional field. A union is refused.
pub open spec fn wraps(ast: DeriveInputView, generics: (Seq<char>, Seq<char>)) -> Result<
    Seq<char>,
    ErrorView,
> {
    match ast.data {
        DataView::Struct(fields) => if fields.len() == 1 {
            Ok(struct_wrap(ast, generics, fields))
        } else {
            Err(ErrorView::NotOneField)
        },
        DataView::Enum(variants) => Ok(
            join(variants.map_values(|v: VariantView| variant_wrap(ast, generics, v))),
        ),
        DataView::Union => Err(ErrorView::Union),
    }
}

/// What deriving `IntoWrap` gives for a declaration: its conversions, once
/// the generics are split.
pub open spec fn intowrap_expansion(ast: DeriveInputView) -> Result<Seq<char>, ErrorView> {
    match generics_of(ast.generics) {
        Err(e) => Err(e),
        Ok(generics) => wraps(ast, generics),
    }
}

fn write_wrap_impl(
    ast: &DeriveInput,
    generics: &(String, String),
    ty: &str,
    constructor: &str,
) -> (r: String)
    ensures
        r@ == wrap_impl(ast@, (generics.0@, generics.1@), ty@, constructor@),
{
    let mut parameter = String::new();
    push_word(&mut parameter, "value :");
    push_word(&mut parameter, ty);
    let parameters = parenthesized(parameter.as_str());
    let block = braced(constructor);
    let mut method = String::new();
    push_word(&mut method, "fn from");
    push_word(&mut method, parameters.as_str());
    push_word(&mut method, "-> Self");
    push_word(&mut method, block.as_str());
    let methods = braced(method.as_str());
    let mut r = String::new();
    push_word(&mut r, "impl");
    push_word(&mut r, generics.0.as_str());
    push_word(&mut r, "From <");
    push_word(&mut r, ty);
    push_word(&mut r, "> for");
    push_word(&mut r, ast.ident.as_str());
    push_word(&mut r, generics.1.as_str());
    push_word(&mut r, ast.where_clause.as_str());
    push_word(&mut r, methods.as_str());
    proof {
        reveal_with_fuel(join_first, 10);
    }
    r
}

fn write_struct_wrap(ast: &DeriveInput, generics: &(String, String), fields: &Fields) -> (r: String)
    requires
        fields@.len() == 1,
    ensures
        r@ == struct_wrap(ast@, (generics.0@, generics.1@), fields@),
{
    match fields {
        Fields::Named(v) => {
            let mut setter = String::new();
            push_word(&mut setter, v[0].ident.as_str());
            push_word(&mut setter, ": value");
            let block = braced(setter.as_str());
            let mut constructor = String::new();
            push_word(&mut constructor, "Self");
            push_word(&mut constructor, block.as_str());
            proof {
                reveal_with_fuel(join_first, 3);
            }
            write_wrap_impl(ast, generics, v[0].ty.as_str(), constructor.as_str())
        },
        Fields::Unnamed(v) => write_wrap_impl(ast, generics, v[0].ty.as_str(), "Self (value)"),
        Fields::Unit => String::new(),
    }
}

fn write_variant_wrap(ast: &DeriveInput, generics: &(String, String), v: &Variant) -> (r: String)
    ensures
        r@ == variant_wrap(ast@, (generics.0@, generics.1@), v@),
{
    match &v.fields {
        Fields::Unnamed(f) => {
            if f.len() == 1 {
                let mut constructor = String::new();
                push_word(&mut constructor, "Self ::");
                push_word(&mut constructor, v.ident.as_str());
                push_word(&mut constructor, "(value)");
                proof {
                    reveal_with_fuel(join_first, 4);
                }
                write_wrap_impl(ast, generics, f[0].ty.as_str(), constructor.as_str())
            } else {
                String::new()
            }
        },
        _ => String::new(),
    }
}

/// Writes the conversions for `ast`, with `generics` as the generics after
/// `impl` and after the type's name.
pub fn write_wraps(ast: &DeriveInput, generics: &(String, String)) -> (r: Result<String, Error>)
    ensures
        outcome(r) == wraps(ast@, (generics.0@, generics.1@)),
{
    match &ast.data {
        Data::Struct(fields) => {
            if fields.len() == 1 {
                Ok(write_struct_wrap(ast, generics, fields))
            } else {
                Err(Error::NotOneField)
            }
        },
        Data::Enum(variants) => {
            let mut impls: Vec<String> = Vec::new();
            let mut i: usize = 0;
            while i < variants.len()
                invariant
                    i <= variants.len(),
                    impls@.len() == i,
                    forall|j: int|
                        0 <= j < i ==> (#[trigger] impls@[j])@ == variant_wrap(
                            ast@,
                            (generics.0@, generics.1@),
                            variants@[j]@,
                        ),
                decreases variants.len() - i,
            {
                impls.push(write_variant_wrap(ast, generics, &variants[i]));
                i += 1;
            }
            assert(texts(impls@) =~= ast@.data->Enum_0.map_values(
                |v: VariantView| variant_wrap(ast@, (generics.0@, generics.1@), v),
            ));
            Ok(join_all(&impls))
        },
        Data::Union => Err(Error::Union),
    }
}

/// Expands `#[derive(IntoWrap)]` on `ast`.
pub fn impl_intowrap_macro(ast: &DeriveInput) -> (r: Result<String, Error>)
    ensures
        outcome(r) == intowrap_expansion(ast@),
{
    match ast.split_for_impl() {
        Ok(generics) => write_wraps(ast, &generics),
        Err(e) => Err(e),
    }
}

} // verus!
