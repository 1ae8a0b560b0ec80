//! Patterns and default values for the variants of an enum.

use vstd::prelude::*;
use crate::model::{Fields, FieldsView, NamedFieldView, UnnamedFieldView, Variant, VariantView};
use crate::text::{
    brace, braced, comma_list, comma_separated, join, join_first, paren, parenthesized,
    push_word, texts,
};

verus! {

/// A named field set to its default value: `name : Default :: default ()`.
pub open spec fn named_default(field: NamedFieldView) -> Seq<char> {
    join(seq![field.ident, ":"@, "Default :: default ()"@])
}

/// The field list in which every field has its default value: braced and
/// named, parenthesized and positional, or nothing for a unit.
pub open spec fn fields_default(fields: FieldsView) -> Seq<char> {
    match fields {
        FieldsView::Named(v) => brace(
            comma_separated(v.map_values(|f: NamedFieldView| named_default(f))),
        ),
        FieldsView::Unnamed(v) => paren(
            comma_separated(v.map_values(|f: UnnamedFieldView| "Default :: default ()"@)),
        ),
        FieldsView::Unit => Seq::empty(),
    }
}

/// The pattern that matches every value of the variant: `Type :: Variant`
/// followed by `{ .. }`, by `(..)` or by nothing.
pub open spec fn variant_matching(ty_name: Seq<char>, variant: VariantView) -> Seq<char> {
    join(
        seq![
            ty_name,
            "::"@,
            variant.ident,
            match variant.fields {
                FieldsView::Named(_) => "{ .. }"@,
                FieldsView::Unnamed(_) => "(..)"@,
                FieldsView::Unit => Seq::empty(),
            },
        ],
    )
}

/// The variant's value in which every field has its default value.
pub open spec fn variant_default(ty_name: Seq<char>, variant: VariantView) -> Seq<char> {
    join(seq![ty_name, "::"@, variant.ident, fields_default(variant.fields)])
}

/// Writes the field list in which every field has its default value.
pub fn fields_default_format(fields: &Fields) -> (r: String)
    ensures
        r@ == fields_default(fields@),
{
    match fields {
        Fields::Named(v) => {
            let mut items: Vec<String> = Vec::new();
            let mut i: usize = 0;
            while i < v.len()
                invariant
                    i <= v.len(),
                    items@.len() == i,
                    forall|j: int| 0 <= j < i ==> (#[trigger] items@[j])@ == named_default(v@[j]@),
                decreases v.len() - i,
            {
                let mut item = String::new();
                push_word(&mut item, v[i].ident.as_str());
                push_word(&mut item, ":");
                push_word(&mut item, "Default :: default ()");
                proof {
                    reveal_with_fuel(join_first, 4);
                }
                items.push(item);
                i += 1;
            }
            assert(texts(items@) =~= fields@->Named_0.map_values(
                |f: NamedFieldView| named_default(f),
            ));
            let inner = comma_list(&items);
            braced(inner.as_str())
        },
        Fields::Unnamed(v) => {
            let mut items: Vec<String> = Vec::new();
            let mut i: usize = 0;
            while i < v.len()
                invariant
                    i <= v.len(),
                    items@.len() == i,
                    forall|j: int|
                        0 <= j < i ==> (#[trigger] items@[j])@ == "Default :: default ()"@,
                decreases v.len() - i,
            {
                items.push(String::from_str("Default :: default ()"));
                i += 1;
            }
            assert(texts(items@) =~= fields@->Unnamed_0.map_values(
                |f: UnnamedFieldView| "Default :: default ()"@,
            ));
            let inner = comma_list(&items);
            parenthesized(inner.as_str())
        },
        Fields::Unit => String::new(),
    }
}

/// Writes the pattern that matches every value of `variant`.
pub fn variant_matching_format(ty_name: &str, variant: &Variant) -> (r: String)
    ensures
        r@ == variant_matching(ty_name@, variant@),
{
    let mut r = String::new();
    push_word(&mut r, ty_name);
    push_word(&mut r, "::");
    push_word(&mut r, variant.ident.as_str());
    match &variant.fields {
        Fields::Named(_) => push_word(&mut r, "{ .. }"),
        Fields::Unnamed(_) => push_word(&mut r, "(..)"),
        Fields::Unit => {},
    }
    proof {
        reveal_with_fuel(join_first, 5);
    }
    r
}

/// Writes the value of `variant` in which every field has its default value.
pub fn variant_default_format(ty_name: &str, variant: &Variant) -> (r: String)
    ensures
        r@ == variant_default(ty_name@, variant@),
{
    let fields = fields_default_format(&variant.fields);
    let mut r = String::new();
    push_word(&mut r, ty_name);
    push_word(&mut r, "::");
    push_word(&mut r, variant.ident.as_str());
    push_word(&mut r, fields.as_str());
    proof {
        reveal_with_fuel(join_first, 5);
    }
    r
}

} // verus!
