//! `Isomorphism`: an enum's titles, its list of values, and its conversions
//! to and from values of other types.

pub mod options;
pub mod variants;
pub mod write;

use vstd::prelude::*;
use crate::error::{Error, ErrorView, outcome};
use crate::isomorphism::options::{options_of, OptionsView};
use crate::isomorphism::variants::variant_infos;
use crate::isomorphism::write::{generated, into_value};
use crate::model::{Data, DataView, DeriveInput, DeriveInputView, subject_of, VariantView};

pub use options::{read_options, Options};
pub use variants::{read_variant, read_variants, VariantInfo, VariantInfoView};
pub use write::write_generated;

verus! {

/// An enum with a title for each value and a list of its values.
pub trait Isomorphism: Sized {
    /// The title of this value.
    fn title(&self) -> &str;

    /// The listed values of the type.
    fn list() -> Vec<Self>;
}

/// What deriving `Isomorphism` gives for a declaration.
///
/// The options of the top level attribute are read first. A target type
/// given in both forms is refused, then a declaration that is no enum. The
/// variants are read in order, and the first refusal among them is the
/// outcome. At last the generics are split, and the impls are written.
pub open spec fn isomorphism_expansion(ast: DeriveInputView) -> Result<Seq<char>, ErrorView> {
    match options_of(ast.attrs) {
        Err(e) => Err(e),
        Ok(o) => if o.ty is Some && o.ty_list.len() > 0 {
            Err(ErrorView::BothTypeForms)
        } else {
            match ast.data {
                DataView::Enum(variants) => match variant_infos(
                    o,
                    ast.ident,
                    variants,
                    variants.len(),
                ) {
                    Err(e) => Err(e),
                    Ok(infos) => match subject_of(ast, "'a"@) {
                        Err(e) => Err(e),
                        Ok(s) => Ok(generated(s, o, infos)),
                    },
                },
                _ => Err(ErrorView::NotEnum),
            }
        },
    }
}

/// Expands `#[derive(Isomorphism)]` on `ast`.
pub fn impl_isomorphism_macro(ast: &DeriveInput) -> (r: Result<String, Error>)
    ensures
        outcome(r) == isomorphism_expansion(ast@),
{
    let o = match read_options(&ast.attrs) {
        Ok(o) => o,
        Err(e) => {
            return Err(e);
        },
    };
    if o.ty.is_some() && o.ty_list.len() > 0 {
        return Err(Error::BothTypeForms);
    }
    let variants = match &ast.data {
        Data::Enum(variants) => variants,
        _ => {
            return Err(Error::NotEnum);
        },
    };
    let infos = match read_variants(&o, ast.ident.as_str(), variants) {
        Ok(infos) => infos,
        Err(e) => {
            return Err(e);
        },
    };
    let s = match ast.subject("'a") {
        Ok(s) => s,
        Err(e) => {
            return Err(e);
        },
    };
    Ok(write_generated(&s, &o, &infos))
}

/// Every variant that was read has a value for every target type, so that
/// no conversion into a target type lacks an arm: where the target is an
/// identifier a variant without a value takes the target's default, and
/// where targets are listed a variant gives one value for each.
pub proof fn lemma_every_variant_has_a_value(
    o: OptionsView,
    ty_name: Seq<char>,
    variants: Seq<VariantView>,
    n: nat,
)
    requires
        variant_infos(o, ty_name, variants, n) is Ok,
    ensures
        variant_infos(o, ty_name, variants, n)->Ok_0.len() == n,
        forall|j: int, k: int|
            0 <= j < n && 0 <= k < o.targets() ==> (#[trigger] into_value(
                o,
                variant_infos(o, ty_name, variants, n)->Ok_0[j],
                k,
            )) is Some,
    decreases n,
{
    if n > 0 {
        lemma_every_variant_has_a_value(o, ty_name, variants, (n - 1) as nat);
    }
}

} // verus!
