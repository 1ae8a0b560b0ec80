//! What the attributes of each variant give: its values and its title.

use vstd::prelude::*;
use crate::error::{Error, ErrorView, outcome};
use crate::format::{
    variant_default, variant_default_format, variant_matching, variant_matching_format,
};
use crate::isomorphism::options::{Options, OptionsView};
use crate::model::{attribute_views, Attribute, AttributeView, Variant, VariantView};
use crate::syntax::{expr, expr_array, parse_expr, parse_expr_array, quote_string, string_literal};
use crate::text::{same_text, texts};

verus! {

/// What the attributes of one variant give: the values it converts to, in
/// the order written, and its title.
#[derive(Clone, Debug, PartialEq, Eq)]
pub struct Marks {
    pub values: Vec<String>,
    pub title: Option<String>,
}

pub struct MarksView {
    pub values: Seq<Seq<char>>,
    pub title: Option<Seq<char>>,
}

impl View for Marks {
    type V = MarksView;

    open spec fn view(&self) -> MarksView {
        MarksView {
            values: texts(self.values@),
            title: match self.title {
                Some(t) => Some(t@),
                None => None,
            },
        }
    }
}

/// The expression in the parentheses of an attribute.
pub open spec fn expr_argument(a: AttributeView) -> Result<Seq<char>, ErrorView> {
    match a.args {
        None => Err(ErrorView::MissingArguments(a.name)),
        Some(args) => match expr(args) {
            Ok(e) => Ok(e),
            Err(msg) => Err(ErrorView::Syntax(msg)),
        },
    }
}

/// The elements of the array expression in the parentheses of an attribute.
pub open spec fn array_argument(a: AttributeView) -> Result<Seq<Seq<char>>, ErrorView> {
    match a.args {
        None => Err(ErrorView::MissingArguments(a.name)),
        Some(args) => match expr_array(args) {
            Ok(elems) => Ok(elems),
            Err(msg) => Err(ErrorView::Syntax(msg)),
        },
    }
}

/// The marks after one more attribute of a variant.
///
/// `into(..)` adds one value where the target type is an identifier, and the
/// elements of an array where target types are listed; without a target type
/// it is passed over. `title(..)` sets the title. Other attributes are passed
/// over.
pub open spec fn apply_attr(o: OptionsView, m: MarksView, a: AttributeView) -> Result<
    MarksView,
    ErrorView,
> {
    if a.name == "into"@ {
        if o.ty is Some {
            match expr_argument(a) {
                Ok(e) => Ok(MarksView { values: m.values.push(e), ..m }),
                Err(e) => Err(e),
            }
        } else if o.ty_list.len() > 0 {
            match array_argument(a) {
                Ok(elems) => Ok(MarksView { values: m.values + elems, ..m }),
                Err(e) => Err(e),
            }
        } else {
            Ok(m)
        }
    } else if a.name == "title"@ {
        match expr_argument(a) {
            Ok(e) => Ok(MarksView { title: Some(e), ..m }),
            Err(e) => Err(e),
        }
    } else {
        Ok(m)
    }
}

/// The marks after the first `n` attributes of a variant, or the first
/// refusal.
pub open spec fn apply_attrs(o: OptionsView, attrs: Seq<AttributeView>, n: nat) -> Result<
    MarksView,
    ErrorView,
>
    decreases n,
{
    if n == 0 {
        Ok(MarksView { values: Seq::empty(), title: None })
    } else {
        match apply_attrs(o, attrs, (n - 1) as nat) {
            Ok(m) => apply_attr(o, m, attrs[n - 1]),
            Err(e) => Err(e),
        }
    }
}

/// What is written for one variant.
#[derive(Clone, Debug, PartialEq, Eq)]
pub struct VariantInfo {
    /// The pattern that matches the variant.
    pub pattern: String,
    /// The variant with every field at its default value.
    pub default: String,
    /// The values the variant converts to.
    pub values: Vec<String>,
    /// The expression of the variant's title.
    pub title: String,
}

pub struct VariantInfoView {
    pub pattern: Seq<char>,
    pub default: Seq<char>,
    pub values: Seq<Seq<char>>,
    pub title: Seq<char>,
}

impl View for VariantInfo {
    type V = VariantInfoView;

    open spec fn view(&self) -> VariantInfoView {
        VariantInfoView {
            pattern: self.pattern@,
            default: self.default@,
            values: texts(self.values@),
            title: self.title@,
        }
    }
}

/// What is written for `v`, a variant of the enum `ty_name`.
///
/// Where target types are listed, the variant must give one value for each.
/// A variant without a title is titled by its name.
pub open spec fn variant_info(o: OptionsView, ty_name: Seq<char>, v: VariantView) -> Result<
    VariantInfoView,
    ErrorView,
> {
    match apply_attrs(o, v.attrs, v.attrs.len()) {
        Err(e) => Err(e),
        Ok(m) => if o.ty_list.len() > 0 && o.ty_list.len() != m.values.len() {
            Err(ErrorView::AbbreviatedValues)
        } else {
            Ok(
                VariantInfoView {
                    pattern: variant_matching(ty_name, v),
                    default: variant_default(ty_name, v),
                    values: m.values,
                    title: match m.title {
                        Some(t) => t,
                        None => string_literal(v.ident),
                    },
                },
            )
        },
    }
}

/// What is written for the first `n` variants, or the first refusal.
pub open spec fn variant_infos(
    o: OptionsView,
    ty_name: Seq<char>,
    variants: Seq<VariantView>,
    n: nat,
) -> Result<Seq<VariantInfoView>, ErrorView>
    decreases n,
{
    if n == 0 {
        Ok(Seq::empty())
    } else {
        match variant_infos(o, ty_name, variants, (n - 1) as nat) {
            Err(e) => Err(e),
            Ok(infos) => match variant_info(o, ty_name, variants[n - 1]) {
                Ok(info) => Ok(infos.push(info)),
                Err(e) => Err(e),
            },
        }
    }
}

/// The view of a text or of the reason it was refused.
pub open spec fn text_view(r: Result<String, Error>) -> Result<Seq<char>, ErrorView> {
    match r {
        Ok(t) => Ok(t@),
        Err(e) => Err(e@),
    }
}

/// The view of a list of texts or of the reason it was refused.
pub open spec fn texts_view(r: Result<Vec<String>, Error>) -> Result<Seq<Seq<char>>, ErrorView> {
    match r {
        Ok(t) => Ok(texts(t@)),
        Err(e) => Err(e@),
    }
}

/// Reads the expression in the parentheses of `a`.
fn read_expr_argument(a: &Attribute) -> (r: Result<String, Error>)
    ensures
        text_view(r) == expr_argument(a@),
{
    match &a.args {
        None => Err(Error::MissingArguments(a.name.clone())),
        Some(args) => match parse_expr(args.as_str()) {
            Ok(e) => Ok(e),
            Err(msg) => Err(Error::Syntax(msg)),
        },
    }
}

/// Reads the elements of the array expression in the parentheses of `a`.
fn read_array_argument(a: &Attribute) -> (r: Result<Vec<String>, Error>)
    ensures
        texts_view(r) == array_argument(a@),
{
    match &a.args {
        None => Err(Error::MissingArguments(a.name.clone())),
        Some(args) => match parse_expr_array(args.as_str()) {
            Ok(e) => Ok(e),
            Err(msg) => Err(Error::Syntax(msg)),
        },
    }
}

/// The view of marks or of the reason they were refused.
pub open spec fn marks_outcome(r: Result<Marks, Error>) -> Result<MarksView, ErrorView> {
    match r {
        Ok(m) => Ok(m@),
        Err(e) => Err(e@),
    }
}

/// Applies one attribute of a variant to `m`.
pub fn apply_attribute(o: &Options, m: Marks, a: &Attribute) -> (r: Result<Marks, Error>)
    ensures
        marks_outcome(r) == apply_attr(o@, m@, a@),
{
    if same_text(a.name.as_str(), "into") {
        if o.ty.is_some() {
            match read_expr_argument(a) {
                Ok(e) => {
                    let mut values = m.values;
                    let ghost before = values@;
                    values.push(e);
                    assert(texts(values@) =~= texts(before).push(e@));
                    Ok(Marks { values, title: m.title })
                },
                Err(e) => Err(e),
            }
        } else if o.ty_list.len() > 0 {
            match read_array_argument(a) {
                Ok(elems) => {
                    let mut elems = elems;
                    let mut values = m.values;
                    let ghost before = values@;
                    let ghost added = elems@;
                    values.append(&mut elems);
                    assert(texts(values@) =~= texts(before) + texts(added));
                    Ok(Marks { values, title: m.title })
                },
                Err(e) => Err(e),
            }
        } else {
            Ok(m)
        }
    } else if same_text(a.name.as_str(), "title") {
        match read_expr_argument(a) {
            Ok(e) => Ok(Marks { values: m.values, title: Some(e) }),
            Err(e) => Err(e),
        }
    } else {
        Ok(m)
    }
}

/// A refusal among the first `n` attributes is the outcome for every longer
/// prefix.
pub proof fn lemma_attr_refusal_stays(o: OptionsView, attrs: Seq<AttributeView>, n: nat, m: nat)
    requires
        n <= m,
        apply_attrs(o, attrs, n) is Err,
    ensures
        apply_attrs(o, attrs, m) == apply_attrs(o, attrs, n),
    decreases m,
{
    if n < m {
        lemma_attr_refusal_stays(o, attrs, n, (m - 1) as nat);
    }
}

/// The view of a variant's information or of the reason it was refused.
pub open spec fn info_outcome(r: Result<VariantInfo, Error>) -> Result<VariantInfoView, ErrorView> {
    match r {
        Ok(i) => Ok(i@),
        Err(e) => Err(e@),
    }
}

/// Applies the attributes of a variant in order, up to the first that is
/// refused.
pub fn read_marks(o: &Options, attrs: &Vec<Attribute>) -> (r: Result<Marks, Error>)
    ensures
        marks_outcome(r) == apply_attrs(o@, attribute_views(attrs@), attrs@.len()),
{
    let mut m = Marks { values: Vec::new(), title: None };
    assert(texts(m.values@) =~= Seq::empty());
    let ghost views = attribute_views(attrs@);
    let mut i: usize = 0;
    while i < attrs.len()
        invariant
            i <= attrs.len(),
            views == attribute_views(attrs@),
            apply_attrs(o@, views, i as nat) == Ok::<_, ErrorView>(m@),
        decreases attrs.len() - i,
    {
        assert(views[i as int] == attrs@[i as int]@);
        match apply_attribute(o, m, &attrs[i]) {
            Ok(next) => {
                m = next;
            },
            Err(e) => {
                proof {
                    assert(apply_attrs(o@, views, (i + 1) as nat) == Err::<MarksView, _>(e@));
                    lemma_attr_refusal_stays(o@, views, (i + 1) as nat, attrs@.len());
                }
                return Err(e);
            },
        }
        i += 1;
    }
    Ok(m)
}

/// Reads what is written for `v`, a variant of the enum `ty_name`.
pub fn read_variant(o: &Options, ty_name: &str, v: &Variant) -> (r: Result<VariantInfo, Error>)
    ensures
        info_outcome(r) == variant_info(o@, ty_name@, v@),
{
    let m = match read_marks(o, &v.attrs) {
        Ok(m) => m,
        Err(e) => {
            return Err(e);
        },
    };
    if o.ty_list.len() > 0 && o.ty_list.len() != m.values.len() {
        return Err(Error::AbbreviatedValues);
    }
    let title = match m.title {
        Some(t) => t,
        None => quote_string(v.ident.as_str()),
    };
    Ok(
        VariantInfo {
            pattern: variant_matching_format(ty_name, v),
            default: variant_default_format(ty_name, v),
            values: m.values,
            title,
        },
    )
}

/// The views of a list of variants.
pub open spec fn variant_views(variants: Seq<Variant>) -> Seq<VariantView> {
    variants.map_values(|v: Variant| v@)
}

/// The views of a list of variant information.
pub open spec fn info_views(infos: Seq<VariantInfo>) -> Seq<VariantInfoView> {
    infos.map_values(|i: VariantInfo| i@)
}

/// A refusal among the first `n` variants is the outcome for every longer
/// prefix.
pub proof fn lemma_variant_refusal_stays(
    o: OptionsView,
    ty_name: Seq<char>,
    variants: Seq<VariantView>,
    n: nat,
    m: nat,
)
    requires
        n <= m,
        variant_infos(o, ty_name, variants, n) is Err,
    ensures
        variant_infos(o, ty_name, variants, m) == variant_infos(o, ty_name, variants, n),
    decreases m,
{
    if n < m {
        lemma_variant_refusal_stays(o, ty_name, variants, n, (m - 1) as nat);
    }
}

/// Reads what is written for each of `variants`, in order.
pub fn read_variants(o: &Options, ty_name: &str, variants: &Vec<Variant>) -> (r: Result<
    Vec<VariantInfo>,
    Error,
>)
    ensures
        match r {
            Ok(infos) => variant_infos(o@, ty_name@, variant_views(variants@), variants@.len())
                == Ok::<_, ErrorView>(info_views(infos@)),
            Err(e) => variant_infos(o@, ty_name@, variant_views(variants@), variants@.len())
                == Err::<Seq<VariantInfoView>, _>(e@),
        },
{
    let mut infos: Vec<VariantInfo> = Vec::new();
    let ghost views = variant_views(variants@);
    assert(info_views(infos@) =~= Seq::empty());
    let mut i: usize = 0;
    while i < variants.len()
        invariant
            i <= variants.len(),
            views == variant_views(variants@),
            variant_infos(o@, ty_name@, views, i as nat) == Ok::<_, ErrorView>(info_views(infos@)),
        decreases variants.len() - i,
    {
        assert(views[i as int] == variants@[i as int]@);
        match read_variant(o, ty_name, &variants[i]) {
            Ok(info) => {
                let ghost before = infos@;
                infos.push(info);
                assert(info_views(infos@) =~= info_views(before).push(info@));
            },
            Err(e) => {
                proof {
                    assert(variant_infos(o@, ty_name@, views, (i + 1) as nat) == Err::<
                        Seq<VariantInfoView>,
                        _,
                    >(e@));
                    lemma_variant_refusal_stays(
                        o@,
                        ty_name@,
                        views,
                        (i + 1) as nat,
                        variants@.len(),
                    );
                }
                return Err(e);
            },
        }
        i += 1;
    }
    Ok(infos)
}

} // verus!
