//! A type declaration as plain data.
//!
//! Every fragment of user code (a type, a visibility, an attribute's
//! arguments) is held as the text of its tokens. Each exec type has a view in
//! which every text is a `Seq<char>`; contracts speak of the views.

use vstd::prelude::*;
use crate::error::{Error, ErrorView};
use crate::syntax::{split_for_impl, split_for_impl_with, split_generics, split_generics_with};
use crate::text::same_text;

verus! {

/// One attribute, such as `#[title("A")]`.
#[derive(Clone, Debug, PartialEq, Eq)]
pub struct Attribute {
    /// The attribute's path; a single identifier for the attributes read here.
    pub name: String,
    /// The tokens between the parentheses, where the attribute has the form
    /// `name(...)`; `None` for `name` alone and for `name = value`.
    pub args: Option<String>,
}

pub struct AttributeView {
    pub name: Seq<char>,
    pub args: Option<Seq<char>>,
}

impl View for Attribute {
    type V = AttributeView;

    open spec fn view(&self) -> AttributeView {
        AttributeView {
            name: self.name@,
            args: match self.args {
                Some(a) => Some(a@),
                None => None,
            },
        }
    }
}

/// The position of the first of the first `n` attributes that is named
/// `name`, if there is one.
pub open spec fn find_first(attrs: Seq<AttributeView>, name: Seq<char>, n: nat) -> Option<int>
    decreases n,
{
    if n == 0 {
        None
    } else {
        match find_first(attrs, name, (n - 1) as nat) {
            Some(i) => Some(i),
            None => if attrs[n - 1].name == name {
                Some(n - 1)
            } else {
                None
            },
        }
    }
}

/// The first attribute named `name`, if there is one.
pub open spec fn find_attribute(attrs: Seq<AttributeView>, name: Seq<char>) -> Option<
    AttributeView,
> {
    match find_first(attrs, name, attrs.len()) {
        Some(i) => Some(attrs[i]),
        None => None,
    }
}

/// The views of a list of attributes.
pub open spec fn attribute_views(attrs: Seq<Attribute>) -> Seq<AttributeView> {
    attrs.map_values(|a: Attribute| a@)
}

/// Finds the first attribute named `name`.
pub fn first_attribute<'a>(attrs: &'a Vec<Attribute>, name: &str) -> (r: Option<&'a Attribute>)
    ensures
        match r {
            Some(a) => find_attribute(attribute_views(attrs@), name@) == Some(a@),
            None => find_attribute(attribute_views(attrs@), name@) is None,
        },
{
    let mut i: usize = 0;
    while i < attrs.len()
        invariant
            i <= attrs.len(),
            find_first(attribute_views(attrs@), name@, i as nat) is None,
        decreases attrs.len() - i,
    {
        if same_text(attrs[i].name.as_str(), name) {
            proof {
                lemma_find_first_stays(
                    attribute_views(attrs@),
                    name@,
                    (i + 1) as nat,
                    attrs.len() as nat,
                );
            }
            return Some(&attrs[i]);
        }
        i += 1;
    }
    None
}

/// A match among the first `n` attributes is the match among the first `m`,
/// for every `m` from `n` on.
pub proof fn lemma_find_first_stays(attrs: Seq<AttributeView>, name: Seq<char>, n: nat, m: nat)
    requires
        n <= m,
        find_first(attrs, name, n) is Some,
    ensures
        find_first(attrs, name, m) == find_first(attrs, name, n),
    decreases m,
{
    if n < m {
        lemma_find_first_stays(attrs, name, n, (m - 1) as nat);
    }
}

/// What `find_first` gives is the position of an attribute named `name`
/// before which no attribute has that name; it gives nothing only where none
/// of the first `n` attributes has that name.
pub proof fn lemma_find_first_is_first(attrs: Seq<AttributeView>, name: Seq<char>, n: nat)
    requires
        n <= attrs.len(),
    ensures
        match find_first(attrs, name, n) {
            Some(i) => 0 <= i < n && attrs[i].name == name && forall|j: int|
                0 <= j < i ==> attrs[j].name != name,
            None => forall|j: int| 0 <= j < n ==> attrs[j].name != name,
        },
    decreases n,
{
    if n > 0 {
        lemma_find_first_is_first(attrs, name, (n - 1) as nat);
    }
}

/// A field of a braced struct or variant.
#[derive(Clone, Debug, PartialEq, Eq)]
pub struct NamedField {
    pub vis: String,
    pub ident: String,
    pub ty: String,
}

pub struct NamedFieldView {
    pub vis: Seq<char>,
    pub ident: Seq<char>,
    pub ty: Seq<char>,
}

impl View for NamedField {
    type V = NamedFieldView;

    open spec fn view(&self) -> NamedFieldView {
        NamedFieldView { vis: self.vis@, ident: self.ident@, ty: self.ty@ }
    }
}

/// A field of a tuple struct or tuple variant.
#[derive(Clone, Debug, PartialEq, Eq)]
pub struct UnnamedField {
    pub vis: String,
    pub ty: String,
}

pub struct UnnamedFieldView {
    pub vis: Seq<char>,
    pub ty: Seq<char>,
}

impl View for UnnamedField {
    type V = UnnamedFieldView;

    open spec fn view(&self) -> UnnamedFieldView {
        UnnamedFieldView { vis: self.vis@, ty: self.ty@ }
    }
}

/// The fields of a struct or of an enum variant.
#[derive(Clone, Debug, PartialEq, Eq)]
pub enum Fields {
    Named(Vec<NamedField>),
    Unnamed(Vec<UnnamedField>),
    Unit,
}

pub enum FieldsView {
    Named(Seq<NamedFieldView>),
    Unnamed(Seq<UnnamedFieldView>),
    Unit,
}

impl FieldsView {
    /// The number of fields.
    pub open spec fn len(self) -> nat {
        match self {
            FieldsView::Named(v) => v.len(),
            FieldsView::Unnamed(v) => v.len(),
            FieldsView::Unit => 0,
        }
    }
}

impl View for Fields {
    type V = FieldsView;

    open spec fn view(&self) -> FieldsView {
        match self {
            Fields::Named(v) => FieldsView::Named(v@.map_values(|f: NamedField| f@)),
            Fields::Unnamed(v) => FieldsView::Unnamed(v@.map_values(|f: UnnamedField| f@)),
            Fields::Unit => FieldsView::Unit,
        }
    }
}

impl Fields {
    /// The number of fields.
    pub fn len(&self) -> (n: usize)
        ensures
            n == self@.len(),
    {
        match self {
            Fields::Named(v) => v.len(),
            Fields::Unnamed(v) => v.len(),
            Fields::Unit => 0,
        }
    }
}

/// One variant of an enum.
#[derive(Clone, Debug, PartialEq, Eq)]
pub struct Variant {
    pub attrs: Vec<Attribute>,
    pub ident: String,
    pub fields: Fields,
}

pub struct VariantView {
    pub attrs: Seq<AttributeView>,
    pub ident: Seq<char>,
    pub fields: FieldsView,
}

impl View for Variant {
    type V = VariantView;

    open spec fn view(&self) -> VariantView {
        VariantView {
            attrs: attribute_views(self.attrs@),
            ident: self.ident@,
            fields: self.fields@,
        }
    }
}

/// What a declaration declares.
#[derive(Clone, Debug, PartialEq, Eq)]
pub enum Data {
    Struct(Fields),
    Enum(Vec<Variant>),
    Union,
}

pub enum DataView {
    Struct(FieldsView),
    Enum(Seq<VariantView>),
    Union,
}

impl View for Data {
    type V = DataView;

    open spec fn view(&self) -> DataView {
        match self {
            Data::Struct(f) => DataView::Struct(f@),
            Data::Enum(v) => DataView::Enum(v@.map_values(|x: Variant| x@)),
            Data::Union => DataView::Union,
        }
    }
}

/// A struct, enum or union declaration handed to a derive.
#[derive(Clone, Debug, PartialEq, Eq)]
pub struct DeriveInput {
    pub attrs: Vec<Attribute>,
    /// The visibility, empty where the declaration is private.
    pub vis: String,
    pub ident: String,
    /// The generic parameter list with its angle brackets, empty where the
    /// type has no parameter.
    pub generics: String,
    /// The `where` clause with its keyword, empty where there is none.
    pub where_clause: String,
    pub data: Data,
}

pub struct DeriveInputView {
    pub attrs: Seq<AttributeView>,
    pub vis: Seq<char>,
    pub ident: Seq<char>,
    pub generics: Seq<char>,
    pub where_clause: Seq<char>,
    pub data: DataView,
}

impl View for DeriveInput {
    type V = DeriveInputView;

    open spec fn view(&self) -> DeriveInputView {
        DeriveInputView {
            attrs: attribute_views(self.attrs@),
            vis: self.vis@,
            ident: self.ident@,
            generics: self.generics@,
            where_clause: self.where_clause@,
            data: self.data@,
        }
    }
}

/// The implementation generics and the type generics of a parameter list,
/// or the reason they cannot be had.
pub open spec fn generics_of(generics: Seq<char>) -> Result<(Seq<char>, Seq<char>), ErrorView> {
    match split_generics(generics) {
        Ok(p) => Ok(p),
        Err(m) => Err(ErrorView::Syntax(m)),
    }
}

/// As `generics_of`, for the parameter list with `lifetime` as one more
/// parameter.
pub open spec fn generics_with(generics: Seq<char>, lifetime: Seq<char>) -> Result<
    (Seq<char>, Seq<char>),
    ErrorView,
> {
    match split_generics_with(generics, lifetime) {
        Ok(p) => Ok(p),
        Err(m) => Err(ErrorView::Syntax(m)),
    }
}

/// The view of a pair of texts or of the reason they were refused.
pub open spec fn pair_view(r: Result<(String, String), Error>) -> Result<
    (Seq<char>, Seq<char>),
    ErrorView,
> {
    match r {
        Ok(p) => Ok((p.0@, p.1@)),
        Err(e) => Err(e@),
    }
}

impl DeriveInput {
    /// The generics to write after `impl` and after the type's name.
    pub fn split_for_impl(&self) -> (r: Result<(String, String), Error>)
        ensures
            pair_view(r) == generics_of(self@.generics),
    {
        match split_for_impl(self.generics.as_str()) {
            Ok(p) => Ok(p),
            Err(m) => Err(Error::Syntax(m)),
        }
    }

    /// The generics to write after `impl` and after the type's name, with
    /// `lifetime` as one more parameter.
    pub fn split_for_impl_with(&self, lifetime: &str) -> (r: Result<(String, String), Error>)
        ensures
            pair_view(r) == generics_with(self@.generics, lifetime@),
    {
        match split_for_impl_with(self.generics.as_str(), lifetime) {
            Ok(p) => Ok(p),
            Err(m) => Err(Error::Syntax(m)),
        }
    }
}

/// The name of a type with the generics its impls are written with.
#[derive(Clone, Debug, PartialEq, Eq)]
pub struct Subject {
    pub name: String,
    /// The generics after `impl`.
    pub for_impl: String,
    /// The generics after `impl` with one more lifetime among them.
    pub for_ref_impl: String,
    /// The generics after the name.
    pub for_type: String,
    pub where_clause: String,
}

pub struct SubjectView {
    pub name: Seq<char>,
    pub for_impl: Seq<char>,
    pub for_ref_impl: Seq<char>,
    pub for_type: Seq<char>,
    pub where_clause: Seq<char>,
}

impl View for Subject {
    type V = SubjectView;

    open spec fn view(&self) -> SubjectView {
        SubjectView {
            name: self.name@,
            for_impl: self.for_impl@,
            for_ref_impl: self.for_ref_impl@,
            for_type: self.for_type@,
            where_clause: self.where_clause@,
        }
    }
}

/// The name and generics that the impls of a declaration are written with,
/// `lifetime` being the lifetime of the impls for references.
pub open spec fn subject_of(ast: DeriveInputView, lifetime: Seq<char>) -> Result<
    SubjectView,
    ErrorView,
> {
    match generics_of(ast.generics) {
        Err(e) => Err(e),
        Ok(plain) => match generics_with(ast.generics, lifetime) {
            Err(e) => Err(e),
            Ok(with) => Ok(
                SubjectView {
                    name: ast.ident,
                    for_impl: plain.0,
                    for_ref_impl: with.0,
                    for_type: plain.1,
                    where_clause: ast.where_clause,
                },
            ),
        },
    }
}

/// The view of a subject or of the reason it was refused.
pub open spec fn subject_outcome(r: Result<Subject, Error>) -> Result<SubjectView, ErrorView> {
    match r {
        Ok(s) => Ok(s@),
        Err(e) => Err(e@),
    }
}

impl DeriveInput {
    /// Splits the generics for the impls of this declaration.
    pub fn subject(&self, lifetime: &str) -> (r: Result<Subject, Error>)
        ensures
            subject_outcome(r) == subject_of(self@, lifetime@),
    {
        let plain = match self.split_for_impl() {
            Ok(p) => p,
            Err(e) => {
                return Err(e);
            },
        };
        let with = match self.split_for_impl_with(lifetime) {
            Ok(p) => p,
            Err(e) => {
                return Err(e);
            },
        };
        Ok(
            Subject {
                name: self.ident.clone(),
                for_impl: plain.0,
                for_ref_impl: with.0,
                for_type: plain.1,
                where_clause: self.where_clause.clone(),
            },
        )
    }
}

} // verus!
