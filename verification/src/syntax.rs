//! What is asked of the Rust parser: reading generic parameters, attribute
//! arguments, expressions and literals from their text.
//!
//! Nothing in this file is proved. Each function hands its argument to `syn`
//! and returns what came back as text; its contract gives that result a name.
//!
//! Tokens are read and printed by proc-macro2's own implementation, never by
//! the compiler's, whose printing differs: each function switches to it with
//! `proc_macro2::fallback::force` before anything else, and leaves it on. So
//! a result depends on the text that was handed in and on nothing else. A
//! procedural macro switches back with `proc_macro2::fallback::unforce`.

use vstd::prelude::*;
use quote::ToTokens;
use syn::ext::IdentExt;
use syn::parse::Parser;
use syn::punctuated::Punctuated;
use crate::text::texts;

verus! {

/// One item of a comma separated attribute argument list.
#[derive(Clone, Debug, PartialEq, Eq)]
pub enum Meta {
    /// A path alone, such as `Clone`. The identifier is `None` where the path
    /// has several segments.
    Path(Option<String>),
    /// A path and a delimited group, such as `into(1)`, with the group's
    /// content.
    List(Option<String>, String),
    /// A path, `=` and an expression, such as `prefix = "Ref"`, with the
    /// expression.
    NameValue(Option<String>, String),
}

pub enum MetaView {
    Path(Option<Seq<char>>),
    List(Option<Seq<char>>, Seq<char>),
    NameValue(Option<Seq<char>>, Seq<char>),
}

/// The view of an optional text.
pub open spec fn opt_text(s: Option<String>) -> Option<Seq<char>> {
    match s {
        Some(t) => Some(t@),
        None => None,
    }
}

impl View for Meta {
    type V = MetaView;

    open spec fn view(&self) -> MetaView {
        match self {
            Meta::Path(p) => MetaView::Path(opt_text(*p)),
            Meta::List(p, t) => MetaView::List(opt_text(*p), t@),
            Meta::NameValue(p, t) => MetaView::NameValue(opt_text(*p), t@),
        }
    }
}

impl MetaView {
    /// The identifier that the item starts with, if its path is one.
    pub open spec fn ident(self) -> Option<Seq<char>> {
        match self {
            MetaView::Path(p) => p,
            MetaView::List(p, _) => p,
            MetaView::NameValue(p, _) => p,
        }
    }
}

/// The implementation generics and the type generics that `syn` derives from
/// the generic parameter list `generics`, or the parser's message.
pub uninterp spec fn split_generics(generics: Seq<char>) -> Result<
    (Seq<char>, Seq<char>),
    Seq<char>,
>;

/// As `split_generics`, for the parameter list extended by the lifetime
/// `lifetime`.
pub uninterp spec fn split_generics_with(generics: Seq<char>, lifetime: Seq<char>) -> Result<
    (Seq<char>, Seq<char>),
    Seq<char>,
>;

/// The items of the attribute argument list `args`, or the parser's message.
pub uninterp spec fn meta_list(args: Seq<char>) -> Result<Seq<MetaView>, Seq<char>>;

/// The expression that `text` is, printed again, or the parser's message.
pub uninterp spec fn expr(text: Seq<char>) -> Result<Seq<char>, Seq<char>>;

/// The elements of the array expression that `text` is, or the parser's
/// message.
pub uninterp spec fn expr_array(text: Seq<char>) -> Result<Seq<Seq<char>>, Seq<char>>;

/// The value of the string literal that `text` is, or the parser's message.
pub uninterp spec fn lit_str(text: Seq<char>) -> Result<Seq<char>, Seq<char>>;

/// The identifier or keyword that `text` is, or the parser's message.
pub uninterp spec fn ident(text: Seq<char>) -> Result<Seq<char>, Seq<char>>;

/// The string literal, with its quotes and escapes, that stands for `text`.
pub uninterp spec fn string_literal(text: Seq<char>) -> Seq<char>;

/// The view of a pair of texts or of a message.
pub open spec fn pair_outcome(r: Result<(String, String), String>) -> Result<
    (Seq<char>, Seq<char>),
    Seq<char>,
> {
    match r {
        Ok(p) => Ok((p.0@, p.1@)),
        Err(m) => Err(m@),
    }
}

/// The view of a text or of a message.
pub open spec fn text_outcome(r: Result<String, String>) -> Result<Seq<char>, Seq<char>> {
    match r {
        Ok(t) => Ok(t@),
        Err(m) => Err(m@),
    }
}

/// The view of a list of texts or of a message.
pub open spec fn texts_outcome(r: Result<Vec<String>, String>) -> Result<
    Seq<Seq<char>>,
    Seq<char>,
> {
    match r {
        Ok(v) => Ok(texts(v@)),
        Err(m) => Err(m@),
    }
}

/// The view of a list of items or of a message.
pub open spec fn metas_outcome(r: Result<Vec<Meta>, String>) -> Result<Seq<MetaView>, Seq<char>> {
    match r {
        Ok(v) => Ok(v@.map_values(|m: Meta| m@)),
        Err(m) => Err(m@),
    }
}

/// Parses `generics` with `syn::parse_str::<syn::Generics>`, calls
/// `syn::Generics::split_for_impl` on the parameter list and prints the
/// implementation generics and the type generics that it returns. Where the
/// text does not parse, the result is the message of the parser's error.
///
/// Nothing is claimed of the result but that it depends on the text alone.
#[verifier::external_body]
pub(crate) fn split_for_impl(generics: &str) -> (r: Result<(String, String), String>)
    ensures
        pair_outcome(r) == split_generics(generics@),
{
    proc_macro2::fallback::force();
    let g = syn::parse_str::<syn::Generics>(generics).map_err(|e| e.to_string())?;
    let (for_impl, for_type, _) = g.split_for_impl();
    Ok((for_impl.to_token_stream().to_string(), for_type.to_token_stream().to_string()))
}

/// As `split_for_impl`, but before the parameter list is split, `lifetime`
/// is parsed with `syn::parse_str::<syn::Lifetime>` and pushed to the list as
/// one more parameter, with `syn::punctuated::Punctuated::push`. Where one of
/// the texts does not parse, the result is the message of the parser's error.
#[verifier::external_body]
pub(crate) fn split_for_impl_with(generics: &str, lifetime: &str) -> (r: Result<
    (String, String),
    String,
>)
    ensures
        pair_outcome(r) == split_generics_with(generics@, lifetime@),
{
    proc_macro2::fallback::force();
    let mut g = syn::parse_str::<syn::Generics>(generics).map_err(|e| e.to_string())?;
    let lt = syn::parse_str::<syn::Lifetime>(lifetime).map_err(|e| e.to_string())?;
    g.params.push(syn::GenericParam::from(syn::LifetimeParam::new(lt)));
    let (for_impl, for_type, _) = g.split_for_impl();
    Ok((for_impl.to_token_stream().to_string(), for_type.to_token_stream().to_string()))
}

/// Parses `args` with `syn::punctuated::Punctuated::parse_terminated` as a
/// list of `syn::Meta` separated by commas. Each item is handed back in its
/// own form, with the identifier that `syn::Path::get_ident` finds in its
/// path and with the printed tokens of its group or of its value. Where the
/// text does not parse, the result is the message of the parser's error.
#[verifier::external_body]
pub(crate) fn parse_meta_list(args: &str) -> (r: Result<Vec<Meta>, String>)
    ensures
        metas_outcome(r) == meta_list(args@),
{
    proc_macro2::fallback::force();
    let name = |p: &syn::Path| p.get_ident().map(|i| i.to_string());
    let list = Punctuated::<syn::Meta, syn::token::Comma>::parse_terminated
        .parse_str(args)
        .map_err(|e| e.to_string())?;
    Ok(list.into_iter().map(|m| match m {
        syn::Meta::Path(p) => Meta::Path(name(&p)),
        syn::Meta::List(l) => Meta::List(name(&l.path), l.tokens.to_string()),
        syn::Meta::NameValue(n) => {
            Meta::NameValue(name(&n.path), n.value.to_token_stream().to_string())
        },
    }).collect())
}

/// Parses `text` with `syn::parse_str::<syn::Expr>` and prints the tokens of
/// the expression, or returns the message of the parser's error.
#[verifier::external_body]
pub(crate) fn parse_expr(text: &str) -> (r: Result<String, String>)
    ensures
        text_outcome(r) == expr(text@),
{
    proc_macro2::fallback::force();
    match syn::parse_str::<syn::Expr>(text) {
        Ok(e) => Ok(e.to_token_stream().to_string()),
        Err(e) => Err(e.to_string()),
    }
}

/// Parses `text` with `syn::parse_str::<syn::ExprArray>` and prints the
/// tokens of each element, or returns the message of the parser's error.
#[verifier::external_body]
pub(crate) fn parse_expr_array(text: &str) -> (r: Result<Vec<String>, String>)
    ensures
        texts_outcome(r) == expr_array(text@),
{
    proc_macro2::fallback::force();
    match syn::parse_str::<syn::ExprArray>(text) {
        Ok(a) => Ok(a.elems.iter().map(|e| e.to_token_stream().to_string()).collect()),
        Err(e) => Err(e.to_string()),
    }
}

/// Parses `text` with `syn::parse_str::<syn::LitStr>` and returns what
/// `syn::LitStr::value` gives, the string that the literal stands for, or
/// the message of the parser's error.
#[verifier::external_body]
pub(crate) fn parse_lit_str(text: &str) -> (r: Result<String, String>)
    ensures
        text_outcome(r) == lit_str(text@),
{
    proc_macro2::fallback::force();
    match syn::parse_str::<syn::LitStr>(text) {
        Ok(l) => Ok(l.value()),
        Err(e) => Err(e.to_string()),
    }
}

/// Parses `text` with `syn::ext::IdentExt::parse_any`, which takes a keyword
/// for an identifier too, and prints the identifier, or returns the message
/// of the parser's error.
#[verifier::external_body]
pub(crate) fn parse_ident(text: &str) -> (r: Result<String, String>)
    ensures
        text_outcome(r) == ident(text@),
{
    proc_macro2::fallback::force();
    match syn::Ident::parse_any.parse_str(text) {
        Ok(i) => Ok(i.to_string()),
        Err(e) => Err(e.to_string()),
    }
}

/// Calls `proc_macro2::Literal::string` on `text` and prints the literal:
/// the text between double quotes, with escapes where it needs them.
#[verifier::external_body]
pub(crate) fn quote_string(text: &str) -> (r: String)
    ensures
        r@ == string_literal(text@),
{
    proc_macro2::fallback::force();
    proc_macro2::Literal::string(text).to_string()
}

} // verus!
