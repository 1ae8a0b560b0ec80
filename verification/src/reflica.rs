//! `Reflica`: a shadow type whose fields borrow the fields of the declared
//! type, and the conversion from a reference to the declared type into it.

use vstd::prelude::*;
use crate::error::{Error, ErrorView, outcome};
use crate::model::{
    Attribute, attribute_views, AttributeView, Data, DataView, DeriveInput, DeriveInputView,
    Fields, FieldsView, find_attribute, first_attribute, generics_of, generics_with,
    NamedFieldView, UnnamedFieldView, Variant, VariantView,
};
use crate::syntax::{
    ident, lit_str, Meta, meta_list, MetaView, parse_ident, parse_lit_str, parse_meta_list,
};
use crate::text::{
    brace, braced, bracket, bracketed, comma_list, comma_separated, join, join_all, join_first,
    paren, parenthesized, positional, positional_name, push_word, same_text, texts,
};

verus! {

/// A type that has a shadow type of borrowed fields.
pub trait Reflica: Sized {

}

/// What the `reflica` attribute asks for.
#[derive(Clone, Debug, PartialEq, Eq)]
pub struct Shadow {
    /// The traits to derive for the shadow type, in the order written.
    pub derives: Vec<String>,
    /// What to put before the type's name, where it is not `Ref`.
    pub prefix: Option<String>,
}

pub struct ShadowView {
    pub derives: Seq<Seq<char>>,
    pub prefix: Option<Seq<char>>,
}

impl View for Shadow {
    type V = ShadowView;

    open spec fn view(&self) -> ShadowView {
        ShadowView {
            derives: texts(self.derives@),
            prefix: match self.prefix {
                Some(p) => Some(p@),
                None => None,
            },
        }
    }
}

/// The shadow after one more argument of the `reflica` attribute.
///
/// `prefix = "..."` sets the prefix. Any other argument is a path alone; an
/// identifier is one more trait to derive, and a longer path is passed over.
pub open spec fn apply_meta(s: ShadowView, m: MetaView) -> Result<ShadowView, ErrorView> {
    if m.ident() == Some("prefix"@) {
        match m {
            MetaView::NameValue(_, value) => match lit_str(value) {
                Ok(p) => Ok(ShadowView { prefix: Some(p), ..s }),
                Err(msg) => Err(ErrorView::Syntax(msg)),
            },
            _ => Err(ErrorView::ExpectedValue),
        }
    } else {
        match m {
            MetaView::Path(Some(id)) => Ok(ShadowView { derives: s.derives.push(id), ..s }),
            MetaView::Path(None) => Ok(s),
            _ => Err(ErrorView::ExpectedComma),
        }
    }
}

/// The shadow after the first `n` arguments, or the first refusal.
pub open spec fn apply_metas(items: Seq<MetaView>, n: nat) -> Result<ShadowView, ErrorView>
    decreases n,
{
    if n == 0 {
        Ok(ShadowView { derives: Seq::empty(), prefix: None })
    } else {
        match apply_metas(items, (n - 1) as nat) {
            Ok(s) => apply_meta(s, items[n - 1]),
            Err(e) => Err(e),
        }
    }
}

/// What the first `reflica` attribute among `attrs` asks for; `None` where
/// there is no such attribute.
pub open spec fn shadow_of(attrs: Seq<AttributeView>) -> Result<Option<ShadowView>, ErrorView> {
    match find_attribute(attrs, "reflica"@) {
        None => Ok(None),
        Some(a) => match a.args {
            None => Err(ErrorView::MissingArguments(a.name)),
            Some(args) => match meta_list(args) {
                Ok(items) => match apply_metas(items, items.len()) {
                    Ok(s) => Ok(Some(s)),
                    Err(e) => Err(e),
                },
                Err(msg) => Err(ErrorView::Syntax(msg)),
            },
        },
    }
}

/// The view of a shadow or of the reason it was refused.
pub open spec fn shadow_outcome(r: Result<Shadow, Error>) -> Result<ShadowView, ErrorView> {
    match r {
        Ok(s) => Ok(s@),
        Err(e) => Err(e@),
    }
}

/// The view of an optional shadow or of the reason it was refused.
pub open spec fn shadow_option_outcome(r: Result<Option<Shadow>, Error>) -> Result<
    Option<ShadowView>,
    ErrorView,
> {
    match r {
        Ok(Some(s)) => Ok(Some(s@)),
        Ok(None) => Ok(None),
        Err(e) => Err(e@),
    }
}

/// Applies one argument of the `reflica` attribute to `s`.
pub fn apply_argument(s: Shadow, m: &Meta) -> (r: Result<Shadow, Error>)
    ensures
        shadow_outcome(r) == apply_meta(s@, m@),
{
    let is_prefix = match m {
        Meta::Path(Some(id)) => same_text(id.as_str(), "prefix"),
        Meta::List(Some(id), _) => same_text(id.as_str(), "prefix"),
        Meta::NameValue(Some(id), _) => same_text(id.as_str(), "prefix"),
        _ => false,
    };
    if is_prefix {
        match m {
            Meta::NameValue(_, value) => match parse_lit_str(value.as_str()) {
                Ok(p) => Ok(Shadow { derives: s.derives, prefix: Some(p) }),
                Err(msg) => Err(Error::Syntax(msg)),
            },
            _ => Err(Error::ExpectedValue),
        }
    } else {
        match m {
            Meta::Path(Some(id)) => {
                let mut derives = s.derives;
                let ghost before = derives@;
                derives.push(id.clone());
                assert(texts(derives@) =~= texts(before).push(id@));
                Ok(Shadow { derives, prefix: s.prefix })
            },
            Meta::Path(None) => Ok(s),
            _ => Err(Error::ExpectedComma),
        }
    }
}

/// A refusal among the first `n` arguments is the outcome for every longer
/// prefix.
pub proof fn lemma_refusal_stays(items: Seq<MetaView>, n: nat, m: nat)
    requires
        n <= m,
        apply_metas(items, n) is Err,
    ensures
        apply_metas(items, m) == apply_metas(items, n),
    decreases m,
{
    if n < m {
        lemma_refusal_stays(items, n, (m - 1) as nat);
    }
}

/// The views of a list of arguments.
pub open spec fn meta_views(items: Seq<Meta>) -> Seq<MetaView> {
    items.map_values(|m: Meta| m@)
}

/// Applies the arguments of the `reflica` attribute in order, up to the
/// first that is refused.
pub fn apply_arguments(items: &Vec<Meta>) -> (r: Result<Shadow, Error>)
    ensures
        shadow_outcome(r) == apply_metas(meta_views(items@), items@.len()),
{
    let mut s = Shadow { derives: Vec::new(), prefix: None };
    assert(texts(s.derives@) =~= Seq::empty());
    let ghost views = meta_views(items@);
    let mut i: usize = 0;
    while i < items.len()
        invariant
            i <= items.len(),
            views == meta_views(items@),
            apply_metas(views, i as nat) == Ok::<_, ErrorView>(s@),
        decreases items.len() - i,
    {
        assert(views[i as int] == items@[i as int]@);
        match apply_argument(s, &items[i]) {
            Ok(next) => {
                s = next;
            },
            Err(e) => {
                proof {
                    assert(apply_metas(views, (i + 1) as nat) == Err::<ShadowView, _>(e@));
                    lemma_refusal_stays(views, (i + 1) as nat, items.len() as nat);
                }
                return Err(e);
            },
        }
        i += 1;
    }
    Ok(s)
}

/// Reads the `reflica` attribute, where there is one.
pub fn read_shadow(attrs: &Vec<Attribute>) -> (r: Result<Option<Shadow>, Error>)
    ensures
        shadow_option_outcome(r) == shadow_of(attribute_views(attrs@)),
{
    match first_attribute(attrs, "reflica") {
        None => Ok(None),
        Some(attr) => match &attr.args {
            None => Err(Error::MissingArguments(attr.name.clone())),
            Some(args) => match parse_meta_list(args.as_str()) {
                Err(msg) => Err(Error::Syntax(msg)),
                Ok(items) => match apply_arguments(&items) {
                    Ok(s) => Ok(Some(s)),
                    Err(e) => Err(e),
                },
            },
        },
    }
}

/// A named field that borrows: `vis name : & 'a ty`.
pub open spec fn named_ref(f: NamedFieldView) -> Seq<char> {
    join(seq![f.vis, f.ident, ":"@, "& 'a"@, f.ty])
}

/// A positional field that borrows: `vis & 'a ty`.
pub open spec fn unnamed_ref(f: UnnamedFieldView) -> Seq<char> {
    join(seq![f.vis, "& 'a"@, f.ty])
}

/// The field list of the shadow type: every field borrowed for `'a`.
pub open spec fn ref_fields(fields: FieldsView) -> Seq<char> {
    match fields {
        FieldsView::Named(v) => brace(
            comma_separated(v.map_values(|f: NamedFieldView| named_ref(f))),
        ),
        FieldsView::Unnamed(v) => paren(
            comma_separated(v.map_values(|f: UnnamedFieldView| unnamed_ref(f))),
        ),
        FieldsView::Unit => Seq::empty(),
    }
}

/// The bindings that take a value apart and build its shadow: the fields'
/// names, or `f0`, `f1` and so on by position.
pub open spec fn match_fields(fields: FieldsView) -> Seq<char> {
    match fields {
        FieldsView::Named(v) => brace(comma_separated(v.map_values(|f: NamedFieldView| f.ident))),
        FieldsView::Unnamed(v) => paren(
            comma_separated(Seq::new(v.len(), |i: int| positional(i as nat))),
        ),
        FieldsView::Unit => Seq::empty(),
    }
}

/// Whether the fields are named, the field list of the shadow type, and the
/// bindings that take a value apart.
pub fn get_ref_fields(fields: &Fields) -> (r: (bool, String, String))
    ensures
        r.0 == (fields@ is Named),
        r.1@ == ref_fields(fields@),
        r.2@ == match_fields(fields@),
{
    match fields {
        Fields::Named(v) => {
            let mut borrowed: Vec<String> = Vec::new();
            let mut names: Vec<String> = Vec::new();
            let mut i: usize = 0;
            while i < v.len()
                invariant
                    i <= v.len(),
                    borrowed@.len() == i,
                    names@.len() == i,
                    forall|j: int| 0 <= j < i ==> (#[trigger] borrowed@[j])@ == named_ref(v@[j]@),
                    forall|j: int| 0 <= j < i ==> (#[trigger] names@[j])@ == v@[j]@.ident,
                decreases v.len() - i,
            {
                let mut item = String::new();
                push_word(&mut item, v[i].vis.as_str());
                push_word(&mut item, v[i].ident.as_str());
                push_word(&mut item, ":");
                push_word(&mut item, "& 'a");
                push_word(&mut item, v[i].ty.as_str());
                proof {
                    reveal_with_fuel(join_first, 6);
                }
                borrowed.push(item);
                names.push(v[i].ident.clone());
                i += 1;
            }
            assert(texts(borrowed@) =~= fields@->Named_0.map_values(
                |f: NamedFieldView| named_ref(f),
            ));
            assert(texts(names@) =~= fields@->Named_0.map_values(|f: NamedFieldView| f.ident));
            let a = comma_list(&borrowed);
            let b = comma_list(&names);
            (true, braced(a.as_str()), braced(b.as_str()))
        },
        Fields::Unnamed(v) => {
            let mut borrowed: Vec<String> = Vec::new();
            let mut names: Vec<String> = Vec::new();
            let mut i: usize = 0;
            while i < v.len()
                invariant
                    i <= v.len(),
                    borrowed@.len() == i,
                    names@.len() == i,
                    forall|j: int| 0 <= j < i ==> (#[trigger] borrowed@[j])@ == unnamed_ref(v@[j]@),
                    forall|j: int| 0 <= j < i ==> (#[trigger] names@[j])@ == positional(j as nat),
                decreases v.len() - i,
            {
                let mut item = String::new();
                push_word(&mut item, v[i].vis.as_str());
                push_word(&mut item, "& 'a");
                push_word(&mut item, v[i].ty.as_str());
                proof {
                    reveal_with_fuel(join_first, 4);
                }
                borrowed.push(item);
                names.push(positional_name(i));
                i += 1;
            }
            assert(texts(borrowed@) =~= fields@->Unnamed_0.map_values(
                |f: UnnamedFieldView| unnamed_ref(f),
            ));
            assert(texts(names@) =~= Seq::new(
                fields@->Unnamed_0.len(),
                |i: int| positional(i as nat),
            ));
            let a = comma_list(&borrowed);
            let b = comma_list(&names);
            (false, parenthesized(a.as_str()), parenthesized(b.as_str()))
        },
        Fields::Unit => (false, String::new(), String::new()),
    }
}

/// The names and generics that the shadow type and its impls are written
/// with.
#[derive(Clone, Debug, PartialEq, Eq)]
pub struct Names {
    /// The `derive` attribute of the shadow type, or nothing.
    pub derive: String,
    pub vis: String,
    pub name: String,
    pub ref_name: String,
    /// The generics after `impl` and after the name.
    pub for_impl: String,
    pub for_type: String,
    /// The same with the lifetime `'a` among them.
    pub for_ref_impl: String,
    pub for_ref_type: String,
    pub where_clause: String,
}

pub struct NamesView {
    pub derive: Seq<char>,
    pub vis: Seq<char>,
    pub name: Seq<char>,
    pub ref_name: Seq<char>,
    pub for_impl: Seq<char>,
    pub for_type: Seq<char>,
    pub for_ref_impl: Seq<char>,
    pub for_ref_type: Seq<char>,
    pub where_clause: Seq<char>,
}

impl View for Names {
    type V = NamesView;

    open spec fn view(&self) -> NamesView {
        NamesView {
            derive: self.derive@,
            vis: self.vis@,
            name: self.name@,
            ref_name: self.ref_name@,
            for_impl: self.for_impl@,
            for_type: self.for_type@,
            for_ref_impl: self.for_ref_impl@,
            for_ref_type: self.for_ref_type@,
            where_clause: self.where_clause@,
        }
    }
}

/// The `derive` attribute of the shadow type: the traits that the `reflica`
/// attribute lists, or nothing without that attribute.
pub open spec fn derive_line(shadow: Option<ShadowView>) -> Seq<char> {
    match shadow {
        None => Seq::empty(),
        Some(s) => join(
            seq!["#"@, bracket(join(seq!["derive"@, paren(comma_separated(s.derives))]))],
        ),
    }
}

/// The shadow type's name before it is checked: the prefix, `Ref` where none
/// is given, and the name of the declared type.
pub open spec fn prefixed(shadow: Option<ShadowView>, name: Seq<char>) -> Seq<char> {
    match shadow {
        Some(ShadowView { prefix: Some(p), .. }) => p + name,
        _ => "Ref"@ + name,
    }
}

/// The names and generics for a declaration, or the first refusal: of the
/// attribute, of the shadow type's name, of the generics.
pub open spec fn names_of(ast: DeriveInputView) -> Result<NamesView, ErrorView> {
    match shadow_of(ast.attrs) {
        Err(e) => Err(e),
        Ok(shadow) => match ident(prefixed(shadow, ast.ident)) {
            Err(msg) => Err(ErrorView::Syntax(msg)),
            Ok(ref_name) => match generics_of(ast.generics) {
                Err(e) => Err(e),
                Ok(plain) => match generics_with(ast.generics, "'a"@) {
                    Err(e) => Err(e),
                    Ok(with) => Ok(
                        NamesView {
                            derive: derive_line(shadow),
                            vis: ast.vis,
                            name: ast.ident,
                            ref_name,
                            for_impl: plain.0,
                            for_type: plain.1,
                            for_ref_impl: with.0,
                            for_ref_type: with.1,
                            where_clause: ast.where_clause,
                        },
                    ),
                },
            },
        },
    }
}

/// `impl Reflica` for the declared type.
pub open spec fn marker_impl(n: NamesView) -> Seq<char> {
    join(
        seq![
            "impl"@,
            n.for_impl,
            "Reflica for"@,
            n.name,
            n.for_type,
            n.where_clause,
            brace(Seq::empty()),
        ],
    )
}

/// `impl Into` the shadow type for a reference to the declared type, with `body`
/// as the body of `into`.
pub open spec fn into_impl(n: NamesView, body: Seq<char>) -> Seq<char> {
    join(
        seq![
            "impl"@,
            n.for_ref_impl,
            "Into <"@,
            n.ref_name,
            n.for_ref_type,
            "> for & 'a"@,
            n.name,
            n.for_type,
            n.where_clause,
            brace(join(seq!["fn into (self) ->"@, n.ref_name, n.for_ref_type, brace(body)])),
        ],
    )
}

/// The declaration of the shadow struct; one with positional or no fields
/// ends in a semicolon.
pub open spec fn struct_shadow(n: NamesView, fields: FieldsView) -> Seq<char> {
    join(
        seq![
            n.derive,
            n.vis,
            "struct"@,
            n.ref_name,
            n.for_ref_impl,
            n.where_clause,
            ref_fields(fields),
            if fields is Named {
                Seq::empty()
            } else {
                ";"@
            },
        ],
    )
}

/// The body of `into` for a struct: take the value apart, build the
/// shadow from the same bindings.
pub open spec fn struct_body(n: NamesView, fields: FieldsView) -> Seq<char> {
    join(
        seq![
            "let"@,
            n.name,
            match_fields(fields),
            "= self ;"@,
            n.ref_name,
            match_fields(fields),
        ],
    )
}

/// One variant of the shadow enum.
pub open spec fn ref_variant(v: VariantView) -> Seq<char> {
    join(seq![v.ident, ref_fields(v.fields), ","@])
}

/// The match arm from a variant of the declared type to the same variant of the
/// shadow.
pub open spec fn variant_arm(n: NamesView, v: VariantView) -> Seq<char> {
    join(
        seq![
            n.name,
            "::"@,
            v.ident,
            match_fields(v.fields),
            "=>"@,
            n.ref_name,
            "::"@,
            v.ident,
            match_fields(v.fields),
            ","@,
        ],
    )
}

/// The declaration of the shadow enum.
pub open spec fn enum_shadow(n: NamesView, variants: Seq<VariantView>) -> Seq<char> {
    join(
        seq![
            n.derive,
            n.vis,
            "enum"@,
            n.ref_name,
            n.for_ref_impl,
            n.where_clause,
            brace(join(variants.map_values(|v: VariantView| ref_variant(v)))),
        ],
    )
}

/// The body of `into` for an enum: one arm for each variant.
pub open spec fn enum_body(n: NamesView, variants: Seq<VariantView>) -> Seq<char> {
    join(seq!["match self"@, brace(join(variants.map_values(|v: VariantView| variant_arm(n, v))))])
}

/// The marker impl, the shadow type and the conversion into it, for a type
/// whose names and generics are settled. A union is refused.
pub open spec fn shadow_impls(n: NamesView, data: DataView) -> Result<Seq<char>, ErrorView> {
    match data {
        DataView::Struct(fields) => Ok(
            join(
                seq![
                    marker_impl(n),
                    struct_shadow(n, fields),
                    into_impl(n, struct_body(n, fields)),
                ],
            ),
        ),
        DataView::Enum(variants) => Ok(
            join(
                seq![
                    marker_impl(n),
                    enum_shadow(n, variants),
                    into_impl(n, enum_body(n, variants)),
                ],
            ),
        ),
        DataView::Union => Err(ErrorView::Union),
    }
}

/// What deriving `Reflica` gives for a declaration: the refusals of
/// `names_of` first, then the impls for those names.
pub open spec fn reflica_expansion(ast: DeriveInputView) -> Result<Seq<char>, ErrorView> {
    match names_of(ast) {
        Err(e) => Err(e),
        Ok(n) => shadow_impls(n, ast.data),
    }
}

fn write_derive_line(shadow: &Option<Shadow>) -> (r: String)
    ensures
        r@ == derive_line(
            match *shadow {
                Some(s) => Some(s@),
                None => None,
            },
        ),
{
    match shadow {
        None => String::new(),
        Some(s) => {
            let traits = comma_list(&s.derives);
            let list = parenthesized(traits.as_str());
            let mut inner = String::new();
            push_word(&mut inner, "derive");
            push_word(&mut inner, list.as_str());
            let attribute = bracketed(inner.as_str());
            let mut r = String::new();
            push_word(&mut r, "#");
            push_word(&mut r, attribute.as_str());
            proof {
                reveal_with_fuel(join_first, 3);
            }
            r
        },
    }
}

/// The view of names or of the reason they were refused.
pub open spec fn names_outcome(r: Result<Names, Error>) -> Result<NamesView, ErrorView> {
    match r {
        Ok(n) => Ok(n@),
        Err(e) => Err(e@),
    }
}

/// Reads the attribute, names the shadow type and splits the generics.
pub fn read_names(ast: &DeriveInput) -> (r: Result<Names, Error>)
    ensures
        names_outcome(r) == names_of(ast@),
{
    let shadow = match read_shadow(&ast.attrs) {
        Ok(s) => s,
        Err(e) => {
            return Err(e);
        },
    };
    let mut candidate = match &shadow {
        Some(Shadow { prefix: Some(p), .. }) => p.clone(),
        _ => String::from_str("Ref"),
    };
    candidate.append(ast.ident.as_str());
    let ref_name = match parse_ident(candidate.as_str()) {
        Ok(n) => n,
        Err(msg) => {
            return Err(Error::Syntax(msg));
        },
    };
    let plain = match ast.split_for_impl() {
        Ok(p) => p,
        Err(e) => {
            return Err(e);
        },
    };
    let with = match ast.split_for_impl_with("'a") {
        Ok(p) => p,
        Err(e) => {
            return Err(e);
        },
    };
    Ok(
        Names {
            derive: write_derive_line(&shadow),
            vis: ast.vis.clone(),
            name: ast.ident.clone(),
            ref_name,
            for_impl: plain.0,
            for_type: plain.1,
            for_ref_impl: with.0,
            for_ref_type: with.1,
            where_clause: ast.where_clause.clone(),
        },
    )
}

fn write_marker_impl(n: &Names) -> (r: String)
    ensures
        r@ == marker_impl(n@),
{
    let body = braced("");
    assert(body@ == brace(Seq::empty())) by {
        reveal_strlit("");
        assert(""@ =~= Seq::<char>::empty());
    }
    let mut r = String::new();
    push_word(&mut r, "impl");
    push_word(&mut r, n.for_impl.as_str());
    push_word(&mut r, "Reflica for");
    push_word(&mut r, n.name.as_str());
    push_word(&mut r, n.for_type.as_str());
    push_word(&mut r, n.where_clause.as_str());
    push_word(&mut r, body.as_str());
    proof {
        reveal_with_fuel(join_first, 8);
    }
    r
}

fn write_into_impl(n: &Names, body: &str) -> (r: String)
    ensures
        r@ == into_impl(n@, body@),
{
    let block = braced(body);
    let mut method = String::new();
    push_word(&mut method, "fn into (self) ->");
    push_word(&mut method, n.ref_name.as_str());
    push_word(&mut method, n.for_ref_type.as_str());
    push_word(&mut method, block.as_str());
    let methods = braced(method.as_str());
    let mut r = String::new();
    push_word(&mut r, "impl");
    push_word(&mut r, n.for_ref_impl.as_str());
    push_word(&mut r, "Into <");
    push_word(&mut r, n.ref_name.as_str());
    push_word(&mut r, n.for_ref_type.as_str());
    push_word(&mut r, "> for & 'a");
    push_word(&mut r, n.name.as_str());
    push_word(&mut r, n.for_type.as_str());
    push_word(&mut r, n.where_clause.as_str());
    push_word(&mut r, methods.as_str());
    proof {
        reveal_with_fuel(join_first, 11);
    }
    r
}

fn write_struct(n: &Names, fields: &Fields) -> (r: String)
    ensures
        r@ == join(
            seq![
                marker_impl(n@),
                struct_shadow(n@, fields@),
                into_impl(n@, struct_body(n@, fields@)),
            ],
        ),
{
    let (is_named, borrowed, bindings) = get_ref_fields(fields);
    let mut shadow = String::new();
    push_word(&mut shadow, n.derive.as_str());
    push_word(&mut shadow, n.vis.as_str());
    push_word(&mut shadow, "struct");
    push_word(&mut shadow, n.ref_name.as_str());
    push_word(&mut shadow, n.for_ref_impl.as_str());
    push_word(&mut shadow, n.where_clause.as_str());
    push_word(&mut shadow, borrowed.as_str());
    if !is_named {
        push_word(&mut shadow, ";");
    }
    let mut body = String::new();
    push_word(&mut body, "let");
    push_word(&mut body, n.name.as_str());
    push_word(&mut body, bindings.as_str());
    push_word(&mut body, "= self ;");
    push_word(&mut body, n.ref_name.as_str());
    push_word(&mut body, bindings.as_str());
    proof {
        reveal_with_fuel(join_first, 9);
    }
    let marker = write_marker_impl(n);
    let into = write_into_impl(n, body.as_str());
    let mut r = String::new();
    push_word(&mut r, marker.as_str());
    push_word(&mut r, shadow.as_str());
    push_word(&mut r, into.as_str());
    r
}

fn write_enum(n: &Names, variants: &Vec<Variant>) -> (r: String)
    ensures
        r@ == join(
            seq![
                marker_impl(n@),
                enum_shadow(n@, variants@.map_values(|v: Variant| v@)),
                into_impl(n@, enum_body(n@, variants@.map_values(|v: Variant| v@))),
            ],
        ),
{
    let ghost views = variants@.map_values(|v: Variant| v@);
    let mut declared: Vec<String> = Vec::new();
    let mut arms: Vec<String> = Vec::new();
    let mut i: usize = 0;
    while i < variants.len()
        invariant
            i <= variants.len(),
            declared@.len() == i,
            arms@.len() == i,
            forall|j: int| 0 <= j < i ==> (#[trigger] declared@[j])@ == ref_variant(variants@[j]@),
            forall|j: int| 0 <= j < i ==> (#[trigger] arms@[j])@ == variant_arm(n@, variants@[j]@),
        decreases variants.len() - i,
    {
        let v = &variants[i];
        let (_, borrowed, bindings) = get_ref_fields(&v.fields);
        let mut variant = String::new();
        push_word(&mut variant, v.ident.as_str());
        push_word(&mut variant, borrowed.as_str());
        push_word(&mut variant, ",");
        let mut arm = String::new();
        push_word(&mut arm, n.name.as_str());
        push_word(&mut arm, "::");
        push_word(&mut arm, v.ident.as_str());
        push_word(&mut arm, bindings.as_str());
        push_word(&mut arm, "=>");
        push_word(&mut arm, n.ref_name.as_str());
        push_word(&mut arm, "::");
        push_word(&mut arm, v.ident.as_str());
        push_word(&mut arm, bindings.as_str());
        push_word(&mut arm, ",");
        proof {
            reveal_with_fuel(join_first, 11);
        }
        declared.push(variant);
        arms.push(arm);
        i += 1;
    }
    assert(texts(declared@) =~= views.map_values(|v: VariantView| ref_variant(v)));
    assert(texts(arms@) =~= views.map_values(|v: VariantView| variant_arm(n@, v)));
    let all_declared = join_all(&declared);
    let all_arms = join_all(&arms);
    let declared_block = braced(all_declared.as_str());
    let arms_block = braced(all_arms.as_str());
    let mut shadow = String::new();
    push_word(&mut shadow, n.derive.as_str());
    push_word(&mut shadow, n.vis.as_str());
    push_word(&mut shadow, "enum");
    push_word(&mut shadow, n.ref_name.as_str());
    push_word(&mut shadow, n.for_ref_impl.as_str());
    push_word(&mut shadow, n.where_clause.as_str());
    push_word(&mut shadow, declared_block.as_str());
    let mut body = String::new();
    push_word(&mut body, "match self");
    push_word(&mut body, arms_block.as_str());
    proof {
        reveal_with_fuel(join_first, 8);
    }
    let marker = write_marker_impl(n);
    let into = write_into_impl(n, body.as_str());
    let mut r = String::new();
    push_word(&mut r, marker.as_str());
    push_word(&mut r, shadow.as_str());
    push_word(&mut r, into.as_str());
    r
}

/// Writes the marker impl, the shadow type and the conversion into it.
pub fn write_shadow_impls(n: &Names, data: &Data) -> (r: Result<String, Error>)
    ensures
        outcome(r) == shadow_impls(n@, data@),
{
    match data {
        Data::Struct(fields) => Ok(write_struct(n, fields)),
        Data::Enum(variants) => Ok(write_enum(n, variants)),
        Data::Union => Err(Error::Union),
    }
}

/// Expands `#[derive(Reflica)]` on `ast`.
pub fn impl_reflica_macro(ast: &DeriveInput) -> (r: Result<String, Error>)
    ensures
        outcome(r) == reflica_expansion(ast@),
{
    match read_names(ast) {
        Ok(n) => write_shadow_impls(&n, &ast.data),
        Err(e) => Err(e),
    }
}

} // verus!
