//! The options of the top level `isomorphism` attribute.

use vstd::prelude::*;
use crate::error::{Error, ErrorView, outcome};
use crate::isomorphism::write::{conversions};
use crate::model::{Attribute, attribute_views, AttributeView, find_attribute, first_attribute};
use crate::syntax::{expr_array, Meta, meta_list, MetaView, parse_expr_array, parse_meta_list};
use crate::text::{same_text, texts};

verus! {

/// What the top level `isomorphism` attribute asks for.
#[derive(Clone, Debug, PartialEq, Eq)]
pub struct Options {
    /// The target type, where it is given as an identifier.
    pub ty: Option<String>,
    /// The target types, where they are given as `into = [..]`.
    pub ty_list: Vec<String>,
    /// The values to list, where they are given as `list = [..]`.
    pub list: Option<Vec<String>>,
    /// Whether conversions from the target types are wanted.
    pub has_default: bool,
}

pub struct OptionsView {
    pub ty: Option<Seq<char>>,
    pub ty_list: Seq<Seq<char>>,
    pub list: Option<Seq<Seq<char>>>,
    pub has_default: bool,
}

impl View for Options {
    type V = OptionsView;

    open spec fn view(&self) -> OptionsView {
        OptionsView {
            ty: match self.ty {
                Some(t) => Some(t@),
                None => None,
            },
            ty_list: texts(self.ty_list@),
            list: match self.list {
                Some(l) => Some(texts(l@)),
                None => None,
            },
            has_default: self.has_default,
        }
    }
}

impl OptionsView {
    /// No target type, no list, no conversions from.
    pub open spec fn none() -> OptionsView {
        OptionsView { ty: None, ty_list: Seq::empty(), list: None, has_default: false }
    }

    /// The number of target types.
    pub open spec fn targets(self) -> nat {
        if self.ty is Some {
            1
        } else {
            self.ty_list.len()
        }
    }

    /// The target type at position `k`.
    pub open spec fn target(self, k: int) -> Seq<char> {
        match self.ty {
            Some(t) => t,
            None => self.ty_list[k],
        }
    }
}

/// The options after one more argument of the top level attribute.
///
/// `has_default` sets the flag, `list = [..]` gives the values to list,
/// `into = [..]` adds target types, and any other identifier is the target
/// type. A path of several segments is refused.
pub open spec fn apply_meta(o: OptionsView, m: MetaView) -> Result<OptionsView, ErrorView> {
    match m.ident() {
        None => Err(ErrorView::TopLevelArgument),
        Some(id) => if id == "has_default"@ {
            if m is Path {
                Ok(OptionsView { has_default: true, ..o })
            } else {
                Err(ErrorView::ExpectedComma)
            }
        } else if id == "list"@ {
            match m {
                MetaView::NameValue(_, value) => match expr_array(value) {
                    Ok(elems) => Ok(OptionsView { list: Some(elems), ..o }),
                    Err(msg) => Err(ErrorView::Syntax(msg)),
                },
                _ => Err(ErrorView::ExpectedValue),
            }
        } else if id == "into"@ {
            match m {
                MetaView::NameValue(_, value) => match expr_array(value) {
                    Ok(elems) => Ok(OptionsView { ty_list: o.ty_list + elems, ..o }),
                    Err(msg) => Err(ErrorView::Syntax(msg)),
                },
                _ => Err(ErrorView::ExpectedValue),
            }
        } else {
            if m is Path {
                Ok(OptionsView { ty: Some(id), ..o })
            } else {
                Err(ErrorView::ExpectedComma)
            }
        },
    }
}

/// The options after the first `n` arguments, or the first refusal.
pub open spec fn apply_metas(items: Seq<MetaView>, n: nat) -> Result<OptionsView, ErrorView>
    decreases n,
{
    if n == 0 {
        Ok(OptionsView::none())
    } else {
        match apply_metas(items, (n - 1) as nat) {
            Ok(o) => apply_meta(o, items[n - 1]),
            Err(e) => Err(e),
        }
    }
}

/// The options that the first `isomorphism` attribute among `attrs` gives;
/// none where there is no such attribute.
pub open spec fn options_of(attrs: Seq<AttributeView>) -> Result<OptionsView, ErrorView> {
    match find_attribute(attrs, "isomorphism"@) {
        None => Ok(OptionsView::none()),
        Some(a) => match a.args {
            None => Err(ErrorView::MissingArguments(a.name)),
            Some(args) => match meta_list(args) {
                Ok(items) => apply_metas(items, items.len()),
                Err(msg) => Err(ErrorView::Syntax(msg)),
            },
        },
    }
}

/// The view of options or of the reason they were refused.
pub open spec fn options_outcome(r: Result<Options, Error>) -> Result<OptionsView, ErrorView> {
    match r {
        Ok(o) => Ok(o@),
        Err(e) => Err(e@),
    }
}

/// Reads the elements of an array expression given as the value of `name = ..`.
fn array_value(m: &Meta) -> (r: Result<Vec<String>, Error>)
    ensures
        match r {
            Ok(v) => m@ is NameValue && expr_array(m@->NameValue_1) == Ok::<_, Seq<char>>(
                texts(v@),
            ),
            Err(e) => if m@ is NameValue {
                expr_array(m@->NameValue_1) is Err && e@ == ErrorView::Syntax(
                    expr_array(m@->NameValue_1)->Err_0,
                )
            } else {
                e@ == ErrorView::ExpectedValue
            },
        },
{
    match m {
        Meta::NameValue(_, value) => match parse_expr_array(value.as_str()) {
            Ok(elems) => Ok(elems),
            Err(msg) => Err(Error::Syntax(msg)),
        },
        _ => Err(Error::ExpectedValue),
    }
}

/// Applies one argument of the top level attribute to `o`.
pub fn apply_argument(o: Options, m: &Meta) -> (r: Result<Options, Error>)
    ensures
        options_outcome(r) == apply_meta(o@, m@),
{
    let id = match m {
        Meta::Path(p) => p,
        Meta::List(p, _) => p,
        Meta::NameValue(p, _) => p,
    };
    let is_path = match m {
        Meta::Path(_) => true,
        _ => false,
    };
    match id {
        None => Err(Error::TopLevelArgument),
        Some(id) => {
            if same_text(id.as_str(), "has_default") {
                if is_path {
                    Ok(Options { ty: o.ty, ty_list: o.ty_list, list: o.list, has_default: true })
                } else {
                    Err(Error::ExpectedComma)
                }
            } else if same_text(id.as_str(), "list") {
                match array_value(m) {
                    Ok(elems) => Ok(
                        Options {
                            ty: o.ty,
                            ty_list: o.ty_list,
                            list: Some(elems),
                            has_default: o.has_default,
                        },
                    ),
                    Err(e) => Err(e),
                }
            } else if same_text(id.as_str(), "into") {
                match array_value(m) {
                    Ok(elems) => {
                        let mut elems = elems;
                        let mut ty_list = o.ty_list;
                        let ghost before = ty_list@;
                        let ghost added = elems@;
                        ty_list.append(&mut elems);
                        assert(texts(ty_list@) =~= texts(before) + texts(added));
                        Ok(Options { ty: o.ty, ty_list, list: o.list, has_default: o.has_default })
                    },
                    Err(e) => Err(e),
                }
            } else {
                if is_path {
                    Ok(
                        Options {
                            ty: Some(id.clone()),
                            ty_list: o.ty_list,
                            list: o.list,
                            has_default: o.has_default,
                        },
                    )
                } else {
                    Err(Error::ExpectedComma)
                }
            }
        },
    }
}

/// The views of a list of arguments.
pub open spec fn meta_views(items: Seq<Meta>) -> Seq<MetaView> {
    items.map_values(|m: Meta| m@)
}

/// Applies the arguments of the top level attribute in order, up to the
/// first that is refused.
pub fn apply_arguments(items: &Vec<Meta>) -> (r: Result<Options, Error>)
    ensures
        options_outcome(r) == apply_metas(meta_views(items@), items@.len()),
{
    let mut o = Options { ty: None, ty_list: Vec::new(), list: None, has_default: false };
    assert(o@ == OptionsView::none()) by {
        assert(texts(o.ty_list@) =~= Seq::empty());
    }
    let ghost views = meta_views(items@);
    let mut i: usize = 0;
    while i < items.len()
        invariant
            i <= items.len(),
            views == meta_views(items@),
            apply_metas(views, i as nat) == Ok::<_, ErrorView>(o@),
        decreases items.len() - i,
    {
        assert(views[i as int] == items@[i as int]@);
        match apply_argument(o, &items[i]) {
            Ok(next) => {
                o = next;
            },
            Err(e) => {
                proof {
                    assert(apply_metas(views, (i + 1) as nat) == Err::<OptionsView, _>(e@));
                    lemma_refusal_stays(views, (i + 1) as nat, items.len() as nat);
                }
                return Err(e);
            },
        }
        i += 1;
    }
    Ok(o)
}

/// Reads the top level `isomorphism` attribute, where there is one.
pub fn read_options(attrs: &Vec<Attribute>) -> (r: Result<Options, Error>)
    ensures
        options_outcome(r) == options_of(attribute_views(attrs@)),
{
    match first_attribute(attrs, "isomorphism") {
        None => {
            let o = Options { ty: None, ty_list: Vec::new(), list: None, has_default: false };
            assert(texts(o.ty_list@) =~= Seq::empty());
            Ok(o)
        },
        Some(attr) => match &attr.args {
            None => Err(Error::MissingArguments(attr.name.clone())),
            Some(args) => match parse_meta_list(args.as_str()) {
                Err(msg) => Err(Error::Syntax(msg)),
                Ok(items) => apply_arguments(&items),
            },
        },
    }
}

/// A refusal among the first `n` arguments is the outcome for every longer
/// prefix.
pub proof fn lemma_refusal_stays(items: Seq<MetaView>, n: nat, m: nat)
    requires
        n <= m,
        apply_metas(items, n) is Err,
    ensures
        apply_metas(items, m) == apply_metas(items, n),
    decreases m,
{
    if n < m {
        lemma_refusal_stays(items, n, (m - 1) as nat);
    }
}

} // verus!
