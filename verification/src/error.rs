//! Why a derive refuses a declaration.

use vstd::prelude::*;

verus! {

/// The reason a declaration cannot be expanded.
#[derive(Clone, Debug, PartialEq, Eq)]
pub enum Error {
    /// `IntoWrap` on a struct whose number of fields is not one.
    NotOneField,
    /// The declaration is a union.
    Union,
    /// `Tuplike` on a struct without fields.
    NoFields,
    /// An argument of the top level `isomorphism` attribute is a path of
    /// several segments.
    TopLevelArgument,
    /// The target type of `Isomorphism` is given both as an identifier and as
    /// an array.
    BothTypeForms,
    /// `Isomorphism` on a declaration that is no enum.
    NotEnum,
    /// A variant gives another number of values than there are target types.
    AbbreviatedValues,
    /// The named attribute is written without arguments in parentheses.
    MissingArguments(String),
    /// An argument of an attribute goes on where a comma or the end is due.
    ExpectedComma,
    /// An argument of an attribute that takes a value is written without
    /// `=`.
    ExpectedValue,
    /// The parser refused a fragment; this is its message.
    Syntax(String),
}

pub enum ErrorView {
    NotOneField,
    Union,
    NoFields,
    TopLevelArgument,
    BothTypeForms,
    NotEnum,
    AbbreviatedValues,
    MissingArguments(Seq<char>),
    ExpectedComma,
    ExpectedValue,
    Syntax(Seq<char>),
}

impl View for Error {
    type V = ErrorView;

    open spec fn view(&self) -> ErrorView {
        match self {
            Error::NotOneField => ErrorView::NotOneField,
            Error::Union => ErrorView::Union,
            Error::NoFields => ErrorView::NoFields,
            Error::TopLevelArgument => ErrorView::TopLevelArgument,
            Error::BothTypeForms => ErrorView::BothTypeForms,
            Error::NotEnum => ErrorView::NotEnum,
            Error::AbbreviatedValues => ErrorView::AbbreviatedValues,
            Error::MissingArguments(name) => ErrorView::MissingArguments(name@),
            Error::ExpectedComma => ErrorView::ExpectedComma,
            Error::ExpectedValue => ErrorView::ExpectedValue,
            Error::Syntax(m) => ErrorView::Syntax(m@),
        }
    }
}

impl ErrorView {
    /// The message shown to the user.
    pub open spec fn message(self) -> Seq<char> {
        match self {
            ErrorView::NotOneField =>
                "To implement `IntoWrap` to a struct, there must be just one field"@,
            ErrorView::Union => "Not for Union data type"@,
            ErrorView::NoFields => "Not for 0 fields data"@,
            ErrorView::TopLevelArgument =>
                "Top level 'isomorphism' attribute has argments of list or Into/From type."@,
            ErrorView::BothTypeForms =>
                "To pass Into/From type, should either use format of simple ident or array."@,
            ErrorView::NotEnum => "Only for Enum data type."@,
            ErrorView::AbbreviatedValues =>
                "Using Into/From type arrays, should not abbreviate values."@,
            ErrorView::MissingArguments(name) =>
                "expected attribute arguments in parentheses: #["@ + name + "(...)]"@,
            ErrorView::ExpectedComma => "expected `,`"@,
            ErrorView::ExpectedValue => "expected `=`"@,
            ErrorView::Syntax(m) => m,
        }
    }
}

impl Error {
    /// The message shown to the user.
    pub fn message(&self) -> (r: String)
        ensures
            r@ == self@.message(),
    {
        match self {
            Error::NotOneField => String::from_str(
                "To implement `IntoWrap` to a struct, there must be just one field",
            ),
            Error::Union => String::from_str("Not for Union data type"),
            Error::NoFields => String::from_str("Not for 0 fields data"),
            Error::TopLevelArgument => String::from_str(
                "Top level 'isomorphism' attribute has argments of list or Into/From type.",
            ),
            Error::BothTypeForms => String::from_str(
                "To pass Into/From type, should either use format of simple ident or array.",
            ),
            Error::NotEnum => String::from_str("Only for Enum data type."),
            Error::AbbreviatedValues => String::from_str(
                "Using Into/From type arrays, should not abbreviate values.",
            ),
            Error::MissingArguments(name) => {
                let mut r = String::from_str("expected attribute arguments in parentheses: #[");
                r.append(name.as_str());
                r.append("(...)]");
                r
            },
            Error::ExpectedComma => String::from_str("expected `,`"),
            Error::ExpectedValue => String::from_str("expected `=`"),
            Error::Syntax(m) => m.clone(),
        }
    }
}

/// The view of a generated text or of the reason it was refused.
pub open spec fn outcome(r: Result<String, Error>) -> Result<Seq<char>, ErrorView> {
    match r {
        Ok(s) => Ok(s@),
        Err(e) => Err(e@),
    }
}

} // verus!
