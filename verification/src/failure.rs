//! What can go wrong with a command, and how it is reported.

use crate::query::Category;
use crate::text::owned;
use vstd::prelude::*;
use vstd::string::*;

verus! {

/// A failure of a command. No failure leaves partial output behind: a command
/// either yields all of its text or one of these.
#[derive(Debug, Clone, PartialEq, Eq)]
pub enum Failure {
    /// The token names no field of the category.
    UnknownField { category: Category, token: String },
    /// The snapshot holds no entity of that name.
    TargetNotFound { category: Category, name: String },
    /// A `%` of the template opens a placeholder that is never closed.
    UnterminatedPlaceholder,
    /// The category has no fields, so no template can be formatted for it.
    UnsupportedForTemplate { category: Category },
    /// The delimiter holds an escape sequence that cannot be read.
    InvalidDelimiter,
}

/// An `Failure` with its strings taken as texts.
pub ghost enum FailureView {
    UnknownField { category: Category, token: Seq<char> },
    TargetNotFound { category: Category, name: Seq<char> },
    UnterminatedPlaceholder,
    UnsupportedForTemplate { category: Category },
    InvalidDelimiter,
}

impl View for Failure {
    type V = FailureView;

    open spec fn view(&self) -> FailureView {
        match self {
            Failure::UnknownField { category, token } => FailureView::UnknownField {
                category: *category,
                token: token@,
            },
            Failure::TargetNotFound { category, name } => FailureView::TargetNotFound {
                category: *category,
                name: name@,
            },
            Failure::UnterminatedPlaceholder => FailureView::UnterminatedPlaceholder,
            Failure::UnsupportedForTemplate { category } => FailureView::UnsupportedForTemplate {
                category: *category,
            },
            Failure::InvalidDelimiter => FailureView::InvalidDelimiter,
        }
    }
}

impl FailureView {
    /// The sentence that reports the failure.
    pub open spec fn message(self) -> Seq<char> {
        match self {
            FailureView::UnknownField { category, token } => "invalid "@ + category.spec_name()
                + " query `"@ + token + "`"@,
            FailureView::TargetNotFound { category, name } => if category == Category::Drive
                || category == Category::Sensor {
                category.spec_name() + " '"@ + name + "' not found"@
            } else {
                category.spec_name() + " `"@ + name + "` not found"@
            },
            FailureView::UnterminatedPlaceholder => "unterminated format specifier"@,
            FailureView::UnsupportedForTemplate { category } =>
                "this command does not take any arguments"@,
            FailureView::InvalidDelimiter =>
                "invalid delimiter; are there any invalid escape sequences?"@,
        }
    }
}

impl Failure {
    /// The sentence that reports the failure.
    pub fn message(&self) -> (r: String)
        ensures
            r@ == self@.message(),
    {
        match self {
            Failure::UnknownField { category, token } => {
                let mut r = owned("invalid ");
                r.append(category.name());
                r.append(" query `");
                r.append(token.as_str());
                r.append("`");
                r
            },
            Failure::TargetNotFound { category, name } => {
                let mut r = owned(category.name());
                match category {
                    Category::Drive | Category::Sensor => {
                        r.append(" '");
                        r.append(name.as_str());
                        r.append("' not found");
                    },
                    _ => {
                        r.append(" `");
                        r.append(name.as_str());
                        r.append("` not found");
                    },
                }
                r
            },
            Failure::UnterminatedPlaceholder => owned("unterminated format specifier"),
            Failure::UnsupportedForTemplate { category } => owned(
                "this command does not take any arguments",
            ),
            Failure::InvalidDelimiter => owned(
                "invalid delimiter; are there any invalid escape sequences?",
            ),
        }
    }
}

} // verus!
