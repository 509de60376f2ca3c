//! One self-contained unit of generated source prior to final assembly, and
//! the error taxonomy of a generation run. Generation is all-or-nothing: any
//! error aborts the run, since partial output is worse than none.

use vstd::prelude::*;
use vstd::string::*;

verus! {

/// One rendered unit of target source: the declarations it contributes and
/// the import lines it requires, to be deduplicated at assembly.
#[derive(Debug)]
pub struct Fragment {
    pub imports: Vec<String>,
    pub body: String,
}

/// Why a generation run aborted: a type declaration missing its mandatory
/// name, a type of a kind outside the supported closed set, or two distinct
/// schema names normalizing to the same target identifier.
#[derive(Debug)]
pub enum GenError {
    MissingName,
    UnsupportedKind { name: String },
    NameCollision { first: String, second: String },
}

/// The mathematical shadow of `GenError`: the same taxonomy over character
/// sequences, so that contracts can pin down which error a run reports.
pub enum GenErrorView {
    MissingName,
    UnsupportedKind { name: Seq<char> },
    NameCollision { first: Seq<char>, second: Seq<char> },
}

/// The view of a reported error.
pub open spec fn gen_error_view(e: GenError) -> GenErrorView {
    match e {
        GenError::MissingName => GenErrorView::MissingName,
        GenError::UnsupportedKind { name } => GenErrorView::UnsupportedKind { name: name@ },
        GenError::NameCollision { first, second } => GenErrorView::NameCollision {
            first: first@,
            second: second@,
        },
    }
}

impl GenError {
    /// A one-line report of the error.
    pub fn message(&self) -> (r: String)
        ensures
            self is MissingName ==> r@ == "schema type without a name"@,
            self matches GenError::UnsupportedKind { name } ==> r@ == "unsupported kind on type: "@
                + name@,
            self matches GenError::NameCollision { first, second } ==> r@
                == "name collision between "@ + first@ + " and "@ + second@,
    {
        match self {
            GenError::MissingName => String::from_str("schema type without a name"),
            GenError::UnsupportedKind { name } => {
                let mut m = String::from_str("unsupported kind on type: ");
                m.append(name.as_str());
                m
            },
            GenError::NameCollision { first, second } => {
                let mut m = String::from_str("name collision between ");
                m.append(first.as_str());
                m.append(" and ");
                m.append(second.as_str());
                m
            },
        }
    }
}

} // verus!
