//! Sort order, and its reading from text.

use crate::error::Error;
use std::str::FromStr;
use vstd::prelude::*;

verus! {

/// A sort order.
#[derive(Clone, Copy, Debug, PartialEq, Eq, Structural)]
pub enum Sort {
    ASC,
    DESC,
}

/// Whether two texts are equal but for case, under Unicode's case folding, as
/// `unicase::eq` finds.
pub uninterp spec fn caseless_eq(left: Seq<char>, right: Seq<char>) -> bool;

/// `unicase::eq`: equality of two texts but for case.
#[verifier::external_body]
fn unicase_eq(left: &str, right: &str) -> (b: bool)
    ensures
        b == caseless_eq(left@, right@),
{
    unicase::eq(left, right)
}

impl Sort {
    /// What a text is read as, given whether it is `asc` but for case and
    /// whether it is `desc` but for case: the order it names, ascending
    /// first, or the error that quotes the text.
    pub open spec fn reading(s: Seq<char>, asc: bool, desc: bool, r: Result<Sort, Error>) -> bool {
        if asc {
            r == Ok::<Sort, Error>(Sort::ASC)
        } else if desc {
            r == Ok::<Sort, Error>(Sort::DESC)
        } else {
            r matches Err(Error::FromStrError { value, description: Some(d) }) && value@ == s && d@
                == "Allowed options are asc or desc"@
        }
    }

    /// Reads the order from a text of which it is known whether it is `asc`
    /// and whether it is `desc`, but for case (see `reading`).
    pub fn from_matches(s: &str, asc: bool, desc: bool) -> (r: Result<Sort, Error>)
        ensures
            Sort::reading(s@, asc, desc, r),
    {
        if asc {
            return Ok(Sort::ASC);
        }
        if desc {
            return Ok(Sort::DESC);
        }
        Err(
            Error::FromStrError {
                value: s.to_owned(),
                description: Some("Allowed options are asc or desc"),
            },
        )
    }

    /// Reads the order from its name, `asc` or `desc`, in any case.
    pub fn parse(s: &str) -> (r: Result<Sort, Error>)
        ensures
            Sort::reading(s@, caseless_eq(s@, "asc"@), caseless_eq(s@, "desc"@), r),
    {
        let asc = unicase_eq(s, "asc");
        let desc = unicase_eq(s, "desc");
        Sort::from_matches(s, asc, desc)
    }
}

impl FromStr for Sort {
    type Err = Error;

    /// Reads the order from its name, `asc` or `desc`, in any case: what
    /// `parse` gives.
    fn from_str(s: &str) -> (r: Result<Self, Self::Err>)
        ensures
            Sort::reading(s@, caseless_eq(s@, "asc"@), caseless_eq(s@, "desc"@), r),
    {
        Sort::parse(s)
    }
}

} // verus!
