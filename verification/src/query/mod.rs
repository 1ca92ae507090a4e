//! Queries over a view: projection and row filtering.

pub mod filter;
pub mod select;

use crate::error::Error;
use crate::view::View;
use filter::{filter_outcome, Filter};
use select::{select_outcome, Select};
use vstd::prelude::*;
use vstd::view::View as _;

verus! {

/// A query in the making: a view, the terms to project it onto and, maybe, a
/// predicate to filter its rows by.
pub struct Query<'a> {
    view: View,
    select: Vec<Select>,
    filter: Option<Filter<'a>>,
}

impl<'a> Query<'a> {
    /// The view that is queried.
    pub closed spec fn spec_view(&self) -> View {
        self.view
    }

    /// The terms of the projection.
    pub closed spec fn spec_select(&self) -> Seq<Select> {
        self.select@
    }

    /// The predicate, if there is one.
    pub closed spec fn spec_filter(&self) -> Option<Filter<'a>> {
        self.filter
    }

    /// What running the query gives: with a predicate, its rows are filtered
    /// first, and a failure of the filter is the result; then the view is
    /// projected onto the terms.
    pub open spec fn outcome(&self, r: Result<View, Error>) -> bool {
        match self.spec_filter() {
            None => select_outcome(self.spec_view(), self.spec_select(), r),
            Some(f) => exists|filtered: Result<View, Error>|
                filter_outcome(self.spec_view(), f, filtered) && match filtered {
                    Ok(rows) => select_outcome(rows, self.spec_select(), r),
                    Err(e) => r == Err::<View, Error>(e),
                },
        }
    }

    /// A query over the view, with neither projection nor filter yet.
    pub fn new(view: View) -> (q: Query<'a>)
        ensures
            q.spec_view() == view,
            q.spec_select().len() == 0,
            q.spec_filter() is None,
    {
        Query { view, select: vec![], filter: None }
    }

    /// The query with the given terms as its projection.
    pub fn select(self, select: Vec<Select>) -> (q: Query<'a>)
        ensures
            q.spec_view() == self.spec_view(),
            q.spec_select() == select@,
            q.spec_filter() == self.spec_filter(),
    {
        let mut q = self;
        q.select = select;
        q
    }

    /// The query with the given predicate as its filter.
    pub fn filter(self, filter: Filter<'a>) -> (q: Query<'a>)
        ensures
            q.spec_view() == self.spec_view(),
            q.spec_select() == self.spec_select(),
            q.spec_filter() == Some(filter),
    {
        let mut q = self;
        q.filter = Some(filter);
        q
    }

    /// Runs the query (see `outcome`).
    pub fn exec(self) -> (r: Result<View, Error>)
        requires
            self.spec_view().wf(),
        ensures
            self.outcome(r),
    {
        match self.filter {
            None => select::select(self.view, self.select),
            Some(f) => {
                let filtered = filter::filter(&self.view, f);
                match filtered {
                    Ok(rows) => {
                        let r = select::select(rows, self.select);
                        proof {
                            assert(filter_outcome(self.spec_view(), f, filtered));
                        }
                        r
                    },
                    Err(e) => {
                        proof {
                            assert(filter_outcome(self.spec_view(), f, filtered));
                        }
                        Err(e)
                    },
                }
            },
        }
    }
}

} // verus!
