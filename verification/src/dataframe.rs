//! The data frame: the entry point that hands a view to queries.

use crate::array::{data_cells, data_type, Array};
use crate::error::Error;
use crate::query::select::{select_outcome, Select};
use crate::query::Query;
use crate::schema::{DataType, Field};
use crate::view::{made_of, View};
use arrow::array::ArrayData;
use vstd::prelude::*;
use vstd::view::View as _;

verus! {

/// The arrays of a sequence of batches, batch after batch.
pub open spec fn batch_data(batches: Seq<Vec<ArrayData>>) -> Seq<ArrayData>
    decreases batches.len(),
{
    if batches.len() == 0 {
        Seq::empty()
    } else {
        batch_data(batches.drop_last()) + batches.last()@
    }
}

/// Whether the columns are the given arrays in their typed form: as many, each
/// with the cells and the type of its array, which is no `Other`.
pub open spec fn columns_of(data: Seq<ArrayData>, columns: Seq<Array>) -> bool {
    &&& columns.len() == data.len()
    &&& forall|i: int|
        0 <= i < data.len() ==> (#[trigger] columns[i]).cells() == data_cells(data[i])
            && columns[i].dtype() == data_type(data[i]) && !(data_type(data[i]) is Other)
}

/// Whether one of the arrays is of a type that has no tag of its own.
pub open spec fn any_untagged(data: Seq<ArrayData>) -> bool {
    exists|i: int| 0 <= i < data.len() && data_type(#[trigger] data[i]) is Other
}

/// The array at a place in a batch is the array at that place, counted over
/// all the batches before it as well.
pub proof fn lemma_batch_at(batches: Seq<Vec<ArrayData>>, b: int, idx: int)
    requires
        0 <= b < batches.len(),
        0 <= idx < batches[b]@.len(),
    ensures
        batch_data(batches.take(b)).len() + idx < batch_data(batches).len(),
        batch_data(batches)[batch_data(batches.take(b)).len() + idx] == batches[b]@[idx],
    decreases batches.len(),
{
    let front = batches.drop_last();
    if b == batches.len() - 1 {
        assert(batches.take(b) =~= front);
    } else {
        lemma_batch_at(front, b, idx);
        assert(front.take(b) =~= batches.take(b));
        assert(front[b] == batches[b]);
    }
}

/// A view, offered for querying.
pub struct DataFrame {
    view: View,
}

impl DataFrame {
    /// The view of the data frame.
    pub closed spec fn spec_view(&self) -> View {
        self.view
    }

    /// A data frame over the view.
    pub fn new(view: View) -> (df: DataFrame)
        ensures
            df.spec_view() == view,
    {
        DataFrame { view }
    }

    /// A data frame of the arrays of all the batches, batch after batch, under
    /// the given descriptors.
    ///
    /// An array of a type that has no tag of its own is refused with
    /// `UnknownDataType`. Otherwise the frame is made as a view of these
    /// columns is (see `made_of`), so that more arrays than descriptors are
    /// refused.
    pub fn from_batches(fields: Vec<Field>, batches: &Vec<Vec<ArrayData>>) -> (r: Result<
        DataFrame,
        Error,
    >)
        ensures
            any_untagged(batch_data(batches@)) ==> r == Err::<DataFrame, Error>(
                Error::UnknownDataType { data_type: DataType::Other },
            ),
            !any_untagged(batch_data(batches@)) ==> exists|columns: Seq<Array>|
                columns_of(batch_data(batches@), columns) && match r {
                    Ok(df) => made_of(fields@, columns, Ok(df.spec_view())),
                    Err(e) => made_of(fields@, columns, Err(e)),
                },
    {
        let mut columns: Vec<Array> = Vec::new();
        let mut b: usize = 0;
        while b < batches.len()
            invariant
                b <= batches.len(),
                columns_of(batch_data(batches@.take(b as int)), columns@),
            decreases batches.len() - b,
        {
            let batch = &batches[b];
            let ghost before = batch_data(batches@.take(b as int));
            let mut idx: usize = 0;
            while idx < batch.len()
                invariant
                    b < batches.len(),
                    batch@ == batches@[b as int]@,
                    before == batch_data(batches@.take(b as int)),
                    idx <= batch.len(),
                    columns_of(before + batch@.take(idx as int), columns@),
                decreases batch.len() - idx,
            {
                let ghost data = before + batch@.take(idx as int);
                match Array::new(&batch[idx]) {
                    Some(column) => {
                        columns.push(column);
                    },
                    None => {
                        proof {
                            lemma_batch_at(batches@, b as int, idx as int);
                        }
                        return Err(Error::UnknownDataType { data_type: DataType::Other });
                    },
                }
                proof {
                    let next = before + batch@.take(idx + 1);
                    assert(next =~= data.push(batch@[idx as int]));
                    assert forall|i: int| 0 <= i < next.len() implies (
                    #[trigger] columns@[i]).cells() == data_cells(next[i]) && columns@[i].dtype()
                        == data_type(next[i]) && !(data_type(next[i]) is Other) by {
                        if i < data.len() {
                            assert(next[i] == data[i]);
                        }
                    }
                }
                idx += 1;
            }
            proof {
                assert(batch@.take(batch.len() as int) =~= batch@);
                let next = batches@.take(b + 1);
                assert(next.drop_last() =~= batches@.take(b as int));
                assert(next.last() == batches@[b as int]);
            }
            b += 1;
        }
        let ghost made = columns@;
        proof {
            assert(batches@.take(batches.len() as int) =~= batches@);
            let data = batch_data(batches@);
            assert forall|i: int| 0 <= i < data.len() implies !(data_type(#[trigger] data[i])
                is Other) by {
                assert(made[i].dtype() == data_type(data[i]));
            }
        }
        match View::new(fields, columns) {
            Ok(view) => {
                let df = DataFrame::new(view);
                proof {
                    assert(made_of(fields@, made, Ok(df.spec_view())));
                }
                Ok(df)
            },
            Err(e) => {
                proof {
                    assert(made_of(fields@, made, Err(e)));
                }
                Err(e)
            },
        }
    }

    /// A query over the view, with neither projection nor filter yet.
    pub fn query(self) -> (q: Query<'static>)
        ensures
            q.spec_view() == self.spec_view(),
            q.spec_select().len() == 0,
            q.spec_filter() is None,
    {
        Query::new(self.view)
    }

    /// Projects the view onto the terms and wraps the result.
    pub fn select(self, columns: Vec<Select>) -> (r: Result<DataFrame, Error>)
        requires
            self.spec_view().wf(),
        ensures
            match r {
                Ok(df) => select_outcome(self.spec_view(), columns@, Ok(df.spec_view())),
                Err(e) => select_outcome(self.spec_view(), columns@, Err(e)),
            },
    {
        match Query::new(self.view).select(columns).exec() {
            Ok(view) => Ok(view.to_df()),
            Err(e) => Err(e),
        }
    }

    /// The view of the data frame.
    pub fn view(&self) -> (view: &View)
        ensures
            *view == self.spec_view(),
    {
        &self.view
    }
}

impl Clone for DataFrame {
    fn clone(&self) -> (df: Self)
        ensures
            df.spec_view().wf(),
            df.spec_view().spec_fields() == self.spec_view().spec_fields(),
            df.spec_view().spec_columns() == self.spec_view().spec_columns(),
    {
        DataFrame { view: self.view.clone() }
    }
}

} // verus!
