//! The view: an ordered set of named columns of one length.

use crate::array::{data_cells, data_type, Array};
use crate::column::Column;
use crate::dataframe::DataFrame;
use crate::error::Error;
use crate::schema::Field;
use crate::utils::{first_where, lemma_first_where};
use arrow::array::ArrayData;
use vstd::hash_map::StringHashMap;
use vstd::prelude::*;
use vstd::view::View as _;

verus! {

/// The position that a name resolves to: that of the last descriptor that
/// carries it.
pub open spec fn name_position(fields: Seq<Field>, name: Seq<char>) -> Option<int>
    decreases fields.len(),
{
    if fields.len() == 0 {
        None
    } else if fields.last().name@ == name {
        Some(fields.len() - 1)
    } else {
        name_position(fields.drop_last(), name)
    }
}

/// The name index of a list of descriptors: each name with the position that
/// was entered last under it.
pub open spec fn name_index(fields: Seq<Field>) -> Map<Seq<char>, usize>
    decreases fields.len(),
{
    if fields.len() == 0 {
        Map::empty()
    } else {
        name_index(fields.drop_last()).insert(fields.last().name@, (fields.len() - 1) as usize)
    }
}

/// Whether the column at a position is not as long as the first column.
pub open spec fn uneven(columns: Seq<Array>) -> spec_fn(int) -> bool {
    |i: int| columns[i].rows() != columns[0].rows()
}

/// The first column whose length differs from that of the first column, or
/// the number of columns where all have one length.
pub open spec fn first_uneven(columns: Seq<Array>) -> int {
    first_where(columns.len() as int, uneven(columns))
}

/// What making a view of parallel lists of descriptors and columns gives:
/// `ColumnCountMismatch` when the lists differ in length; else
/// `RowCountMismatch`, naming the first such column, when a column is not as
/// long as the first one; else a well-formed view of these parts.
pub open spec fn made_of(fields: Seq<Field>, columns: Seq<Array>, r: Result<View, Error>) -> bool {
    if fields.len() != columns.len() {
        r == Err::<View, Error>(
            Error::ColumnCountMismatch {
                fields: fields.len() as usize,
                columns: columns.len() as usize,
            },
        )
    } else if first_uneven(columns) < columns.len() {
        r == Err::<View, Error>(
            Error::RowCountMismatch {
                column: first_uneven(columns) as usize,
                rows: columns[first_uneven(columns)].rows() as usize,
                expected: columns[0].rows() as usize,
            },
        )
    } else {
        r matches Ok(view) && view.wf() && view.spec_fields() == fields && view.spec_columns()
            == columns
    }
}

/// The name index holds exactly the names that resolve, each with the
/// position it resolves to.
pub proof fn lemma_name_index(fields: Seq<Field>, name: Seq<char>)
    requires
        fields.len() <= usize::MAX,
    ensures
        name_index(fields).contains_key(name) <==> name_position(fields, name) is Some,
        name_position(fields, name) matches Some(p) ==> 0 <= p < fields.len() && fields[p].name@
            == name && name_index(fields)[name] == p,
    decreases fields.len(),
{
    if fields.len() > 0 {
        lemma_name_index(fields.drop_last(), name);
    }
}

/// The name index depends on the names alone.
pub proof fn lemma_name_index_by_names(a: Seq<Field>, b: Seq<Field>)
    requires
        a.len() == b.len(),
        forall|i: int| 0 <= i < a.len() ==> a[i].name@ == b[i].name@,
    ensures
        name_index(a) == name_index(b),
    decreases a.len(),
{
    if a.len() > 0 {
        lemma_name_index_by_names(a.drop_last(), b.drop_last());
    }
}

/// A well-formed view has as many descriptors as columns, and every one of
/// its columns is as long as the view's row count.
pub proof fn view_shape(view: View)
    requires
        view.wf(),
    ensures
        view.spec_fields().len() == view.spec_columns().len(),
        forall|i: int|
            0 <= i < view.spec_columns().len() ==> (#[trigger] view.spec_columns()[i]).rows()
                == view.spec_num_rows(),
{
}

/// Where no two descriptors share a name, each name resolves to the position
/// of its descriptor.
pub proof fn lemma_distinct_names(fields: Seq<Field>, i: int)
    requires
        0 <= i < fields.len(),
        forall|a: int, b: int|
            0 <= a < b < fields.len() ==> (#[trigger] fields[a]).name@ != (
            #[trigger] fields[b]).name@,
    ensures
        name_position(fields, fields[i].name@) == Some(i),
    decreases fields.len(),
{
    if i < fields.len() - 1 {
        let front = fields.drop_last();
        assert(fields[i].name@ != fields[fields.len() - 1].name@);
        assert forall|a: int, b: int| 0 <= a < b < front.len() implies (#[trigger] front[a]).name@
            != (#[trigger] front[b]).name@ by {
            assert(front[a] == fields[a]);
            assert(front[b] == fields[b]);
        }
        assert(front[i] == fields[i]);
        lemma_distinct_names(front, i);
    }
}

/// An immutable, ordered set of columns that share one row count, each with
/// its descriptor, and an index from names to positions.
///
/// Every view has as many descriptors as columns, and columns of one length.
/// A well-formed view (`wf`) has, beyond that, a name index that is in step
/// with its descriptors; every view that the library makes is well-formed.
pub struct View {
    columns: Vec<Array>,
    fields: Vec<Field>,
    indexes: StringHashMap<usize>,
}

impl View {
    /// As many descriptors as columns, and columns of one length.
    #[verifier::type_invariant]
    spec fn shape(self) -> bool {
        &&& self.fields@.len() == self.columns@.len()
        &&& forall|i: int|
            0 <= i < self.columns@.len() ==> (#[trigger] self.columns@[i]).rows()
                == self.columns@[0].rows()
    }

    /// The descriptors, in column order.
    pub closed spec fn spec_fields(&self) -> Seq<Field> {
        self.fields@
    }

    /// The columns, in order.
    pub closed spec fn spec_columns(&self) -> Seq<Array> {
        self.columns@
    }

    /// The name index is the one that the descriptors determine.
    pub closed spec fn index_wf(&self) -> bool {
        self.indexes@ == name_index(self.fields@)
    }

    /// The row count: the length of the first column, 0 without columns.
    pub open spec fn spec_num_rows(&self) -> nat {
        if self.spec_columns().len() == 0 {
            0
        } else {
            self.spec_columns()[0].rows()
        }
    }

    /// The invariant of a view: as many descriptors as columns, every column
    /// as long as the row count, and the name index in step with the
    /// descriptors.
    pub open spec fn wf(&self) -> bool {
        &&& self.spec_fields().len() == self.spec_columns().len()
        &&& self.spec_columns().len() <= usize::MAX
        &&& forall|i: int|
            0 <= i < self.spec_columns().len() ==> (#[trigger] self.spec_columns()[i]).rows()
                == self.spec_num_rows()
        &&& self.index_wf()
    }

    /// The position that a reference resolves to, if it resolves: a name to
    /// the last column that carries it, a position to itself when it is in
    /// range.
    pub open spec fn resolve(&self, index: Column) -> Option<usize> {
        match index {
            Column::Name(name) => match name_position(self.spec_fields(), name@) {
                Some(p) => if 0 <= p < self.spec_columns().len() {
                    Some(p as usize)
                } else {
                    None
                },
                None => None,
            },
            Column::Position(position) => if position < self.spec_columns().len() {
                Some(position)
            } else {
                None
            },
        }
    }

    /// Builds the view, with its name index, from parts that are known to fit.
    pub(crate) fn from_parts(fields: Vec<Field>, columns: Vec<Array>) -> (view: View)
        requires
            fields.len() == columns.len(),
            forall|i: int|
                0 <= i < columns.len() ==> (#[trigger] columns[i]).rows() == columns[0].rows(),
        ensures
            view.wf(),
            view.spec_fields() == fields@,
            view.spec_columns() == columns@,
    {
        let mut indexes: StringHashMap<usize> = StringHashMap::with_capacity(fields.len());
        let mut i: usize = 0;
        while i < fields.len()
            invariant
                i <= fields.len(),
                fields.len() == columns.len(),
                forall|k: int|
                    0 <= k < columns.len() ==> (#[trigger] columns[k]).rows() == columns[0].rows(),
                indexes@ == name_index(fields@.take(i as int)),
            decreases fields.len() - i,
        {
            proof {
                let next = fields@.take(i + 1);
                assert(next.drop_last() == fields@.take(i as int));
                assert(next.last() == fields@[i as int]);
            }
            indexes.insert(fields[i].name().clone(), i);
            i += 1;
        }
        proof {
            assert(fields@.take(fields.len() as int) == fields@);
        }
        View { columns, fields, indexes }
    }

    /// Makes a view of parallel lists of descriptors and columns (see
    /// `made_of`).
    pub fn new(fields: Vec<Field>, columns: Vec<Array>) -> (r: Result<View, Error>)
        ensures
            made_of(fields@, columns@, r),
    {
        if fields.len() != columns.len() {
            return Err(Error::ColumnCountMismatch { fields: fields.len(), columns: columns.len() });
        }
        proof {
            lemma_first_where(columns.len() as int, uneven(columns@));
        }
        if columns.len() > 0 {
            let expected = columns[0].len();
            let mut i: usize = 1;
            while i < columns.len()
                invariant
                    1 <= i <= columns.len(),
                    fields.len() == columns.len(),
                    expected == columns[0].rows(),
                    i <= first_uneven(columns@) <= columns.len(),
                    forall|k: int|
                        0 <= k < first_uneven(columns@) ==> !#[trigger] uneven(columns@)(k),
                    first_uneven(columns@) < columns.len() ==> uneven(columns@)(
                        first_uneven(columns@),
                    ),
                decreases columns.len() - i,
            {
                let rows = columns[i].len();
                if rows != expected {
                    assert(uneven(columns@)(i as int));
                    return Err(Error::RowCountMismatch { column: i, rows, expected });
                }
                assert(!uneven(columns@)(i as int));
                i += 1;
            }
        }
        proof {
            assert forall|k: int| 0 <= k < columns.len() implies (#[trigger] columns[k]).rows()
                == columns[0].rows() by {
                assert(!uneven(columns@)(k));
            }
        }
        Ok(View::from_parts(fields, columns))
    }

    /// The position that the reference resolves to, or `None`.
    pub fn get_index(&self, index: &Column) -> (r: Option<usize>)
        requires
            self.wf(),
        ensures
            r == self.resolve(*index),
            r matches Some(p) ==> p < self.spec_columns().len(),
    {
        let found: Option<usize> = match index {
            Column::Name(name) => {
                proof {
                    assert(self.fields.len() == self.fields@.len());
                    lemma_name_index(self.fields@, name@);
                }
                match self.indexes.get(name.as_str()) {
                    Some(p) => Some(*p),
                    None => None,
                }
            },
            Column::Position(position) => Some(*position),
        };
        match found {
            Some(p) => if self.columns.len() > p {
                Some(p)
            } else {
                None
            },
            None => None,
        }
    }

    /// Tells whether the reference resolves.
    pub fn index_exists(&self, index: &Column) -> (b: bool)
        requires
            self.wf(),
        ensures
            b == (self.resolve(*index) is Some),
    {
        self.get_index(index).is_some()
    }

    /// The number of columns, which is the number of descriptors.
    pub fn num_columns(&self) -> (n: usize)
        ensures
            n == self.spec_columns().len(),
            n == self.spec_fields().len(),
    {
        proof {
            use_type_invariant(self);
        }
        self.columns.len()
    }

    /// The number of rows, which is the length of every column.
    pub fn num_rows(&self) -> (n: usize)
        ensures
            n == self.spec_num_rows(),
            forall|i: int|
                0 <= i < self.spec_columns().len() ==> (#[trigger] self.spec_columns()[i]).rows()
                    == n,
    {
        proof {
            use_type_invariant(self);
        }
        if self.columns.len() == 0 {
            return 0;
        }
        self.columns[0].len()
    }

    /// The descriptors, in column order.
    pub fn fields(&self) -> (fields: &Vec<Field>)
        ensures
            fields@ == self.spec_fields(),
    {
        &self.fields
    }

    /// The columns, in order.
    pub fn columns(&self) -> (columns: &Vec<Array>)
        ensures
            columns@ == self.spec_columns(),
    {
        &self.columns
    }

    /// The position and the descriptor that the reference resolves to.
    pub fn full_index(&self, column: &Column) -> (r: Option<(usize, &Field)>)
        requires
            self.wf(),
        ensures
            match self.resolve(*column) {
                Some(p) => r == Some((p, &self.spec_fields()[p as int])),
                None => r is None,
            },
    {
        match self.get_index(column) {
            Some(index) => Some((index, &self.fields[index])),
            None => None,
        }
    }

    /// The descriptor of the column that the reference resolves to.
    pub fn field(&self, index: &Column) -> (r: Option<&Field>)
        requires
            self.wf(),
        ensures
            match self.resolve(*index) {
                Some(p) => r == Some(&self.spec_fields()[p as int]),
                None => r is None,
            },
    {
        match self.get_index(index) {
            Some(index) => Some(&self.fields[index]),
            None => None,
        }
    }

    /// The descriptor that the reference resolves to, for patching before the
    /// view is shared. The columns stay as they are.
    pub fn field_mut(&mut self, index: &Column) -> (r: Option<&mut Field>)
        requires
            old(self).wf(),
        ensures
            final(self).spec_columns() == old(self).spec_columns(),
            match old(self).resolve(*index) {
                Some(p) => r matches Some(field) && *field == old(self).spec_fields()[p as int]
                    && final(self).spec_fields() == old(self).spec_fields().update(
                    p as int,
                    *final(field),
                ),
                None => r is None && final(self).spec_fields() == old(self).spec_fields(),
            },
            r matches Some(field) ==> (final(field).name@ == field.name@ ==> final(self).wf()),
            r is None ==> final(self).wf(),
    {
        match self.get_index(index) {
            Some(index) => {
                proof {
                    let before = self.fields@;
                    assert forall|patched: Field| patched.name@ == before[index as int].name@
                        implies name_index(#[trigger] before.update(index as int, patched))
                        == name_index(before) by {
                        lemma_name_index_by_names(before.update(index as int, patched), before);
                    }
                }
                Some(&mut self.fields[index])
            },
            None => None,
        }
    }

    /// Another handle to the column that the reference resolves to; the
    /// elements are shared, not copied.
    pub fn column(&self, index: &Column) -> (r: Option<Array>)
        requires
            self.wf(),
        ensures
            match self.resolve(*index) {
                Some(p) => r == Some(self.spec_columns()[p as int]),
                None => r is None,
            },
    {
        match self.get_index(index) {
            Some(index) => Some(self.columns[index].clone()),
            None => None,
        }
    }

    /// Another handle to the column at a position that is known to be in
    /// range. For the engine's own use, on positions that it has resolved.
    pub(crate) fn column_unchecked(&self, index: usize) -> (a: Array)
        requires
            index < self.spec_columns().len(),
        ensures
            a == self.spec_columns()[index as int],
            self.wf() ==> a.rows() == self.spec_num_rows(),
    {
        self.columns[index].clone()
    }

    /// The columns in arrow's untyped form, in order, for arrow's own tools.
    /// The storage is shared.
    pub fn to_data(&self) -> (data: Vec<ArrayData>)
        ensures
            data.len() == self.spec_columns().len(),
            forall|i: int|
                0 <= i < data.len() ==> data_cells(#[trigger] data[i])
                    == self.spec_columns()[i].cells() && data_type(data[i])
                    == self.spec_columns()[i].dtype(),
    {
        let mut data: Vec<ArrayData> = Vec::with_capacity(self.columns.len());
        let mut i: usize = 0;
        while i < self.columns.len()
            invariant
                i <= self.columns.len(),
                data.len() == i,
                forall|k: int|
                    0 <= k < i ==> data_cells(#[trigger] data[k]) == self.columns@[k].cells()
                        && data_type(data[k]) == self.columns@[k].dtype(),
            decreases self.columns.len() - i,
        {
            data.push(self.columns[i].to_data());
            i += 1;
        }
        data
    }

    /// The view as a data frame.
    pub fn to_df(self) -> (df: DataFrame)
        ensures
            df.spec_view() == self,
    {
        DataFrame::new(self)
    }

    /// The descriptor and the column that the reference resolves to.
    pub fn subview(&self, index: &Column) -> (r: Option<(Field, Array)>)
        requires
            self.wf(),
        ensures
            match self.resolve(*index) {
                Some(p) => r == Some((self.spec_fields()[p as int], self.spec_columns()[p as int])),
                None => r is None,
            },
    {
        if let Some(position) = self.get_index(index) {
            return Some((self.fields[position].clone(), self.columns[position].clone()));
        }
        None
    }
}

impl Clone for View {
    /// A view of the same descriptors over the same columns, with a name index
    /// of its own; the elements are shared, not copied.
    fn clone(&self) -> (view: Self)
        ensures
            view.wf(),
            view.spec_fields() == self.spec_fields(),
            view.spec_columns() == self.spec_columns(),
    {
        let mut fields: Vec<Field> = Vec::with_capacity(self.fields.len());
        let mut columns: Vec<Array> = Vec::with_capacity(self.columns.len());
        let mut i: usize = 0;
        while i < self.fields.len()
            invariant
                i <= self.fields.len(),
                fields@ == self.fields@.take(i as int),
            decreases self.fields.len() - i,
        {
            fields.push(self.fields[i].clone());
            proof {
                assert(fields@ =~= self.fields@.take(i + 1));
            }
            i += 1;
        }
        let mut k: usize = 0;
        while k < self.columns.len()
            invariant
                k <= self.columns.len(),
                columns@ == self.columns@.take(k as int),
            decreases self.columns.len() - k,
        {
            columns.push(self.columns[k].clone());
            proof {
                assert(columns@ =~= self.columns@.take(k + 1));
            }
            k += 1;
        }
        proof {
            use_type_invariant(self);
            assert(self.fields@.take(self.fields.len() as int) =~= self.fields@);
            assert(self.columns@.take(self.columns.len() as int) =~= self.columns@);
        }
        View::from_parts(fields, columns)
    }
}

} // verus!
