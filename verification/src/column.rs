//! References to a column, by name or by position.

use crate::view::View;
use vstd::prelude::*;
use vstd::std_specs::convert::FromSpecImpl;
use vstd::view::View as _;

verus! {

/// A reference to a column of a view.
#[derive(Debug, PartialEq)]
pub enum Column {
    Name(String),
    Position(usize),
}

impl From<usize> for Column {
    fn from(i: usize) -> (c: Column) {
        Column::Position(i)
    }
}

impl FromSpecImpl<usize> for Column {
    open spec fn obeys_from_spec() -> bool {
        true
    }

    open spec fn from_spec(i: usize) -> Column {
        Column::Position(i)
    }
}

impl From<&str> for Column {
    fn from(i: &str) -> (c: Column)
        ensures
            c matches Column::Name(name) && name@ == i@,
    {
        Column::Name(i.to_owned())
    }
}

impl FromSpecImpl<&str> for Column {
    open spec fn obeys_from_spec() -> bool {
        false
    }

    open spec fn from_spec(i: &str) -> Column {
        Column::Name(choose|name: String| name@ == i@)
    }
}

/// A reference that was resolved against a view: the column's name and its
/// position.
pub struct CompiledColumn {
    pub name: String,
    pub index: usize,
}

impl CompiledColumn {
    /// A resolved reference to the column of the given name at the given
    /// position.
    pub fn new(name: String, index: usize) -> (c: CompiledColumn)
        ensures
            c.name == name,
            c.index == index,
    {
        CompiledColumn { name, index }
    }
}

impl Column {
    /// Tells whether the reference resolves against the view.
    pub fn validate(&self, view: &View) -> (b: bool)
        requires
            view.wf(),
        ensures
            b == (view.resolve(*self) is Some),
    {
        view.index_exists(self)
    }

    /// Resolves the reference against the view, once and for reuse: the name
    /// of the column that it resolves to, and its position.
    pub fn compile(self, view: &View) -> (r: Option<CompiledColumn>)
        requires
            view.wf(),
        ensures
            match view.resolve(self) {
                Some(p) => r matches Some(c) && c.index == p && c.name@
                    == view.spec_fields()[p as int].name@,
                None => r is None,
            },
    {
        if !view.index_exists(&self) {
            return None;
        }
        match (view.get_index(&self), view.field(&self)) {
            (Some(index), Some(field)) => Some(CompiledColumn::new(field.name().clone(), index)),
            _ => None,
        }
    }
}

impl Column {
    /// The reference as text: `Name(..)` around a name, `Position(..)` around
    /// a position in decimal.
    pub open spec fn text(self) -> Seq<char> {
        match self {
            Column::Name(name) => "Name("@ + name@ + ")"@,
            Column::Position(position) => "Position("@ + crate::utils::decimal(position as nat)
                + ")"@,
        }
    }

    /// The reference as text (see `text`).
    pub fn to_text(&self) -> (s: String)
        ensures
            s@ == self.text(),
    {
        match self {
            Column::Name(name) => String::from_str("Name(").concat(name.as_str()).concat(")"),
            Column::Position(position) => String::from_str("Position(").concat(
                crate::utils::decimal_string(*position).as_str(),
            ).concat(")"),
        }
    }
}

impl Clone for Column {
    fn clone(&self) -> (c: Self)
        ensures
            c == *self,
    {
        match self {
            Column::Name(name) => Column::Name(name.clone()),
            Column::Position(position) => Column::Position(*position),
        }
    }
}

} // verus!
