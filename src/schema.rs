//! Tables as the statements see them: a name and the writable columns.
use vstd::prelude::*;
use vstd::string::*;

verus! {

/// A column of a table besides `id`, `createdAt` and `updatedAt`, which the
/// database assigns.
#[derive(Debug, Clone)]
pub struct Column {
    /// The column's name as the database spells it (case matters).
    pub name: String,
    /// Whether a create must supply it.
    pub required: bool,
}

/// A table: its name and its writable columns in declaration order.
#[derive(Debug, Clone)]
pub struct Schema {
    pub table: String,
    pub columns: Vec<Column>,
}

} // verus!

verus! {

/// What a schema says, as plain sequences.
pub struct TableSpec {
    pub table: Seq<char>,
    pub columns: Seq<Seq<char>>,
    pub required: Seq<bool>,
}

impl View for Schema {
    type V = TableSpec;

    open spec fn view(&self) -> TableSpec {
        TableSpec {
            table: self.table@,
            columns: Seq::new(self.columns@.len(), |i: int| self.columns@[i].name@),
            required: Seq::new(self.columns@.len(), |i: int| self.columns@[i].required),
        }
    }
}

} // verus!

verus! {

impl Column {
    pub fn new(name: &str, required: bool) -> (r: Column)
        ensures
            r.name@ == name@,
            r.required == required,
    {
        Column { name: String::from_str(name), required }
    }
}

} // verus!
