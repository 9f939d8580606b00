//! The values that callers hand to the client and get back from it.

use vstd::prelude::*;

verus! {

/// One cell write: a value for a column of a family.
#[derive(Debug, Clone, PartialEq, Eq)]
pub struct MutateRowInputMutation {
    pub family_name: String,
    pub column_qualifier: String,
    pub value: String,
}

/// All cell writes for one row of a batch.
#[derive(Debug, Clone, PartialEq, Eq)]
pub struct MutateRowInputEntry {
    pub row_key: String,
    pub mutations: Vec<MutateRowInputMutation>,
}

/// A batch of row writes against one table.
///
/// The `row_key` at this level is carried but never sent: each entry names
/// its own row.
#[derive(Debug, Clone, PartialEq, Eq)]
pub struct MutateRowsInput {
    pub table_name: String,
    pub row_key: String,
    pub entries: Vec<MutateRowInputEntry>,
}

/// A read of exactly one row of a table.
#[derive(Debug, Clone, PartialEq, Eq)]
pub struct ReadRowsInput {
    pub table_name: String,
    pub row_key: String,
}

/// One cell that was read.
#[derive(Debug, Clone, PartialEq, Eq)]
pub struct ReadRowsEntry {
    pub row_key: String,
    pub value: String,
}

/// The cells that a read gave, in the order in which they came.
#[derive(Debug, Clone, PartialEq, Eq)]
pub struct ReadRowsOutput {
    pub entries: Vec<ReadRowsEntry>,
}

/// What a `MutateRowInputMutation` holds.
pub struct MutationView {
    pub family_name: Seq<char>,
    pub column_qualifier: Seq<char>,
    pub value: Seq<char>,
}

/// What a `MutateRowInputEntry` holds.
pub struct EntryView {
    pub row_key: Seq<char>,
    pub mutations: Seq<MutationView>,
}

/// What a `MutateRowsInput` holds.
pub struct MutateRowsInputView {
    pub table_name: Seq<char>,
    pub row_key: Seq<char>,
    pub entries: Seq<EntryView>,
}

/// What a `ReadRowsInput` holds.
pub struct ReadRowsInputView {
    pub table_name: Seq<char>,
    pub row_key: Seq<char>,
}

/// What a `ReadRowsEntry` holds.
pub struct ReadRowsEntryView {
    pub row_key: Seq<char>,
    pub value: Seq<char>,
}

impl View for MutateRowInputMutation {
    type V = MutationView;

    open spec fn view(&self) -> MutationView {
        MutationView {
            family_name: self.family_name@,
            column_qualifier: self.column_qualifier@,
            value: self.value@,
        }
    }
}

impl View for MutateRowInputEntry {
    type V = EntryView;

    open spec fn view(&self) -> EntryView {
        EntryView {
            row_key: self.row_key@,
            mutations: self.mutations@.map_values(|m: MutateRowInputMutation| m@),
        }
    }
}

impl View for MutateRowsInput {
    type V = MutateRowsInputView;

    open spec fn view(&self) -> MutateRowsInputView {
        MutateRowsInputView {
            table_name: self.table_name@,
            row_key: self.row_key@,
            entries: self.entries@.map_values(|e: MutateRowInputEntry| e@),
        }
    }
}

impl View for ReadRowsInput {
    type V = ReadRowsInputView;

    open spec fn view(&self) -> ReadRowsInputView {
        ReadRowsInputView { table_name: self.table_name@, row_key: self.row_key@ }
    }
}

impl View for ReadRowsEntry {
    type V = ReadRowsEntryView;

    open spec fn view(&self) -> ReadRowsEntryView {
        ReadRowsEntryView { row_key: self.row_key@, value: self.value@ }
    }
}

impl View for ReadRowsOutput {
    type V = Seq<ReadRowsEntryView>;

    open spec fn view(&self) -> Seq<ReadRowsEntryView> {
        self.entries@.map_values(|e: ReadRowsEntry| e@)
    }
}

} // verus!
