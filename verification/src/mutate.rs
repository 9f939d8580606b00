//! Writing rows: from a batch of row writes to the store's batched mutation,
//! and from the store's answer to the caller's.

use vstd::prelude::*;
use vstd::string::*;
use crate::error::{mutate_rows_context, ClientError};
use crate::model::{
    EntryView, MutateRowInputEntry, MutateRowInputMutation, MutateRowsInput, MutateRowsInputView,
    MutationView,
};
use crate::text::{contains_text, decoded, encode, encoded, is_text, lemma_encoding_is_lossless};
use crate::wire::{
    default_profile, MutateRowsEntry, MutateRowsEntryView, MutateRowsRequest,
    MutateRowsRequestView, SetCell, SetCellView, SERVER_ASSIGNED_TIMESTAMP,
};

verus! {

/// The cell write that `mutation` asks for: the family as it is, qualifier
/// and value as bytes, stamped by the store.
pub open spec fn set_cell_of(mutation: MutationView) -> SetCellView {
    SetCellView {
        family_name: mutation.family_name,
        column_qualifier: encoded(mutation.column_qualifier),
        timestamp_micros: SERVER_ASSIGNED_TIMESTAMP as int,
        value: encoded(mutation.value),
    }
}

/// The wire entry for `entry`: its own row key as bytes, and one cell write
/// for each of its mutations, in their order.
pub open spec fn entry_of(entry: EntryView) -> MutateRowsEntryView {
    MutateRowsEntryView {
        row_key: encoded(entry.row_key),
        mutations: entry.mutations.map_values(|m: MutationView| set_cell_of(m)),
    }
}

/// The batched mutation for `input`: one wire entry for each entry, in their
/// order, against the input's table, under the default profile and outside
/// any authorized view. The input's own row key takes no part.
pub open spec fn mutate_rows_request_of(input: MutateRowsInputView) -> MutateRowsRequestView {
    MutateRowsRequestView {
        table_name: input.table_name,
        authorized_view_name: Seq::empty(),
        app_profile_id: default_profile(),
        entries: input.entries.map_values(|e: EntryView| entry_of(e)),
    }
}

/// The wire request holds as many entries as the input, each with as many
/// mutations as its own entry, and every row key, qualifier and value in it
/// reads back as the text it was made from.
pub proof fn lemma_request_mirrors_input(input: MutateRowsInputView)
    ensures
        mutate_rows_request_of(input).entries.len() == input.entries.len(),
        forall|i: int|
            #![trigger mutate_rows_request_of(input).entries[i]]
            0 <= i < input.entries.len() ==> {
                let sent = mutate_rows_request_of(input).entries[i];
                let asked = input.entries[i];
                &&& sent.mutations.len() == asked.mutations.len()
                &&& is_text(sent.row_key)
                &&& decoded(sent.row_key) == asked.row_key
            },
        forall|i: int, j: int|
            #![trigger mutate_rows_request_of(input).entries[i].mutations[j]]
            0 <= i < input.entries.len() && 0 <= j < input.entries[i].mutations.len() ==> {
                let sent = mutate_rows_request_of(input).entries[i].mutations[j];
                let asked = input.entries[i].mutations[j];
                &&& sent.family_name == asked.family_name
                &&& sent.timestamp_micros == SERVER_ASSIGNED_TIMESTAMP
                &&& is_text(sent.column_qualifier)
                &&& decoded(sent.column_qualifier) == asked.column_qualifier
                &&& is_text(sent.value)
                &&& decoded(sent.value) == asked.value
            },
{
    let request = mutate_rows_request_of(input);
    assert forall|i: int| 0 <= i < input.entries.len() implies {
        let sent = #[trigger] request.entries[i];
        let asked = input.entries[i];
        &&& sent.mutations.len() == asked.mutations.len()
        &&& is_text(sent.row_key)
        &&& decoded(sent.row_key) == asked.row_key
    } by {
        lemma_encoding_is_lossless(input.entries[i].row_key);
    }
    assert forall|i: int, j: int|
        0 <= i < input.entries.len() && 0 <= j < input.entries[i].mutations.len() implies {
        let sent = #[trigger] request.entries[i].mutations[j];
        let asked = input.entries[i].mutations[j];
        &&& sent.family_name == asked.family_name
        &&& sent.timestamp_micros == SERVER_ASSIGNED_TIMESTAMP
        &&& is_text(sent.column_qualifier)
        &&& decoded(sent.column_qualifier) == asked.column_qualifier
        &&& is_text(sent.value)
        &&& decoded(sent.value) == asked.value
    } by {
        lemma_encoding_is_lossless(input.entries[i].mutations[j].column_qualifier);
        lemma_encoding_is_lossless(input.entries[i].mutations[j].value);
    }
}

/// Shapes one cell write.
pub fn set_cell(mutation: &MutateRowInputMutation) -> (cell: SetCell)
    ensures
        cell@ == set_cell_of(mutation@),
{
    SetCell {
        family_name: mutation.family_name.clone(),
        column_qualifier: encode(mutation.column_qualifier.as_str()),
        timestamp_micros: SERVER_ASSIGNED_TIMESTAMP,
        value: encode(mutation.value.as_str()),
    }
}

/// Shapes the wire entry of one row.
pub fn mutate_rows_entry(entry: &MutateRowInputEntry) -> (sent: MutateRowsEntry)
    ensures
        sent@ == entry_of(entry@),
{
    let mut mutations: Vec<SetCell> = Vec::new();
    let mut i: usize = 0;
    while i < entry.mutations.len()
        invariant
            i <= entry.mutations.len(),
            mutations@.map_values(|m: SetCell| m@) == entry@.mutations.take(i as int).map_values(
                |m: MutationView| set_cell_of(m),
            ),
        decreases entry.mutations.len() - i,
    {
        let cell = set_cell(&entry.mutations[i]);
        proof {
            let done = entry@.mutations.take(i as int);
            assert(entry@.mutations.take(i + 1) =~= done.push(entry@.mutations[i as int]));
            assert(mutations@.push(cell).map_values(|m: SetCell| m@) =~= mutations@.map_values(
                |m: SetCell| m@,
            ).push(cell@));
            assert(done.push(entry@.mutations[i as int]).map_values(
                |m: MutationView| set_cell_of(m),
            ) =~= done.map_values(|m: MutationView| set_cell_of(m)).push(
                set_cell_of(entry@.mutations[i as int]),
            ));
        }
        mutations.push(cell);
        i += 1;
    }
    proof {
        assert(entry@.mutations.take(i as int) =~= entry@.mutations);
    }
    MutateRowsEntry { row_key: encode(entry.row_key.as_str()), mutations }
}

/// Shapes the batched mutation that `input` asks for.
pub fn mutate_rows_request(input: MutateRowsInput) -> (request: MutateRowsRequest)
    ensures
        request@ == mutate_rows_request_of(input@),
{
    let mut entries: Vec<MutateRowsEntry> = Vec::new();
    let mut i: usize = 0;
    while i < input.entries.len()
        invariant
            i <= input.entries.len(),
            entries@.map_values(|e: MutateRowsEntry| e@) == input@.entries.take(
                i as int,
            ).map_values(|e: EntryView| entry_of(e)),
        decreases input.entries.len() - i,
    {
        let sent = mutate_rows_entry(&input.entries[i]);
        proof {
            let done = input@.entries.take(i as int);
            assert(input@.entries.take(i + 1) =~= done.push(input@.entries[i as int]));
            assert(entries@.push(sent).map_values(|e: MutateRowsEntry| e@) =~= entries@.map_values(
                |e: MutateRowsEntry| e@,
            ).push(sent@));
            assert(done.push(input@.entries[i as int]).map_values(|e: EntryView| entry_of(e))
                =~= done.map_values(|e: EntryView| entry_of(e)).push(
                entry_of(input@.entries[i as int]),
            ));
        }
        entries.push(sent);
        i += 1;
    }
    proof {
        assert(input@.entries.take(i as int) =~= input@.entries);
    }
    MutateRowsRequest {
        table_name: input.table_name,
        authorized_view_name: String::new(),
        app_profile_id: String::from_str("default"),
        entries,
    }
}

/// What the caller is told once the store has answered the batched mutation.
///
/// `sent` is `Ok` where the call came back, whatever it said of single
/// entries, and else holds the cause. The call is all or nothing to the
/// caller: an answer is success, and a cause comes back inside the failure's
/// message.
pub fn mutate_row_outcome(sent: Result<(), String>) -> (outcome: Result<(), ClientError>)
    ensures
        sent is Ok ==> outcome is Ok,
        sent matches Err(cause) ==> outcome matches Err(error) && error@ == mutate_rows_context()
            + cause@ && contains_text(error@, cause@),
{
    match sent {
        Ok(()) => Ok(()),
        Err(cause) => Err(ClientError::mutate_rows(cause.as_str())),
    }
}

} // verus!
