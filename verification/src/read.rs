//! Reading a row: from a row key to the store's streaming read, and from the
//! first message of its response to the cells that can be read as text.

use vstd::prelude::*;
use vstd::string::*;
use crate::error::{read_response_context, read_rows_context, ClientError};
use crate::model::{ReadRowsEntry, ReadRowsEntryView, ReadRowsInput, ReadRowsInputView, ReadRowsOutput};
use crate::text::{contains_text, decode, decoded, encode, encoded, is_text};
use crate::wire::{
    default_profile, BoundView, CellChunk, CellChunkView, EndKey, ReadRowsRequest,
    ReadRowsRequestView, ReadRowsResponse, RowRange, RowRangeView, RowSet, RowSetView, StartKey,
    NO_REQUEST_STATS, UNLIMITED_ROWS,
};

verus! {

/// The range that a read of the row `row_key` asks for: it starts and ends at
/// that very key, and leaves the key out at both ends.
pub open spec fn point_range_of(row_key: Seq<char>) -> RowRangeView {
    RowRangeView {
        start: Some(BoundView { key: encoded(row_key), open: true }),
        end: Some(BoundView { key: encoded(row_key), open: true }),
    }
}

/// The streaming read for `input`: the one range of its row key and no
/// single keys, against the input's table, under the default profile and
/// outside any authorized view, with no row limit, no request statistics, in
/// forward order.
pub open spec fn read_rows_request_of(input: ReadRowsInputView) -> ReadRowsRequestView {
    ReadRowsRequestView {
        table_name: input.table_name,
        authorized_view_name: Seq::empty(),
        app_profile_id: default_profile(),
        rows: Some(
            RowSetView { row_keys: Seq::empty(), row_ranges: seq![point_range_of(input.row_key)] },
        ),
        rows_limit: UNLIMITED_ROWS as int,
        request_stats_view: NO_REQUEST_STATS as int,
        reversed: false,
    }
}

/// Whether a chunk can be handed on: both its row key and its value are text.
pub open spec fn is_readable(chunk: CellChunkView) -> bool {
    is_text(chunk.row_key) && is_text(chunk.value)
}

/// The cell that a readable chunk stands for.
pub open spec fn entry_of_chunk(chunk: CellChunkView) -> ReadRowsEntryView
    recommends
        is_readable(chunk),
{
    ReadRowsEntryView { row_key: decoded(chunk.row_key), value: decoded(chunk.value) }
}

/// The cells of `chunks`: the readable chunks, each as its cell, in the order
/// in which they came. The others are passed over.
pub open spec fn entries_of(chunks: Seq<CellChunkView>) -> Seq<ReadRowsEntryView> {
    chunks.filter(|c: CellChunkView| is_readable(c)).map_values(
        |c: CellChunkView| entry_of_chunk(c),
    )
}

/// The cells of two runs of chunks, one after the other, are the cells of the
/// first followed by the cells of the second.
pub proof fn lemma_entries_of_concat(head: Seq<CellChunkView>, tail: Seq<CellChunkView>)
    ensures
        entries_of(head + tail) == entries_of(head) + entries_of(tail),
{
    let readable = |c: CellChunkView| is_readable(c);
    Seq::filter_distributes_over_add(head, tail, readable);
    assert(entries_of(head + tail) =~= entries_of(head) + entries_of(tail));
}

/// A chunk is kept as its cell if it is readable, and passed over if not.
pub proof fn lemma_entries_of_one(chunk: CellChunkView)
    ensures
        entries_of(seq![chunk]) == if is_readable(chunk) {
            seq![entry_of_chunk(chunk)]
        } else {
            Seq::empty()
        },
{
    let readable = |c: CellChunkView| is_readable(c);
    let none = Seq::<CellChunkView>::empty();
    reveal(Seq::filter);
    assert(seq![chunk].drop_last() =~= none);
    assert(none.filter(readable) =~= none);
    assert(seq![chunk].filter(readable) =~= if is_readable(chunk) {
        seq![chunk]
    } else {
        none
    });
    assert(entries_of(seq![chunk]) =~= if is_readable(chunk) {
        seq![entry_of_chunk(chunk)]
    } else {
        Seq::empty()
    });
}

/// A chunk whose row key or value is not text leaves no trace: the cells are
/// those of the chunks without it.
pub proof fn lemma_unreadable_chunk_is_omitted(chunks: Seq<CellChunkView>, at: int)
    requires
        0 <= at < chunks.len(),
        !is_readable(chunks[at]),
    ensures
        entries_of(chunks) == entries_of(chunks.remove(at)),
{
    let head = chunks.take(at);
    let tail = chunks.skip(at + 1);
    assert(chunks =~= head + (seq![chunks[at]] + tail));
    assert(chunks.remove(at) =~= head + tail);
    lemma_entries_of_concat(head, seq![chunks[at]] + tail);
    lemma_entries_of_concat(seq![chunks[at]], tail);
    lemma_entries_of_one(chunks[at]);
    lemma_entries_of_concat(head, tail);
    assert(Seq::<ReadRowsEntryView>::empty() + entries_of(tail) =~= entries_of(tail));
}

/// Where every chunk is readable, each gives its cell, at its own place.
pub proof fn lemma_readable_chunks_are_kept(chunks: Seq<CellChunkView>)
    requires
        forall|i: int| 0 <= i < chunks.len() ==> is_readable(#[trigger] chunks[i]),
    ensures
        entries_of(chunks) == chunks.map_values(|c: CellChunkView| entry_of_chunk(c)),
    decreases chunks.len(),
{
    if chunks.len() == 0 {
        lemma_no_chunks_no_entries();
        assert(chunks =~= Seq::empty());
        assert(chunks.map_values(|c: CellChunkView| entry_of_chunk(c)) =~= Seq::empty());
    } else {
        let init = chunks.drop_last();
        let last = chunks.last();
        lemma_readable_chunks_are_kept(init);
        assert(chunks =~= init + seq![last]);
        lemma_entries_of_concat(init, seq![last]);
        lemma_entries_of_one(last);
        assert(chunks.map_values(|c: CellChunkView| entry_of_chunk(c)) =~= init.map_values(
            |c: CellChunkView| entry_of_chunk(c),
        ) + seq![entry_of_chunk(last)]);
    }
}

/// No chunks, no cells.
pub proof fn lemma_no_chunks_no_entries()
    ensures
        entries_of(Seq::empty()) == Seq::<ReadRowsEntryView>::empty(),
{
    reveal(Seq::filter);
    assert(Seq::<CellChunkView>::empty().filter(|c: CellChunkView| is_readable(c))
        =~= Seq::<CellChunkView>::empty());
    assert(entries_of(Seq::empty()) =~= Seq::<ReadRowsEntryView>::empty());
}

/// Shapes the streaming read that `input` asks for.
pub fn read_rows_request(input: ReadRowsInput) -> (request: ReadRowsRequest)
    ensures
        request@ == read_rows_request_of(input@),
{
    let range = RowRange {
        start_key: Some(StartKey::Open(encode(input.row_key.as_str()))),
        end_key: Some(EndKey::Open(encode(input.row_key.as_str()))),
    };
    let mut row_ranges: Vec<RowRange> = Vec::new();
    row_ranges.push(range);
    let rows = RowSet { row_keys: Vec::new(), row_ranges };
    proof {
        assert(rows@.row_keys =~= Seq::empty());
        assert(rows@.row_ranges =~= seq![point_range_of(input@.row_key)]);
    }
    ReadRowsRequest {
        table_name: input.table_name,
        authorized_view_name: String::new(),
        app_profile_id: String::from_str("default"),
        rows: Some(rows),
        rows_limit: UNLIMITED_ROWS,
        request_stats_view: NO_REQUEST_STATS,
        reversed: false,
    }
}

/// Reads one chunk as a cell; `None` where its row key or its value is not
/// text.
pub fn read_rows_entry(chunk: &CellChunk) -> (entry: Option<ReadRowsEntry>)
    ensures
        entry.is_some() == is_readable(chunk@),
        entry matches Some(e) ==> e@ == entry_of_chunk(chunk@),
{
    let row_key = match decode(chunk.row_key.clone()) {
        Some(row_key) => row_key,
        None => { return None; },
    };
    let value = match decode(chunk.value.clone()) {
        Some(value) => value,
        None => { return None; },
    };
    Some(ReadRowsEntry { row_key, value })
}

/// Reads the chunks of one message as cells, passing over those that are not
/// text.
pub fn read_rows_entries(chunks: &Vec<CellChunk>) -> (entries: Vec<ReadRowsEntry>)
    ensures
        entries@.map_values(|e: ReadRowsEntry| e@) == entries_of(
            chunks@.map_values(|c: CellChunk| c@),
        ),
        chunks@.len() == 0 ==> entries@.len() == 0,
{
    let ghost all = chunks@.map_values(|c: CellChunk| c@);
    let mut entries: Vec<ReadRowsEntry> = Vec::new();
    let mut i: usize = 0;
    proof {
        lemma_no_chunks_no_entries();
        assert(all.take(0) =~= Seq::empty());
        assert(entries@.map_values(|e: ReadRowsEntry| e@) =~= Seq::empty());
    }
    while i < chunks.len()
        invariant
            i <= chunks.len(),
            all == chunks@.map_values(|c: CellChunk| c@),
            entries@.map_values(|e: ReadRowsEntry| e@) == entries_of(all.take(i as int)),
        decreases chunks.len() - i,
    {
        let entry = read_rows_entry(&chunks[i]);
        proof {
            let done = all.take(i as int);
            assert(all.take(i + 1) =~= done + seq![all[i as int]]);
            lemma_entries_of_concat(done, seq![all[i as int]]);
            lemma_entries_of_one(all[i as int]);
        }
        match entry {
            Some(entry) => {
                proof {
                    assert(entries@.push(entry).map_values(|e: ReadRowsEntry| e@)
                        =~= entries@.map_values(|e: ReadRowsEntry| e@) + seq![entry@]);
                }
                entries.push(entry);
            },
            None => {
                proof {
                    let kept = entries@.map_values(|e: ReadRowsEntry| e@);
                    assert(kept + Seq::<ReadRowsEntryView>::empty() =~= kept);
                }
            },
        }
        i += 1;
    }
    proof {
        assert(all.take(i as int) =~= all);
        if chunks@.len() == 0 {
            lemma_no_chunks_no_entries();
            assert(all =~= Seq::empty());
            assert(entries@.map_values(|e: ReadRowsEntry| e@).len() == 0);
        }
    }
    entries
}

/// The output for the first message of a response, or for a response that
/// ended before any message: then it is empty.
pub fn read_rows_output(message: Option<ReadRowsResponse>) -> (output: ReadRowsOutput)
    ensures
        output@ == match message {
            Some(response) => entries_of(response@),
            None => Seq::empty(),
        },
        message matches Some(response) ==> response@.len() == 0 ==> output@.len() == 0,
{
    match message {
        Some(response) => ReadRowsOutput { entries: read_rows_entries(&response.chunks) },
        None => {
            let output = ReadRowsOutput { entries: Vec::new() };
            proof {
                assert(output@ =~= Seq::empty());
            }
            output
        },
    }
}

/// How a streaming read went, up to the first message of its response.
#[derive(Debug, Clone, PartialEq, Eq)]
pub enum ReadRowsReply {
    /// The call was refused or did not get through; the cause.
    CallFailed(String),
    /// The call was accepted, but no message could be received; the cause.
    MessageFailed(String),
    /// The call was accepted and the first message came, or the response
    /// ended without one.
    Message(Option<ReadRowsResponse>),
}

/// What the caller is told once the store has answered the read.
///
/// A failure carries its cause inside its message. A message gives its
/// readable cells, and a response without a message gives no cells: neither
/// is a failure.
pub fn read_rows_outcome(reply: ReadRowsReply) -> (outcome: Result<ReadRowsOutput, ClientError>)
    ensures
        match reply {
            ReadRowsReply::CallFailed(cause) => outcome matches Err(error) && error@
                == read_rows_context() + cause@ && contains_text(error@, cause@),
            ReadRowsReply::MessageFailed(cause) => outcome matches Err(error) && error@
                == read_response_context() + cause@ && contains_text(error@, cause@),
            ReadRowsReply::Message(Some(response)) => outcome matches Ok(output) && output@
                == entries_of(response@) && (response@.len() == 0 ==> output@.len() == 0),
            ReadRowsReply::Message(None) => outcome matches Ok(output) && output@.len() == 0,
        },
{
    match reply {
        ReadRowsReply::CallFailed(cause) => Err(ClientError::read_rows(cause.as_str())),
        ReadRowsReply::MessageFailed(cause) => Err(ClientError::read_response(cause.as_str())),
        ReadRowsReply::Message(message) => Ok(read_rows_output(message)),
    }
}

} // verus!
