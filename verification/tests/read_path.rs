use client_bigtable::error::ClientError;
use client_bigtable::model::{ReadRowsEntry, ReadRowsInput, ReadRowsOutput};
use client_bigtable::read::{
    read_rows_entries, read_rows_entry, read_rows_outcome, read_rows_output, read_rows_request,
    ReadRowsReply,
};
use client_bigtable::wire::{CellChunk, EndKey, ReadRowsRequest, ReadRowsResponse, StartKey};

/// A store that keeps what it was asked and answers as it was told to.
struct ScriptedStore {
    asked: Vec<ReadRowsRequest>,
    reply: ReadRowsReply,
}

impl ScriptedStore {
    fn read_rows(&mut self, request: ReadRowsRequest) -> ReadRowsReply {
        self.asked.push(request);
        self.reply.clone()
    }
}

fn read_rows(store: &mut ScriptedStore, input: ReadRowsInput) -> Result<ReadRowsOutput, ClientError> {
    let request = read_rows_request(input);
    read_rows_outcome(store.read_rows(request))
}

fn chunk(row_key: &[u8], value: &[u8]) -> CellChunk {
    CellChunk { row_key: row_key.to_vec(), value: value.to_vec() }
}

fn entry(row_key: &str, value: &str) -> ReadRowsEntry {
    ReadRowsEntry { row_key: String::from(row_key), value: String::from(value) }
}

#[test]
fn a_point_read_asks_for_an_open_range_at_the_key() {
    let request = read_rows_request(ReadRowsInput {
        table_name: String::from("t"),
        row_key: String::from("r1"),
    });
    assert_eq!(request.table_name, "t");
    assert_eq!(request.authorized_view_name, "");
    assert_eq!(request.app_profile_id, "default");
    assert_eq!(request.rows_limit, 0);
    assert_eq!(request.request_stats_view, 0);
    assert!(!request.reversed);
    let rows = request.rows.expect("a row set");
    assert!(rows.row_keys.is_empty());
    assert_eq!(rows.row_ranges.len(), 1);
    assert_eq!(rows.row_ranges[0].start_key, Some(StartKey::Open(b"r1".to_vec())));
    assert_eq!(rows.row_ranges[0].end_key, Some(EndKey::Open(b"r1".to_vec())));
}

#[test]
fn the_range_keeps_a_key_beyond_ascii_byte_for_byte() {
    let request = read_rows_request(ReadRowsInput {
        table_name: String::from("metrics"),
        row_key: String::from("gerät#é"),
    });
    let rows = request.rows.expect("a row set");
    let key = "gerät#é".as_bytes().to_vec();
    assert_eq!(rows.row_ranges[0].start_key, Some(StartKey::Open(key.clone())));
    assert_eq!(rows.row_ranges[0].end_key, Some(EndKey::Open(key)));
}

#[test]
fn an_empty_key_gives_an_empty_open_range() {
    let request = read_rows_request(ReadRowsInput {
        table_name: String::from("t"),
        row_key: String::new(),
    });
    let rows = request.rows.expect("a row set");
    assert_eq!(rows.row_ranges[0].start_key, Some(StartKey::Open(Vec::new())));
    assert_eq!(rows.row_ranges[0].end_key, Some(EndKey::Open(Vec::new())));
}

#[test]
fn a_chunk_that_is_not_text_is_passed_over() {
    let mut store = ScriptedStore {
        asked: Vec::new(),
        reply: ReadRowsReply::Message(Some(ReadRowsResponse {
            chunks: vec![chunk(b"r1", b"42"), chunk(b"r1", &[0xff, 0xfe])],
        })),
    };
    let output = read_rows(
        &mut store,
        ReadRowsInput { table_name: String::from("t"), row_key: String::from("r1") },
    );
    assert_eq!(output, Ok(ReadRowsOutput { entries: vec![entry("r1", "42")] }));
    assert_eq!(store.asked.len(), 1);
    assert_eq!(store.asked[0].table_name, "t");
}

#[test]
fn a_row_key_that_is_not_text_drops_the_chunk() {
    assert_eq!(read_rows_entry(&chunk(&[0xc3, 0x28], b"1")), None);
    assert_eq!(read_rows_entry(&chunk(b"k", &[0x80])), None);
    assert_eq!(read_rows_entry(&chunk(&[0xff], &[0xff])), None);
    assert_eq!(read_rows_entry(&chunk(b"k", b"1")), Some(entry("k", "1")));
}

#[test]
fn the_cells_that_stay_keep_their_order() {
    let chunks = vec![
        chunk(b"a", b"1"),
        chunk(&[0xff], b"2"),
        chunk(b"c", b"3"),
        chunk(b"d", &[0xe2, 0x82]),
        chunk(b"e", b"5"),
        chunk(b"a", b"6"),
    ];
    assert_eq!(
        read_rows_entries(&chunks),
        vec![entry("a", "1"), entry("c", "3"), entry("e", "5"), entry("a", "6")]
    );
}

#[test]
fn dropping_the_unreadable_chunk_first_changes_nothing() {
    let all = vec![chunk(b"a", b"1"), chunk(b"b", &[0xf8]), chunk(b"c", b"3")];
    let without = vec![chunk(b"a", b"1"), chunk(b"c", b"3")];
    assert_eq!(read_rows_entries(&all), read_rows_entries(&without));
}

#[test]
fn reading_two_runs_is_reading_each() {
    let head = vec![chunk(b"a", b"1"), chunk(&[0xff], b"x")];
    let tail = vec![chunk(b"b", &[0xc0]), chunk(b"c", b"3")];
    let mut whole = head.clone();
    whole.extend(tail.clone());
    let mut expected = read_rows_entries(&head);
    expected.extend(read_rows_entries(&tail));
    assert_eq!(read_rows_entries(&whole), expected);
    assert_eq!(expected, vec![entry("a", "1"), entry("c", "3")]);
}

#[test]
fn readable_chunks_all_stay() {
    let chunks = vec![chunk("é".as_bytes(), "日本".as_bytes()), chunk(b"", b""), chunk(b"k", b"v")];
    assert_eq!(
        read_rows_entries(&chunks),
        vec![entry("é", "日本"), entry("", ""), entry("k", "v")]
    );
}

#[test]
fn a_message_without_chunks_gives_no_entries() {
    let output = read_rows_outcome(ReadRowsReply::Message(Some(ReadRowsResponse {
        chunks: Vec::new(),
    })));
    assert_eq!(output, Ok(ReadRowsOutput { entries: Vec::new() }));
}

#[test]
fn a_response_without_a_message_gives_no_entries() {
    assert_eq!(read_rows_output(None), ReadRowsOutput { entries: Vec::new() });
    assert_eq!(
        read_rows_outcome(ReadRowsReply::Message(None)),
        Ok(ReadRowsOutput { entries: Vec::new() })
    );
}

#[test]
fn only_unreadable_chunks_give_no_entries() {
    let response = ReadRowsResponse { chunks: vec![chunk(&[0xff], b"1"), chunk(b"k", &[0xff])] };
    assert_eq!(read_rows_output(Some(response)), ReadRowsOutput { entries: Vec::new() });
}

#[test]
fn a_refused_read_carries_its_cause() {
    let error = read_rows_outcome(ReadRowsReply::CallFailed(String::from("quota exceeded")))
        .unwrap_err();
    assert!(error.message().contains("quota exceeded"));
    assert_eq!(error.message(), "failed to read rows: quota exceeded");
}

#[test]
fn a_broken_response_carries_its_cause() {
    let error = read_rows_outcome(ReadRowsReply::MessageFailed(String::from("stream reset")))
        .unwrap_err();
    assert!(error.message().contains("stream reset"));
    assert_eq!(error.message(), "failed to read response: stream reset");
}
