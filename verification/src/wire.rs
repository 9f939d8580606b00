//! The store's requests and responses, as far as this client fills or reads
//! them. Keys, qualifiers and values are raw bytes here.

use vstd::prelude::*;

verus! {

/// The timestamp that asks the store to stamp a cell with its own clock.
pub const SERVER_ASSIGNED_TIMESTAMP: i64 = -1;

/// The row limit that stands for "no limit".
pub const UNLIMITED_ROWS: i64 = 0;

/// The request statistics view that asks for no statistics.
pub const NO_REQUEST_STATS: i32 = 0;

/// The application profile under which every request is routed.
pub open spec fn default_profile() -> Seq<char> {
    "default"@
}

/// A mutation that sets one cell.
#[derive(Debug, Clone, PartialEq, Eq)]
pub struct SetCell {
    pub family_name: String,
    pub column_qualifier: Vec<u8>,
    pub timestamp_micros: i64,
    pub value: Vec<u8>,
}

/// The mutations of one row, applied together.
#[derive(Debug, Clone, PartialEq, Eq)]
pub struct MutateRowsEntry {
    pub row_key: Vec<u8>,
    pub mutations: Vec<SetCell>,
}

/// A batched mutation of several rows of one table.
#[derive(Debug, Clone, PartialEq, Eq)]
pub struct MutateRowsRequest {
    pub table_name: String,
    pub authorized_view_name: String,
    pub app_profile_id: String,
    pub entries: Vec<MutateRowsEntry>,
}

/// Where a row range starts.
#[derive(Debug, Clone, PartialEq, Eq)]
pub enum StartKey {
    /// From this key on, the key included.
    Closed(Vec<u8>),
    /// From this key on, the key left out.
    Open(Vec<u8>),
}

/// Where a row range ends.
#[derive(Debug, Clone, PartialEq, Eq)]
pub enum EndKey {
    /// Up to this key, the key left out.
    Open(Vec<u8>),
    /// Up to this key, the key included.
    Closed(Vec<u8>),
}

/// A contiguous range of rows. A bound that is not given is unbounded.
#[derive(Debug, Clone, PartialEq, Eq)]
pub struct RowRange {
    pub start_key: Option<StartKey>,
    pub end_key: Option<EndKey>,
}

/// A set of rows: single keys and ranges.
#[derive(Debug, Clone, PartialEq, Eq)]
pub struct RowSet {
    pub row_keys: Vec<Vec<u8>>,
    pub row_ranges: Vec<RowRange>,
}

/// A streaming read of rows of one table. It carries no filter: the whole of
/// each row is asked for.
#[derive(Debug, Clone, PartialEq, Eq)]
pub struct ReadRowsRequest {
    pub table_name: String,
    pub authorized_view_name: String,
    pub app_profile_id: String,
    pub rows: Option<RowSet>,
    pub rows_limit: i64,
    pub request_stats_view: i32,
    pub reversed: bool,
}

/// A piece of a row's contents in a read response.
#[derive(Debug, Clone, PartialEq, Eq)]
pub struct CellChunk {
    pub row_key: Vec<u8>,
    pub value: Vec<u8>,
}

/// One message of a read response stream.
#[derive(Debug, Clone, PartialEq, Eq)]
pub struct ReadRowsResponse {
    pub chunks: Vec<CellChunk>,
}

/// What a `SetCell` holds.
pub struct SetCellView {
    pub family_name: Seq<char>,
    pub column_qualifier: Seq<u8>,
    pub timestamp_micros: int,
    pub value: Seq<u8>,
}

/// What a `MutateRowsEntry` holds.
pub struct MutateRowsEntryView {
    pub row_key: Seq<u8>,
    pub mutations: Seq<SetCellView>,
}

/// What a `MutateRowsRequest` holds.
pub struct MutateRowsRequestView {
    pub table_name: Seq<char>,
    pub authorized_view_name: Seq<char>,
    pub app_profile_id: Seq<char>,
    pub entries: Seq<MutateRowsEntryView>,
}

/// One bound of a row range: its key, and whether the key itself is left out.
pub struct BoundView {
    pub key: Seq<u8>,
    pub open: bool,
}

/// What a `RowRange` holds.
pub struct RowRangeView {
    pub start: Option<BoundView>,
    pub end: Option<BoundView>,
}

/// What a `RowSet` holds.
pub struct RowSetView {
    pub row_keys: Seq<Seq<u8>>,
    pub row_ranges: Seq<RowRangeView>,
}

/// What a `ReadRowsRequest` holds.
pub struct ReadRowsRequestView {
    pub table_name: Seq<char>,
    pub authorized_view_name: Seq<char>,
    pub app_profile_id: Seq<char>,
    pub rows: Option<RowSetView>,
    pub rows_limit: int,
    pub request_stats_view: int,
    pub reversed: bool,
}

/// What a `CellChunk` holds.
pub struct CellChunkView {
    pub row_key: Seq<u8>,
    pub value: Seq<u8>,
}

impl View for SetCell {
    type V = SetCellView;

    open spec fn view(&self) -> SetCellView {
        SetCellView {
            family_name: self.family_name@,
            column_qualifier: self.column_qualifier@,
            timestamp_micros: self.timestamp_micros as int,
            value: self.value@,
        }
    }
}

impl View for MutateRowsEntry {
    type V = MutateRowsEntryView;

    open spec fn view(&self) -> MutateRowsEntryView {
        MutateRowsEntryView {
            row_key: self.row_key@,
            mutations: self.mutations@.map_values(|m: SetCell| m@),
        }
    }
}

impl View for MutateRowsRequest {
    type V = MutateRowsRequestView;

    open spec fn view(&self) -> MutateRowsRequestView {
        MutateRowsRequestView {
            table_name: self.table_name@,
            authorized_view_name: self.authorized_view_name@,
            app_profile_id: self.app_profile_id@,
            entries: self.entries@.map_values(|e: MutateRowsEntry| e@),
        }
    }
}

impl View for StartKey {
    type V = BoundView;

    open spec fn view(&self) -> BoundView {
        match *self {
            StartKey::Closed(key) => BoundView { key: key@, open: false },
            StartKey::Open(key) => BoundView { key: key@, open: true },
        }
    }
}

impl View for EndKey {
    type V = BoundView;

    open spec fn view(&self) -> BoundView {
        match *self {
            EndKey::Open(key) => BoundView { key: key@, open: true },
            EndKey::Closed(key) => BoundView { key: key@, open: false },
        }
    }
}

impl View for RowRange {
    type V = RowRangeView;

    open spec fn view(&self) -> RowRangeView {
        RowRangeView {
            start: match self.start_key {
                Some(key) => Some(key@),
                None => None,
            },
            end: match self.end_key {
                Some(key) => Some(key@),
                None => None,
            },
        }
    }
}

impl View for RowSet {
    type V = RowSetView;

    open spec fn view(&self) -> RowSetView {
        RowSetView {
            row_keys: self.row_keys@.map_values(|k: Vec<u8>| k@),
            row_ranges: self.row_ranges@.map_values(|r: RowRange| r@),
        }
    }
}

impl View for ReadRowsRequest {
    type V = ReadRowsRequestView;

    open spec fn view(&self) -> ReadRowsRequestView {
        ReadRowsRequestView {
            table_name: self.table_name@,
            authorized_view_name: self.authorized_view_name@,
            app_profile_id: self.app_profile_id@,
            rows: match self.rows {
                Some(rows) => Some(rows@),
                None => None,
            },
            rows_limit: self.rows_limit as int,
            request_stats_view: self.request_stats_view as int,
            reversed: self.reversed,
        }
    }
}

impl View for CellChunk {
    type V = CellChunkView;

    open spec fn view(&self) -> CellChunkView {
        CellChunkView { row_key: self.row_key@, value: self.value@ }
    }
}

impl View for ReadRowsResponse {
    type V = Seq<CellChunkView>;

    open spec fn view(&self) -> Seq<CellChunkView> {
        self.chunks@.map_values(|c: CellChunk| c@)
    }
}

} // verus!
