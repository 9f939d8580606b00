//! What the service in front of the client is started with, and what its two
//! endpoints ask of the client.

use vstd::prelude::*;
use vstd::string::*;
use crate::model::{MutateRowInputEntry, MutateRowsInput, ReadRowsInput};

verus! {

/// What the process is configured with.
#[derive(Debug, Clone, PartialEq, Eq)]
pub struct Config {
    /// The TCP port to listen on, as it was given; empty where none was.
    pub port: String,
}

impl View for Config {
    type V = Seq<char>;

    open spec fn view(&self) -> Seq<char> {
        self.port@
    }
}

/// The address to listen on for the port `port`: every interface, that port.
pub open spec fn bind_address_of(port: Seq<char>) -> Seq<char> {
    "0.0.0.0:"@ + port
}

/// The row key of a metric of a device: the two names and a suffix, each
/// closed off from the next by `#`.
pub open spec fn metric_row_key_of(device: Seq<char>, metric: Seq<char>, suffix: Seq<char>) -> Seq<
    char,
> {
    device + seq!['#'] + metric + seq!['#'] + suffix
}

/// The address to contact the store at.
pub open spec fn service_url_of() -> Seq<char> {
    "https://bigtable.googleapis.com"@
}

impl Config {
    /// The configuration for the port that the environment gave, if it gave
    /// one. Without one the port is empty, and no address can be bound.
    pub fn new(port: Option<String>) -> (config: Config)
        ensures
            config@ == match port {
                Some(port) => port@,
                None => Seq::empty(),
            },
    {
        match port {
            Some(port) => Config { port },
            None => Config { port: String::new() },
        }
    }

    /// The address to listen on.
    pub fn bind_address(&self) -> (address: String)
        ensures
            address@ == bind_address_of(self@),
    {
        String::from_str("0.0.0.0:").concat(self.port.as_str())
    }
}

/// The address to contact the store at.
pub fn service_url() -> (url: &'static str)
    ensures
        url@ == service_url_of(),
{
    "https://bigtable.googleapis.com"
}

/// Puts together the row key of a metric of a device.
pub fn metric_row_key(device: &str, metric: &str, suffix: &str) -> (row_key: String)
    ensures
        row_key@ == metric_row_key_of(device@, metric@, suffix@),
{
    proof {
        reveal_strlit("#");
        assert("#"@ =~= seq!['#']);
    }
    String::from_str(device).concat("#").concat(metric).concat("#").concat(suffix)
}

/// The write endpoint's row key, spelled out.
pub proof fn lemma_write_row_key()
    ensures
        metric_row_key_of("device_id"@, "cpu_usage"@, ""@) == "device_id#cpu_usage#"@,
{
    reveal_strlit("device_id");
    reveal_strlit("cpu_usage");
    reveal_strlit("");
    reveal_strlit("device_id#cpu_usage#");
    assert(metric_row_key_of("device_id"@, "cpu_usage"@, ""@) =~= "device_id#cpu_usage#"@);
}

/// What the write endpoint asks: a write to the table `metrics` that holds
/// no entries, and so changes nothing.
pub fn write_endpoint_input() -> (input: MutateRowsInput)
    ensures
        input@.table_name == "metrics"@,
        input@.row_key == "device_id#cpu_usage#"@,
        input@.entries.len() == 0,
{
    proof {
        lemma_write_row_key();
    }
    let entries: Vec<MutateRowInputEntry> = Vec::new();
    MutateRowsInput {
        table_name: String::from_str("metrics"),
        row_key: metric_row_key("device_id", "cpu_usage", ""),
        entries,
    }
}

/// What the read endpoint asks: the row `device_id#cpu_usage` of the table
/// `metrics`.
pub fn read_endpoint_input() -> (input: ReadRowsInput)
    ensures
        input@.table_name == "metrics"@,
        input@.row_key == "device_id#cpu_usage"@,
{
    ReadRowsInput {
        table_name: String::from_str("metrics"),
        row_key: String::from_str("device_id#cpu_usage"),
    }
}

} // verus!
