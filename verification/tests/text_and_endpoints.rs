use client_bigtable::endpoint::{
    metric_row_key, read_endpoint_input, service_url, write_endpoint_input, Config,
};
use client_bigtable::error::ClientError;
use client_bigtable::mutate::mutate_rows_request;
use client_bigtable::read::read_rows_request;
use client_bigtable::text::{decode, encode};
use client_bigtable::wire::{EndKey, StartKey, NO_REQUEST_STATS, UNLIMITED_ROWS};

#[test]
fn encode_gives_the_utf8_bytes() {
    assert_eq!(encode(""), Vec::<u8>::new());
    assert_eq!(encode("r1"), vec![0x72, 0x31]);
    assert_eq!(encode("é"), vec![0xc3, 0xa9]);
    assert_eq!(encode("€"), vec![0xe2, 0x82, 0xac]);
    assert_eq!(encode("𝄞"), vec![0xf0, 0x9d, 0x84, 0x9e]);
}

#[test]
fn decode_reads_utf8_and_nothing_else() {
    assert_eq!(decode(Vec::new()), Some(String::new()));
    assert_eq!(decode(vec![0x34, 0x32]), Some(String::from("42")));
    assert_eq!(decode(vec![0xc3, 0xa9]), Some(String::from("é")));
    assert_eq!(decode(vec![0xf0, 0x9d, 0x84, 0x9e]), Some(String::from("𝄞")));
    assert_eq!(decode(vec![0xff]), None);
    assert_eq!(decode(vec![0xc3]), None);
    assert_eq!(decode(vec![0xc0, 0xaf]), None);
    assert_eq!(decode(vec![0xed, 0xa0, 0x80]), None);
    assert_eq!(decode(vec![0x61, 0x80, 0x62]), None);
}

#[test]
fn decode_undoes_encode() {
    for text in ["", "r1", "device_id#cpu_usage", "gerät", "日本語", "a\u{0}b", "𝄞𝄞"] {
        assert_eq!(decode(encode(text)), Some(String::from(text)));
    }
}

#[test]
fn each_failure_names_what_failed() {
    assert_eq!(
        ClientError::initialization("no credentials").message(),
        "failed to initialize bigtable client: no credentials"
    );
    assert_eq!(ClientError::mutate_rows("boom").message(), "failed to mutate rows: boom");
    assert_eq!(ClientError::read_rows("boom").message(), "failed to read rows: boom");
    assert_eq!(ClientError::read_response("boom").message(), "failed to read response: boom");
}

#[test]
fn a_failure_keeps_a_cause_beyond_ascii() {
    let error = ClientError::initialization("zeitüberschreitung: 5 s");
    assert!(error.message().contains("zeitüberschreitung: 5 s"));
    assert!(error.message().ends_with("zeitüberschreitung: 5 s"));
}

#[test]
fn the_sentinels_are_those_of_the_store() {
    assert_eq!(UNLIMITED_ROWS, 0);
    assert_eq!(NO_REQUEST_STATS, 0);
}

#[test]
fn the_store_is_contacted_at_its_public_address() {
    assert_eq!(service_url(), "https://bigtable.googleapis.com");
}

#[test]
fn the_bind_address_is_every_interface_at_the_port() {
    assert_eq!(Config::new(Some(String::from("8080"))).bind_address(), "0.0.0.0:8080");
    assert_eq!(Config { port: String::from("3000") }.bind_address(), "0.0.0.0:3000");
}

#[test]
fn without_a_port_the_port_is_empty() {
    let config = Config::new(None);
    assert_eq!(config.port, "");
    assert_eq!(config.bind_address(), "0.0.0.0:");
}

#[test]
fn a_metric_row_key_is_closed_off_by_hashes() {
    assert_eq!(metric_row_key("device_id", "cpu_usage", ""), "device_id#cpu_usage#");
    assert_eq!(metric_row_key("d1", "mem", "2024"), "d1#mem#2024");
    assert_eq!(metric_row_key("", "", ""), "##");
}

#[test]
fn the_write_endpoint_writes_nothing_to_metrics() {
    let input = write_endpoint_input();
    assert_eq!(input.table_name, "metrics");
    assert_eq!(input.row_key, "device_id#cpu_usage#");
    assert!(input.entries.is_empty());
    let request = mutate_rows_request(input);
    assert_eq!(request.table_name, "metrics");
    assert!(request.entries.is_empty());
}

#[test]
fn the_read_endpoint_reads_one_metrics_row() {
    let input = read_endpoint_input();
    assert_eq!(input.table_name, "metrics");
    assert_eq!(input.row_key, "device_id#cpu_usage");
    let request = read_rows_request(input);
    assert_eq!(request.table_name, "metrics");
    let rows = request.rows.expect("a row set");
    assert_eq!(rows.row_ranges.len(), 1);
    assert_eq!(rows.row_ranges[0].start_key, Some(StartKey::Open(b"device_id#cpu_usage".to_vec())));
    assert_eq!(rows.row_ranges[0].end_key, Some(EndKey::Open(b"device_id#cpu_usage".to_vec())));
}
