use qbfrt::codec::{decode, encode, record_from_value, value_from_record, CodecError};
use qbfrt::db::db_structs::FastresumeData;
use serde_bencode::value::Value;

fn sample() -> FastresumeData {
    FastresumeData {
        active_time: 120,
        added_time: 1700000000,
        allocation: "sparse".to_string(),
        apply_ip_filter: 1,
        auto_managed: 0,
        completed_time: 1700000500,
        disable_dht: 0,
        disable_lsd: 0,
        disable_pex: 0,
        download_rate_limit: -1,
        file_format: "libtorrent resume file".to_string(),
        file_version: 1,
        file_priority: Some(vec![1, 0, 7, 255]),
        finished_time: 60,
        httpseeds: vec![],
        info_hash: vec![0, 159, 146, 150, 255, 1, 2, 3, 4, 5, 6, 7, 8, 9, 10, 11, 12, 13, 14, 15],
        info_hash2: "".to_string(),
        last_download: 5,
        last_seen_complete: 1700000600,
        last_upload: 7,
        libtorrent_version: "2.0.9.0".to_string(),
        max_connections: 100,
        max_uploads: -1,
        name: "Some Torrent é".to_string(),
        num_complete: 16777215,
        num_downloaded: 16777215,
        num_incomplete: 16777215,
        paused: 0,
        piece_priority: Some("\u{1}\u{1}\u{4}".to_string()),
        pieces: "\u{1}\u{1}\u{1}".to_string(),
        save_path: "C:\\data\\movies".to_string(),
        seed_mode: 0,
        seeding_time: 60,
        sequential_download: 0,
        share_mode: 0,
        stop_when_ready: 0,
        super_seeding: 0,
        total_downloaded: 123456789,
        total_uploaded: 0,
        trackers: vec![
            vec!["http://a.com/ann".to_string()],
            vec![],
            vec!["http://b.com/ann".to_string(), "http://a.com/bak".to_string()],
        ],
        upload_mode: 0,
        upload_rate_limit: -1,
        url_list: vec!["http://seed.example/file".to_string()],
    }
}

/// The sample record written out by hand, keys in byte order.
fn sample_blob() -> Vec<u8> {
    let mut b: Vec<u8> = Vec::new();
    b.extend_from_slice(b"d");
    b.extend_from_slice(b"11:active_timei120e");
    b.extend_from_slice(b"10:added_timei1700000000e");
    b.extend_from_slice(b"10:allocation6:sparse");
    b.extend_from_slice(b"15:apply_ip_filteri1e");
    b.extend_from_slice(b"12:auto_managedi0e");
    b.extend_from_slice(b"14:completed_timei1700000500e");
    b.extend_from_slice(b"11:disable_dhti0e");
    b.extend_from_slice(b"11:disable_lsdi0e");
    b.extend_from_slice(b"11:disable_pexi0e");
    b.extend_from_slice(b"19:download_rate_limiti-1e");
    b.extend_from_slice(b"11:file-format22:libtorrent resume file");
    b.extend_from_slice(b"12:file-versioni1e");
    b.extend_from_slice(b"13:file_priorityli1ei0ei7ei255ee");
    b.extend_from_slice(b"13:finished_timei60e");
    b.extend_from_slice(b"9:httpseedsle");
    b.extend_from_slice(b"9:info-hash20:");
    b.extend_from_slice(&[0, 159, 146, 150, 255, 1, 2, 3, 4, 5, 6, 7, 8, 9, 10, 11, 12, 13, 14, 15]);
    b.extend_from_slice(b"10:info-hash20:");
    b.extend_from_slice(b"13:last_downloadi5e");
    b.extend_from_slice(b"18:last_seen_completei1700000600e");
    b.extend_from_slice(b"11:last_uploadi7e");
    b.extend_from_slice(b"18:libtorrent-version7:2.0.9.0");
    b.extend_from_slice(b"15:max_connectionsi100e");
    b.extend_from_slice(b"11:max_uploadsi-1e");
    b.extend_from_slice("4:name15:Some Torrent é".as_bytes());
    b.extend_from_slice(b"12:num_completei16777215e");
    b.extend_from_slice(b"14:num_downloadedi16777215e");
    b.extend_from_slice(b"14:num_incompletei16777215e");
    b.extend_from_slice(b"6:pausedi0e");
    b.extend_from_slice(b"14:piece_priority3:\x01\x01\x04");
    b.extend_from_slice(b"6:pieces3:\x01\x01\x01");
    b.extend_from_slice(b"9:save_path14:C:\\data\\movies");
    b.extend_from_slice(b"9:seed_modei0e");
    b.extend_from_slice(b"12:seeding_timei60e");
    b.extend_from_slice(b"19:sequential_downloadi0e");
    b.extend_from_slice(b"10:share_modei0e");
    b.extend_from_slice(b"15:stop_when_readyi0e");
    b.extend_from_slice(b"13:super_seedingi0e");
    b.extend_from_slice(b"16:total_downloadedi123456789e");
    b.extend_from_slice(b"14:total_uploadedi0e");
    b.extend_from_slice(b"8:trackersll16:http://a.com/annelel16:http://b.com/ann16:http://a.com/bakee");
    b.extend_from_slice(b"11:upload_modei0e");
    b.extend_from_slice(b"17:upload_rate_limiti-1e");
    b.extend_from_slice(b"8:url-listl24:http://seed.example/filee");
    b.extend_from_slice(b"e");
    b
}

/// The sample blob with one piece of text replaced by another.
fn sample_blob_with(from: &str, to: &str) -> Vec<u8> {
    let blob = sample_blob();
    let from = from.as_bytes();
    let at = blob.windows(from.len()).position(|w| w == from).unwrap();
    let mut out = blob[..at].to_vec();
    out.extend_from_slice(to.as_bytes());
    out.extend_from_slice(&blob[at + from.len()..]);
    out
}

#[test]
fn decode_reads_every_field() {
    assert_eq!(decode(&sample_blob()), Ok(sample()));
}

#[test]
fn encode_writes_the_entries_in_key_order() {
    assert_eq!(encode(&sample()), Ok(sample_blob()));
}

#[test]
fn encode_then_decode_gives_the_record_back() {
    let rec = sample();
    let blob = encode(&rec).unwrap();
    assert_eq!(decode(&blob), Ok(rec));
}

#[test]
fn decode_then_encode_then_decode_gives_the_same_record() {
    // Keys out of order, an entry that the record does not know, and bytes
    // after the value: the re-encoded blob differs, the record does not.
    let mut blob = sample_blob_with("11:active_timei120e", "5:peers4:\x01\x02\x03\x0411:active_timei+120e");
    blob.extend_from_slice(b"trailing");
    let rec = decode(&blob).unwrap();
    assert_eq!(rec, sample());
    let again = encode(&rec).unwrap();
    assert_ne!(again, blob);
    assert_eq!(decode(&again), Ok(rec));
}

#[test]
fn optional_entries_may_be_absent() {
    let blob = sample_blob_with("13:file_priorityli1ei0ei7ei255ee", "");
    let blob2 = {
        let from = b"14:piece_priority3:\x01\x01\x04";
        let at = blob.windows(from.len()).position(|w| w == from).unwrap();
        let mut out = blob[..at].to_vec();
        out.extend_from_slice(&blob[at + from.len()..]);
        out
    };
    let rec = decode(&blob2).unwrap();
    assert_eq!(rec.file_priority, None);
    assert_eq!(rec.piece_priority, None);
    let mut expected = sample();
    expected.file_priority = None;
    expected.piece_priority = None;
    assert_eq!(rec, expected);
    assert_eq!(encode(&rec), Ok(blob2));
}

#[test]
fn bytes_that_are_no_bencode_are_malformed() {
    assert_eq!(decode(b""), Err(CodecError::Malformed));
    assert_eq!(decode(b"hello"), Err(CodecError::Malformed));
    assert_eq!(decode(b"d3:fooi1e"), Err(CodecError::Malformed));
    assert_eq!(decode(b"d9:save_path5:abe"), Err(CodecError::Malformed));
}

#[test]
fn a_value_that_is_no_dictionary_is_malformed() {
    assert_eq!(decode(b"i5e"), Err(CodecError::Malformed));
    assert_eq!(decode(b"le"), Err(CodecError::Malformed));
    assert_eq!(decode(b"4:spam"), Err(CodecError::Malformed));
}

#[test]
fn an_absent_needed_entry_is_an_unsupported_field() {
    assert_eq!(decode(b"de"), Err(CodecError::UnsupportedField));
    let blob = sample_blob_with("9:save_path14:C:\\data\\movies", "");
    assert_eq!(decode(&blob), Err(CodecError::UnsupportedField));
    let blob = sample_blob_with("8:trackersll16:http://a.com/annelel16:http://b.com/ann16:http://a.com/bakee", "");
    assert_eq!(decode(&blob), Err(CodecError::UnsupportedField));
}

#[test]
fn an_entry_of_the_wrong_type_is_malformed() {
    let blob = sample_blob_with("9:save_path14:C:\\data\\movies", "9:save_pathi7e");
    assert_eq!(decode(&blob), Err(CodecError::Malformed));
    let blob = sample_blob_with("11:active_timei120e", "11:active_time3:120");
    assert_eq!(decode(&blob), Err(CodecError::Malformed));
    let blob = sample_blob_with("6:pausedi0e", "6:pausedi-1e");
    assert_eq!(decode(&blob), Err(CodecError::Malformed));
    let blob = sample_blob_with("9:httpseedsle", "9:httpseedsli256ee");
    assert_eq!(decode(&blob), Err(CodecError::Malformed));
    let blob = sample_blob_with("9:httpseedsle", "9:httpseedsl3:abce");
    assert_eq!(decode(&blob), Err(CodecError::Malformed));
    let blob = sample_blob_with("8:url-listl24:http://seed.example/filee", "8:url-listli1ee");
    assert_eq!(decode(&blob), Err(CodecError::Malformed));
    let blob = sample_blob_with("8:trackersll16:http://a.com/annelel", "8:trackersl16:http://a.com/annlel");
    assert_eq!(decode(&blob), Err(CodecError::Malformed));
}

#[test]
fn text_that_is_not_utf8_is_malformed() {
    let mut blob = sample_blob_with("10:allocation6:sparse", "10:allocation2:");
    let at = blob.windows(15).position(|w| w == b"10:allocation2:").unwrap() + 15;
    blob.insert(at, 0xff);
    blob.insert(at + 1, 0xfe);
    assert_eq!(decode(&blob), Err(CodecError::Malformed));
}

#[test]
fn a_wrong_type_is_reported_before_an_absent_entry() {
    // `save_path` is absent and `active_time` is text.
    let blob = sample_blob_with("9:save_path14:C:\\data\\movies", "");
    let from = b"11:active_timei120e";
    let at = blob.windows(from.len()).position(|w| w == from).unwrap();
    let mut out = blob[..at].to_vec();
    out.extend_from_slice(b"11:active_time1:x");
    out.extend_from_slice(&blob[at + from.len()..]);
    assert_eq!(decode(&out), Err(CodecError::Malformed));
    // An optional entry of the wrong type is malformed too.
    let blob = sample_blob_with("14:piece_priority3:\x01\x01\x04", "14:piece_priorityi3e");
    assert_eq!(decode(&blob), Err(CodecError::Malformed));
}

#[test]
fn a_counter_above_the_signed_range_is_not_encoded() {
    let mut rec = sample();
    rec.total_uploaded = 9223372036854775807;
    assert!(encode(&rec).is_ok());
    assert_eq!(decode(&encode(&rec).unwrap()).unwrap().total_uploaded, 9223372036854775807);
    rec.total_uploaded = 9223372036854775808;
    assert_eq!(encode(&rec), Err(CodecError::Malformed));
    let mut rec = sample();
    rec.paused = u64::MAX;
    assert_eq!(encode(&rec), Err(CodecError::Malformed));
    assert!(value_from_record(&rec).is_err());
}

#[test]
fn record_from_value_reads_a_parsed_value() {
    let value: Value = serde_bencode::from_bytes(&sample_blob()).unwrap();
    assert_eq!(record_from_value(&value), Ok(sample()));
    assert_eq!(record_from_value(&Value::Int(3)), Err(CodecError::Malformed));
    assert_eq!(
        record_from_value(&Value::Dict(std::collections::HashMap::new())),
        Err(CodecError::UnsupportedField)
    );
}

#[test]
fn value_from_record_builds_the_dictionary() {
    let value = value_from_record(&sample()).unwrap();
    let expected: Value = serde_bencode::from_bytes(&sample_blob()).unwrap();
    assert_eq!(value, expected);
    match &value {
        Value::Dict(d) => {
            assert_eq!(d.len(), 43);
            assert_eq!(d.get(&b"save_path"[..]), Some(&Value::Bytes(b"C:\\data\\movies".to_vec())));
            assert_eq!(d.get(&b"file-version"[..]), Some(&Value::Int(1)));
            assert_eq!(d.get(&b"httpseeds"[..]), Some(&Value::List(vec![])));
        }
        _ => panic!("not a dictionary"),
    }
}

#[test]
fn entries_under_unknown_keys_are_dropped() {
    let blob = sample_blob_with("6:pausedi0e", "6:pausedi0e5:peers6:abcdef");
    let rec = decode(&blob).unwrap();
    assert_eq!(rec, sample());
    assert_eq!(encode(&rec), Ok(sample_blob()));
}

#[test]
fn a_later_entry_under_the_same_key_wins() {
    let blob = sample_blob_with("6:pausedi0e", "6:pausedi0e6:pausedi1e");
    assert_eq!(decode(&blob).unwrap().paused, 1);
}

#[test]
fn the_bencode_crate_reads_back_what_it_writes() {
    let mut inner = std::collections::HashMap::new();
    inner.insert(b"z".to_vec(), Value::Int(i64::MIN));
    inner.insert(b"".to_vec(), Value::Bytes(vec![]));
    inner.insert(vec![0xff, 0x00, b':'], Value::List(vec![]));
    let mut outer = std::collections::HashMap::new();
    outer.insert(b"dict".to_vec(), Value::Dict(inner));
    outer.insert(b"empty".to_vec(), Value::Dict(std::collections::HashMap::new()));
    outer.insert(
        b"list".to_vec(),
        Value::List(vec![
            Value::Int(0),
            Value::Int(-1),
            Value::Int(i64::MAX),
            Value::Bytes(b"i1e".to_vec()),
            Value::List(vec![Value::List(vec![Value::Bytes(vec![0, 1, 2, 255])])]),
        ]),
    );
    for value in [
        Value::Int(7),
        Value::Bytes(b"4:spam".to_vec()),
        Value::List(vec![]),
        Value::Dict(outer),
    ] {
        let bytes = serde_bencode::to_bytes(&value).unwrap();
        let back: Value = serde_bencode::from_bytes(&bytes).unwrap();
        assert_eq!(back, value);
        assert_eq!(serde_bencode::to_bytes(&back).unwrap(), bytes);
    }
}

#[test]
fn decode_allows_what_the_bencode_crate_allows() {
    // A sign, leading zeros and bytes after the value are read without complaint.
    let mut blob = sample_blob_with("11:active_timei120e", "11:active_timei+0120e");
    blob.extend_from_slice(b"i1e");
    assert_eq!(decode(&blob), Ok(sample()));
}
