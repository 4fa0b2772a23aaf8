//! The three renderers on hand-built records: exact JSON text, exact
//! CSV bytes, the object mapping with its soft-error field, decimal
//! rendering, and the JSON round trip against the object rendering.

use pymft::{render_json, u64_to_dec, MftRecord, Output, PyMftParser};

fn record() -> MftRecord {
    MftRecord {
        signature: 1162627398,
        entry_id: 5,
        sequence: 2,
        base_entry_id: 9,
        base_entry_sequence: 1,
        hard_link_count: 1,
        flags: String::from("EntryFlags(ALLOCATED)"),
        flags_bits: 1,
        used_entry_size: 64,
        total_entry_size: 1024,
        file_size: 77,
        is_a_directory: false,
        is_deleted: false,
        has_alternate_data_streams: true,
        standard_info_flags: Some(String::from("FILE_ATTRIBUTE_ARCHIVE")),
        standard_info_last_modified: Some(String::from("2005-02-02T01:02:03Z")),
        standard_info_last_access: Some(String::from("2006-03-03T04:05:06Z")),
        standard_info_created: Some(String::from("2004-01-01T00:00:00Z")),
        file_name_flags: None,
        file_name_last_modified: None,
        file_name_last_access: None,
        file_name_created: None,
        full_path: String::from("dir/file.txt"),
    }
}

#[test]
fn decimal_rendering_exact() {
    assert_eq!(u64_to_dec(0), "0");
    assert_eq!(u64_to_dec(7), "7");
    assert_eq!(u64_to_dec(57), "57");
    assert_eq!(u64_to_dec(1000), "1000");
    assert_eq!(u64_to_dec(u64::MAX), "18446744073709551615");
}

#[test]
fn json_rendering_exact() {
    let s = render_json(&record());
    assert_eq!(
        s,
        "{\"signature\":1162627398,\"entry_id\":5,\"sequence\":2,\"base_entry_id\":9,\
         \"base_entry_sequence\":1,\"hard_link_count\":1,\"flags\":\"EntryFlags(ALLOCATED)\",\
         \"used_entry_size\":64,\"total_entry_size\":1024,\"file_size\":77,\
         \"is_a_directory\":false,\"is_deleted\":false,\"has_alternate_data_streams\":true,\
         \"standard_info_flags\":\"FILE_ATTRIBUTE_ARCHIVE\",\
         \"standard_info_last_modified\":\"2005-02-02T01:02:03Z\",\
         \"standard_info_last_access\":\"2006-03-03T04:05:06Z\",\
         \"standard_info_created\":\"2004-01-01T00:00:00Z\",\"file_name_flags\":null,\
         \"file_name_last_modified\":null,\"file_name_last_access\":null,\
         \"file_name_created\":null,\"full_path\":\"dir/file.txt\"}"
    );
}

#[test]
fn json_escapes_exact() {
    let mut r = record();
    r.full_path = String::from("a\"b\\c\nd\re\tf\u{1}g");
    let s = render_json(&r);
    assert!(s.contains("\"full_path\":\"a\\\"b\\\\c\\nd\\re\\tf\\u0001g\""));
}

#[test]
fn object_rendering_mirrors_fields() {
    let r = record();
    let o = r.to_object();
    assert_eq!(o.signature, 1162627398);
    assert_eq!(o.entry_id, 5);
    assert_eq!(o.sequence, 2);
    assert_eq!(o.base_entry_id, 9);
    assert_eq!(o.base_entry_sequence, 1);
    assert_eq!(o.hard_link_count, 1);
    assert_eq!(o.flags, "EntryFlags(ALLOCATED)");
    assert_eq!(o.flags_bits, 1);
    assert_eq!(o.used_entry_size, 64);
    assert_eq!(o.total_entry_size, 1024);
    assert_eq!(o.file_size, 77);
    assert!(!o.is_a_directory);
    assert!(!o.is_deleted);
    assert!(o.has_alternate_data_streams);
    assert_eq!(o.standard_info_flags.as_deref(), Some("FILE_ATTRIBUTE_ARCHIVE"));
    assert_eq!(o.standard_info_last_modified.as_deref(), Some("2005-02-02T01:02:03Z"));
    assert_eq!(o.standard_info_last_access.as_deref(), Some("2006-03-03T04:05:06Z"));
    assert_eq!(o.standard_info_created.as_deref(), Some("2004-01-01T00:00:00Z"));
    assert_eq!(o.file_name_flags, None);
    assert_eq!(o.file_name_last_modified, None);
    assert_eq!(o.file_name_last_access, None);
    assert_eq!(o.file_name_created, None);
    assert_eq!(o.full_path, "dir/file.txt");
    assert!(o.path_resolved);
}

#[test]
fn object_rendering_reports_unresolved_path_softly() {
    let mut r = record();
    r.full_path = String::new();
    let o = r.to_object();
    assert!(!o.path_resolved);
    assert_eq!(o.full_path, "");
    // the record as a whole is still returned
    assert_eq!(o.entry_id, 5);
}

#[test]
fn csv_rendering_exact_with_and_without_header() {
    let data_row = "FILE,5,2,9,1,1,EntryFlags(ALLOCATED),64,1024,77,false,false,true,\
                    FILE_ATTRIBUTE_ARCHIVE,2005-02-02T01:02:03Z,2006-03-03T04:05:06Z,\
                    2004-01-01T00:00:00Z,,,,,dir/file.txt\n";
    let header_row = "Signature,EntryId,Sequence,BaseEntryId,BaseEntrySequence,HardLinkCount,\
                      Flags,UsedEntrySize,TotalEntrySize,FileSize,IsADirectory,IsDeleted,\
                      HasAlternateDataStreams,StandardInfoFlags,StandardInfoLastModified,\
                      StandardInfoLastAccess,StandardInfoCreated,FileNameFlags,\
                      FileNameLastModified,FileNameLastAccess,FileNameCreated,FullPath\n";
    let with_header = pymft::csvfmt::render_csv(&record(), true).ok().expect("encoding succeeds");
    let text = String::from_utf8(with_header).expect("CSV output is UTF-8");
    assert_eq!(text, format!("{}{}", header_row, data_row));
    let data_only = pymft::csvfmt::render_csv(&record(), false).ok().expect("encoding succeeds");
    let text = String::from_utf8(data_only).expect("CSV output is UTF-8");
    assert_eq!(text, data_row);
}

#[test]
fn csv_quotes_fields_that_need_it() {
    let mut r = record();
    r.full_path = String::from("a,b \"c\"\nd");
    let bytes = pymft::csvfmt::render_csv(&r, false).ok().expect("encoding succeeds");
    let text = String::from_utf8(bytes).expect("CSV output is UTF-8");
    assert!(text.contains("\"a,b \"\"c\"\"\nd\""));
}

#[test]
fn csv_header_state_advances_on_success_only() {
    let mut b = vec![0u8; 1024];
    b[0..4].copy_from_slice(b"FILE");
    b[4] = 48;
    b[6] = 3;
    b[20] = 56;
    b[22] = 1;
    b[28] = 0;
    b[29] = 4; // slot size 1024
    b[48] = 1;
    b[510] = 1;
    b[1022] = 1;
    b[56] = 0xff;
    b[57] = 0xff;
    b[58] = 0xff;
    b[59] = 0xff;
    let mut p = PyMftParser::new(b).ok().expect("the fixture table must open");
    let mut it = p.records_iterator(Output::CSV).ok().expect("hand-off succeeds");
    assert!(!it.header_written());
    let first = it.entry_to_csv(&record()).ok().expect("encoding succeeds");
    assert!(it.header_written());
    let second = it.entry_to_csv(&record()).ok().expect("encoding succeeds");
    assert!(first.len() > second.len());
    let first = String::from_utf8(first).expect("CSV output is UTF-8");
    let second = String::from_utf8(second).expect("CSV output is UTF-8");
    assert!(first.starts_with("Signature,"));
    assert!(second.starts_with("FILE,"));
}

#[test]
fn json_round_trip_matches_object_rendering() {
    let mut r = record();
    r.full_path = String::from("päth \"q\" \\ x\ty");
    let o = r.to_object();
    let text = render_json(&r);
    let v: serde_json::Value = serde_json::from_str(&text).expect("the JSON text parses back");
    assert_eq!(v["signature"].as_u64(), Some(o.signature as u64));
    assert_eq!(v["entry_id"].as_u64(), Some(o.entry_id));
    assert_eq!(v["sequence"].as_u64(), Some(o.sequence as u64));
    assert_eq!(v["base_entry_id"].as_u64(), Some(o.base_entry_id));
    assert_eq!(v["base_entry_sequence"].as_u64(), Some(o.base_entry_sequence as u64));
    assert_eq!(v["hard_link_count"].as_u64(), Some(o.hard_link_count as u64));
    assert_eq!(v["flags"].as_str(), Some(o.flags.as_str()));
    assert_eq!(v["used_entry_size"].as_u64(), Some(o.used_entry_size as u64));
    assert_eq!(v["total_entry_size"].as_u64(), Some(o.total_entry_size as u64));
    assert_eq!(v["file_size"].as_u64(), Some(o.file_size));
    assert_eq!(v["is_a_directory"].as_bool(), Some(o.is_a_directory));
    assert_eq!(v["is_deleted"].as_bool(), Some(o.is_deleted));
    assert_eq!(v["has_alternate_data_streams"].as_bool(), Some(o.has_alternate_data_streams));
    assert_eq!(v["standard_info_flags"].as_str(), o.standard_info_flags.as_deref());
    assert_eq!(
        v["standard_info_last_modified"].as_str(),
        o.standard_info_last_modified.as_deref()
    );
    assert_eq!(v["standard_info_last_access"].as_str(), o.standard_info_last_access.as_deref());
    assert_eq!(v["standard_info_created"].as_str(), o.standard_info_created.as_deref());
    assert!(v["file_name_flags"].is_null());
    assert!(o.file_name_flags.is_none());
    assert!(v["file_name_last_modified"].is_null());
    assert!(v["file_name_last_access"].is_null());
    assert!(v["file_name_created"].is_null());
    assert_eq!(v["full_path"].as_str(), Some(o.full_path.as_str()));
}

#[test]
fn json_round_trip_extreme_values() {
    let mut r = record();
    r.signature = u32::MAX;
    r.entry_id = u64::MAX;
    r.sequence = u16::MAX;
    r.file_size = u64::MAX;
    r.full_path = String::new();
    r.standard_info_flags = None;
    let text = render_json(&r);
    let v: serde_json::Value = serde_json::from_str(&text).expect("the JSON text parses back");
    assert_eq!(v["signature"].as_u64(), Some(u32::MAX as u64));
    assert_eq!(v["entry_id"].as_u64(), Some(u64::MAX));
    assert_eq!(v["file_size"].as_u64(), Some(u64::MAX));
    assert!(v["standard_info_flags"].is_null());
    assert_eq!(v["full_path"].as_str(), Some(""));
}
