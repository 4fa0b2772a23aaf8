//! The CSV renderer.
//!
//! A record is flattened to one row of plain text fields — the same
//! field set, in the same order, as the bulk export's flattening; an
//! absent attribute gives an empty field.  The row (and, on the first
//! successful render of an iterator, the header row before it) is
//! encoded by the `csv` crate behind a trusted wrapper.  The encoded
//! bytes of a row are named `csv_row_of`, so every caller's contract is
//! exact up to that name, and encoding into an in-memory buffer always
//! succeeds.

use vstd::prelude::*;
use vstd::string::StringExecFns;

use crate::digits::{dec_of, string_push, u64_to_dec};
use crate::errors::SerializationError;
use crate::json::bool_text;
use crate::record::{MftRecord, RecordView};

verus! {

/// The error type of the `csv` crate, carried opaquely until a caller
/// turns it into a message.
#[verifier::external_type_specification]
#[verifier::external_body]
pub struct ExCsvError(csv::Error);

/// The bytes that the `csv` crate writes for one row with the given
/// fields: fields separated by commas, quoted where needed, and a
/// terminating newline.
pub uninterp spec fn csv_row_of(fields: Seq<Seq<char>>) -> Seq<u8>;

/// Relies on `csv::Writer::write_record` and `csv::Writer::into_inner`:
/// encodes exactly one row for the given fields into an in-memory
/// buffer.  The encoded bytes depend on the fields alone.  The call
/// cannot fail: the sink is a byte vector, whose writes never err, and
/// a fresh writer holds no earlier record a field count could disagree
/// with.
#[verifier::external_body]
fn csv_encode_row(fields: &Vec<String>) -> (r: Result<Vec<u8>, csv::Error>)
    ensures
        r is Ok,
        r matches Ok(b) ==> b@ == csv_row_of(fields.deep_view()),
{
    let mut writer = csv::Writer::from_writer(Vec::new());
    if let Err(e) = writer.write_record(fields) {
        return Err(e);
    }
    match writer.into_inner() {
        Ok(bytes) => Ok(bytes),
        Err(e) => Err(e.into_error().into()),
    }
}

/// Relies on the `Display` impl of `csv::Error`: prints the error.
#[verifier::external_body]
fn csv_error_message(e: &csv::Error) -> String {
    format!("{}", e)
}

/// The column names of the flattened form, in order.
pub open spec fn header_fields_spec() -> Seq<Seq<char>> {
    seq![
        "Signature"@,
        "EntryId"@,
        "Sequence"@,
        "BaseEntryId"@,
        "BaseEntrySequence"@,
        "HardLinkCount"@,
        "Flags"@,
        "UsedEntrySize"@,
        "TotalEntrySize"@,
        "FileSize"@,
        "IsADirectory"@,
        "IsDeleted"@,
        "HasAlternateDataStreams"@,
        "StandardInfoFlags"@,
        "StandardInfoLastModified"@,
        "StandardInfoLastAccess"@,
        "StandardInfoCreated"@,
        "FileNameFlags"@,
        "FileNameLastModified"@,
        "FileNameLastAccess"@,
        "FileNameCreated"@,
        "FullPath"@,
    ]
}

/// One signature byte as the bulk export prints it: ASCII letters
/// uppercased, everything else as the character of the byte.
pub open spec fn sig_char(b: u8) -> char {
    if 97 <= b <= 122 {
        (b - 32) as char
    } else {
        b as char
    }
}

/// The four signature bytes of a record as text, little-endian order,
/// uppercased: the in-use record reads "FILE", the bad block "BAAD".
pub open spec fn sig_text(sig: u32) -> Seq<char> {
    seq![
        sig_char((sig % 0x100) as u8),
        sig_char(((sig / 0x100) % 0x100) as u8),
        sig_char(((sig / 0x1_0000) % 0x100) as u8),
        sig_char((sig / 0x100_0000) as u8),
    ]
}

/// One signature byte as a character.
fn sig_char_exec(b: u8) -> (c: char)
    ensures
        c == sig_char(b),
{
    if 97 <= b && b <= 122 {
        (b - 32) as char
    } else {
        b as char
    }
}

/// Renders the signature as text.
fn signature_field(sig: u32) -> (r: String)
    ensures
        r@ == sig_text(sig),
{
    let mut r = String::new();
    string_push(&mut r, sig_char_exec((sig % 0x100) as u8));
    string_push(&mut r, sig_char_exec(((sig / 0x100) % 0x100) as u8));
    string_push(&mut r, sig_char_exec(((sig / 0x1_0000) % 0x100) as u8));
    string_push(&mut r, sig_char_exec((sig / 0x100_0000) as u8));
    proof {
        assert(r@ =~= sig_text(sig));
    }
    r
}

/// An optional text field in tabular form: the text, or nothing.
pub open spec fn opt_text(o: Option<Seq<char>>) -> Seq<char> {
    match o {
        Some(s) => s,
        None => Seq::empty(),
    }
}

/// The flattened form of a record: one text field per column, in the
/// header's order.
pub open spec fn flat_fields(r: RecordView) -> Seq<Seq<char>> {
    seq![
        sig_text(r.signature),
        dec_of(r.entry_id as nat),
        dec_of(r.sequence as nat),
        dec_of(r.base_entry_id as nat),
        dec_of(r.base_entry_sequence as nat),
        dec_of(r.hard_link_count as nat),
        r.flags,
        dec_of(r.used_entry_size as nat),
        dec_of(r.total_entry_size as nat),
        dec_of(r.file_size as nat),
        bool_text(r.is_a_directory),
        bool_text(r.is_deleted),
        bool_text(r.has_alternate_data_streams),
        opt_text(r.standard_info_flags),
        opt_text(r.standard_info_last_modified),
        opt_text(r.standard_info_last_access),
        opt_text(r.standard_info_created),
        opt_text(r.file_name_flags),
        opt_text(r.file_name_last_modified),
        opt_text(r.file_name_last_access),
        opt_text(r.file_name_created),
        r.full_path,
    ]
}

/// The buffer emitted for a record: the data row alone, or the header
/// row followed by the data row when the header is still owed.
pub open spec fn csv_buffer(r: RecordView, with_header: bool) -> Seq<u8> {
    if with_header {
        csv_row_of(header_fields_spec()) + csv_row_of(flat_fields(r))
    } else {
        csv_row_of(flat_fields(r))
    }
}

/// Builds the column-name row.
fn header_fields() -> (v: Vec<String>)
    ensures
        v.deep_view() == header_fields_spec(),
{
    let mut v: Vec<String> = Vec::new();
    v.push(String::from_str("Signature"));
    v.push(String::from_str("EntryId"));
    v.push(String::from_str("Sequence"));
    v.push(String::from_str("BaseEntryId"));
    v.push(String::from_str("BaseEntrySequence"));
    v.push(String::from_str("HardLinkCount"));
    v.push(String::from_str("Flags"));
    v.push(String::from_str("UsedEntrySize"));
    v.push(String::from_str("TotalEntrySize"));
    v.push(String::from_str("FileSize"));
    v.push(String::from_str("IsADirectory"));
    v.push(String::from_str("IsDeleted"));
    v.push(String::from_str("HasAlternateDataStreams"));
    v.push(String::from_str("StandardInfoFlags"));
    v.push(String::from_str("StandardInfoLastModified"));
    v.push(String::from_str("StandardInfoLastAccess"));
    v.push(String::from_str("StandardInfoCreated"));
    v.push(String::from_str("FileNameFlags"));
    v.push(String::from_str("FileNameLastModified"));
    v.push(String::from_str("FileNameLastAccess"));
    v.push(String::from_str("FileNameCreated"));
    v.push(String::from_str("FullPath"));
    proof {
        assert(v.deep_view() =~= header_fields_spec());
    }
    v
}

/// Turns an optional text field into its tabular form.
fn opt_field(o: &Option<String>) -> (r: String)
    ensures
        r@ == opt_text(crate::record::opt_view(*o)),
{
    match o {
        Some(s) => s.clone(),
        None => String::new(),
    }
}

/// Flattens a record to its row of text fields.
pub fn flatten(rec: &MftRecord) -> (v: Vec<String>)
    ensures
        v.deep_view() == flat_fields(rec@),
{
    let mut v: Vec<String> = Vec::new();
    v.push(signature_field(rec.signature));
    v.push(u64_to_dec(rec.entry_id));
    v.push(u64_to_dec(rec.sequence as u64));
    v.push(u64_to_dec(rec.base_entry_id));
    v.push(u64_to_dec(rec.base_entry_sequence as u64));
    v.push(u64_to_dec(rec.hard_link_count as u64));
    v.push(rec.flags.clone());
    v.push(u64_to_dec(rec.used_entry_size as u64));
    v.push(u64_to_dec(rec.total_entry_size as u64));
    v.push(u64_to_dec(rec.file_size));
    v.push(bool_field(rec.is_a_directory));
    v.push(bool_field(rec.is_deleted));
    v.push(bool_field(rec.has_alternate_data_streams));
    v.push(opt_field(&rec.standard_info_flags));
    v.push(opt_field(&rec.standard_info_last_modified));
    v.push(opt_field(&rec.standard_info_last_access));
    v.push(opt_field(&rec.standard_info_created));
    v.push(opt_field(&rec.file_name_flags));
    v.push(opt_field(&rec.file_name_last_modified));
    v.push(opt_field(&rec.file_name_last_access));
    v.push(opt_field(&rec.file_name_created));
    v.push(rec.full_path.clone());
    proof {
        assert(v.deep_view() =~= flat_fields(rec@));
    }
    v
}

/// Spells a boolean as tabular text.
fn bool_field(b: bool) -> (r: String)
    ensures
        r@ == bool_text(b),
{
    if b {
        String::from_str("true")
    } else {
        String::from_str("false")
    }
}

/// Renders one record as CSV bytes; with `with_header` the column-name
/// row is put in front of the data row, in the same buffer.  Encoding
/// into the in-memory buffer always succeeds; the error arm only keeps
/// the per-slot serialization taxonomy reachable for sinks that can
/// fail.
pub fn render_csv(rec: &MftRecord, with_header: bool) -> (r: Result<
    Vec<u8>,
    SerializationError,
>)
    ensures
        r is Ok,
        r matches Ok(b) ==> b@ == csv_buffer(rec@, with_header),
{
    let fields = flatten(rec);
    if with_header {
        let names = header_fields();
        let mut head = match csv_encode_row(&names) {
            Ok(b) => b,
            Err(e) => {
                return Err(SerializationError { message: csv_error_message(&e) });
            },
        };
        let mut data = match csv_encode_row(&fields) {
            Ok(b) => b,
            Err(e) => {
                return Err(SerializationError { message: csv_error_message(&e) });
            },
        };
        head.append(&mut data);
        Ok(head)
    } else {
        match csv_encode_row(&fields) {
            Ok(b) => Ok(b),
            Err(e) => Err(SerializationError { message: csv_error_message(&e) }),
        }
    }
}

} // verus!
