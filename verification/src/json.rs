//! The JSON renderer.
//!
//! A record is printed in one fixed field layout: the flattened field
//! set, in the record's own order, with absent attributes printed as
//! null.  The exact text is given by the spec function `json_of`, so a
//! caller knows the full output, character for character.  Rendering is
//! total: a record always has a JSON form.

use vstd::prelude::*;
use vstd::string::StrSliceExecFns;
use vstd::string::StringExecFns;

use crate::digits::{dec_of, digit_char, string_push, u64_to_dec};
use crate::record::{object_of, opt_view, MftRecord, ObjectView, RecordView};

verus! {

/// The hexadecimal digit character for a value below sixteen.
pub open spec fn hex_char(d: int) -> char {
    if d < 10 {
        digit_char(d)
    } else if d == 10 {
        'a'
    } else if d == 11 {
        'b'
    } else if d == 12 {
        'c'
    } else if d == 13 {
        'd'
    } else if d == 14 {
        'e'
    } else {
        'f'
    }
}

fn hex_char_exec(d: u32) -> (c: char)
    requires
        d < 16,
    ensures
        c == hex_char(d as int),
{
    match d {
        0 => '0',
        1 => '1',
        2 => '2',
        3 => '3',
        4 => '4',
        5 => '5',
        6 => '6',
        7 => '7',
        8 => '8',
        9 => '9',
        10 => 'a',
        11 => 'b',
        12 => 'c',
        13 => 'd',
        14 => 'e',
        _ => 'f',
    }
}

/// How one character is written inside a JSON string literal: quote and
/// backslash get a backslash escape, the common control characters get
/// their short escapes, the remaining control characters a `\u00..`
/// escape, and everything else stands as itself.
pub open spec fn esc_char(c: char) -> Seq<char> {
    if c == '"' {
        seq!['\\', '"']
    } else if c == '\\' {
        seq!['\\', '\\']
    } else if c == '\n' {
        seq!['\\', 'n']
    } else if c == '\r' {
        seq!['\\', 'r']
    } else if c == '\t' {
        seq!['\\', 't']
    } else if (c as u32) < 32 {
        seq!['\\', 'u', '0', '0', hex_char(c as u32 as int / 16), hex_char(c as u32 as int % 16)]
    } else {
        seq![c]
    }
}

/// The body of a JSON string literal holding the text `s`.
pub open spec fn json_escaped(s: Seq<char>) -> Seq<char>
    decreases s.len(),
{
    if s.len() == 0 {
        Seq::empty()
    } else {
        json_escaped(s.drop_last()) + esc_char(s.last())
    }
}

/// Appends the JSON-escaped form of `s` to `out`.
pub fn escape_append(out: &mut String, s: &str)
    ensures
        final(out)@ == old(out)@ + json_escaped(s@),
{
    let n = s.unicode_len();
    let mut i: usize = 0;
    while i < n
        invariant
            n == s@.len(),
            i <= n,
            out@ == old(out)@ + json_escaped(s@.subrange(0, i as int)),
        decreases n - i,
    {
        let c = s.get_char(i);
        let u = c as u32;
        if c == '"' {
            out.append("\\\"");
            proof {
                reveal_strlit("\\\"");
                assert("\\\""@ =~= esc_char(c));
            }
        } else if c == '\\' {
            out.append("\\\\");
            proof {
                reveal_strlit("\\\\");
                assert("\\\\"@ =~= esc_char(c));
            }
        } else if c == '\n' {
            out.append("\\n");
            proof {
                reveal_strlit("\\n");
                assert("\\n"@ =~= esc_char(c));
            }
        } else if c == '\r' {
            out.append("\\r");
            proof {
                reveal_strlit("\\r");
                assert("\\r"@ =~= esc_char(c));
            }
        } else if c == '\t' {
            out.append("\\t");
            proof {
                reveal_strlit("\\t");
                assert("\\t"@ =~= esc_char(c));
            }
        } else if u < 32 {
            out.append("\\u00");
            string_push(out, hex_char_exec(u / 16));
            string_push(out, hex_char_exec(u % 16));
            proof {
                reveal_strlit("\\u00");
                assert("\\u00"@.push(hex_char(u as int / 16)).push(hex_char(u as int % 16))
                    =~= esc_char(c));
            }
        } else {
            string_push(out, c);
            proof {
                assert(old(out)@ + json_escaped(s@.subrange(0, i as int)).push(c) =~= old(
                    out,
                )@ + json_escaped(s@.subrange(0, i as int)) + esc_char(c));
            }
        }
        proof {
            let pre = s@.subrange(0, i as int);
            let ext = s@.subrange(0, i + 1);
            assert(ext.drop_last() =~= pre);
            assert(ext.last() == s@[i as int]);
            assert(json_escaped(ext) == json_escaped(pre) + esc_char(s@[i as int]));
            assert(out@ =~= old(out)@ + json_escaped(ext));
        }
        i = i + 1;
    }
    proof {
        assert(s@.subrange(0, n as int) =~= s@);
    }
}

/// The spelling of a boolean in JSON text.
pub open spec fn bool_text(b: bool) -> Seq<char> {
    if b {
        "true"@
    } else {
        "false"@
    }
}

/// The spelling of an optional text field in JSON: a string literal,
/// or null when the attribute is absent.
pub open spec fn json_opt(o: Option<Seq<char>>) -> Seq<char> {
    match o {
        Some(s) => "\""@ + json_escaped(s) + "\""@,
        None => "null"@,
    }
}

/// Appends the JSON form of an optional text field.
fn append_opt(out: &mut String, o: &Option<String>)
    ensures
        final(out)@ == old(out)@ + json_opt(opt_view(*o)),
{
    match o {
        Some(s) => {
            out.append("\"");
            escape_append(out, s.as_str());
            out.append("\"");
            proof {
                assert(out@ =~= old(out)@ + json_opt(opt_view(Some(*s))));
            }
        },
        None => {
            out.append("null");
        },
    }
}

/// The JSON text of a record: one object in a fixed field layout, the
/// fields in the record's own order.
pub open spec fn json_of(r: RecordView) -> Seq<char> {
    "{\"signature\":"@ + dec_of(r.signature as nat) + ",\"entry_id\":"@ + dec_of(
        r.entry_id as nat,
    ) + ",\"sequence\":"@ + dec_of(r.sequence as nat) + ",\"base_entry_id\":"@ + dec_of(
        r.base_entry_id as nat,
    ) + ",\"base_entry_sequence\":"@ + dec_of(r.base_entry_sequence as nat)
        + ",\"hard_link_count\":"@ + dec_of(r.hard_link_count as nat) + ",\"flags\":\""@
        + json_escaped(r.flags) + "\",\"used_entry_size\":"@ + dec_of(r.used_entry_size as nat)
        + ",\"total_entry_size\":"@ + dec_of(r.total_entry_size as nat) + ",\"file_size\":"@
        + dec_of(r.file_size as nat) + ",\"is_a_directory\":"@ + bool_text(r.is_a_directory)
        + ",\"is_deleted\":"@ + bool_text(r.is_deleted) + ",\"has_alternate_data_streams\":"@
        + bool_text(r.has_alternate_data_streams) + ",\"standard_info_flags\":"@ + json_opt(
        r.standard_info_flags,
    ) + ",\"standard_info_last_modified\":"@ + json_opt(r.standard_info_last_modified)
        + ",\"standard_info_last_access\":"@ + json_opt(r.standard_info_last_access)
        + ",\"standard_info_created\":"@ + json_opt(r.standard_info_created)
        + ",\"file_name_flags\":"@ + json_opt(r.file_name_flags)
        + ",\"file_name_last_modified\":"@ + json_opt(r.file_name_last_modified)
        + ",\"file_name_last_access\":"@ + json_opt(r.file_name_last_access)
        + ",\"file_name_created\":"@ + json_opt(r.file_name_created) + ",\"full_path\":\""@
        + json_escaped(r.full_path) + "\"}"@
}

/// The same layout, read off a rendered object instead of a record.
pub open spec fn json_of_object(o: ObjectView) -> Seq<char> {
    "{\"signature\":"@ + dec_of(o.signature as nat) + ",\"entry_id\":"@ + dec_of(
        o.entry_id as nat,
    ) + ",\"sequence\":"@ + dec_of(o.sequence as nat) + ",\"base_entry_id\":"@ + dec_of(
        o.base_entry_id as nat,
    ) + ",\"base_entry_sequence\":"@ + dec_of(o.base_entry_sequence as nat)
        + ",\"hard_link_count\":"@ + dec_of(o.hard_link_count as nat) + ",\"flags\":\""@
        + json_escaped(o.flags) + "\",\"used_entry_size\":"@ + dec_of(o.used_entry_size as nat)
        + ",\"total_entry_size\":"@ + dec_of(o.total_entry_size as nat) + ",\"file_size\":"@
        + dec_of(o.file_size as nat) + ",\"is_a_directory\":"@ + bool_text(o.is_a_directory)
        + ",\"is_deleted\":"@ + bool_text(o.is_deleted) + ",\"has_alternate_data_streams\":"@
        + bool_text(o.has_alternate_data_streams) + ",\"standard_info_flags\":"@ + json_opt(
        o.standard_info_flags,
    ) + ",\"standard_info_last_modified\":"@ + json_opt(o.standard_info_last_modified)
        + ",\"standard_info_last_access\":"@ + json_opt(o.standard_info_last_access)
        + ",\"standard_info_created\":"@ + json_opt(o.standard_info_created)
        + ",\"file_name_flags\":"@ + json_opt(o.file_name_flags)
        + ",\"file_name_last_modified\":"@ + json_opt(o.file_name_last_modified)
        + ",\"file_name_last_access\":"@ + json_opt(o.file_name_last_access)
        + ",\"file_name_created\":"@ + json_opt(o.file_name_created) + ",\"full_path\":\""@
        + json_escaped(o.full_path) + "\"}"@
}

/// The JSON rendering and the object rendering of one record draw on
/// the same field values: printing the object's fields in the JSON
/// layout gives exactly the record's JSON text.
pub proof fn lemma_json_object_agree(r: RecordView)
    ensures
        json_of(r) == json_of_object(object_of(r)),
{
}

/// Renders a record as JSON text (JSON output mode).
pub fn render_json(rec: &MftRecord) -> (r: String)
    ensures
        r@ == json_of(rec@),
{
    let mut out = String::new();
    out.append("{\"signature\":");
    let d = u64_to_dec(rec.signature as u64);
    out.append(d.as_str());
    out.append(",\"entry_id\":");
    let d = u64_to_dec(rec.entry_id);
    out.append(d.as_str());
    out.append(",\"sequence\":");
    let d = u64_to_dec(rec.sequence as u64);
    out.append(d.as_str());
    out.append(",\"base_entry_id\":");
    let d = u64_to_dec(rec.base_entry_id);
    out.append(d.as_str());
    out.append(",\"base_entry_sequence\":");
    let d = u64_to_dec(rec.base_entry_sequence as u64);
    out.append(d.as_str());
    out.append(",\"hard_link_count\":");
    let d = u64_to_dec(rec.hard_link_count as u64);
    out.append(d.as_str());
    out.append(",\"flags\":\"");
    escape_append(&mut out, rec.flags.as_str());
    out.append("\",\"used_entry_size\":");
    let d = u64_to_dec(rec.used_entry_size as u64);
    out.append(d.as_str());
    out.append(",\"total_entry_size\":");
    let d = u64_to_dec(rec.total_entry_size as u64);
    out.append(d.as_str());
    out.append(",\"file_size\":");
    let d = u64_to_dec(rec.file_size);
    out.append(d.as_str());
    out.append(",\"is_a_directory\":");
    append_bool(&mut out, rec.is_a_directory);
    out.append(",\"is_deleted\":");
    append_bool(&mut out, rec.is_deleted);
    out.append(",\"has_alternate_data_streams\":");
    append_bool(&mut out, rec.has_alternate_data_streams);
    out.append(",\"standard_info_flags\":");
    append_opt(&mut out, &rec.standard_info_flags);
    out.append(",\"standard_info_last_modified\":");
    append_opt(&mut out, &rec.standard_info_last_modified);
    out.append(",\"standard_info_last_access\":");
    append_opt(&mut out, &rec.standard_info_last_access);
    out.append(",\"standard_info_created\":");
    append_opt(&mut out, &rec.standard_info_created);
    out.append(",\"file_name_flags\":");
    append_opt(&mut out, &rec.file_name_flags);
    out.append(",\"file_name_last_modified\":");
    append_opt(&mut out, &rec.file_name_last_modified);
    out.append(",\"file_name_last_access\":");
    append_opt(&mut out, &rec.file_name_last_access);
    out.append(",\"file_name_created\":");
    append_opt(&mut out, &rec.file_name_created);
    out.append(",\"full_path\":\"");
    escape_append(&mut out, rec.full_path.as_str());
    out.append("\"}");
    out
}

/// Appends the JSON spelling of a boolean.
fn append_bool(out: &mut String, b: bool)
    ensures
        final(out)@ == old(out)@ + bool_text(b),
{
    if b {
        out.append("true");
    } else {
        out.append("false");
    }
}

} // verus!
