//! The decoded-record model.
//!
//! What the decoder reads out of one slot arrives in three plain
//! pieces — the header fields, the best filename attribute, the
//! standard-information attribute — plus the list of data attributes.
//! A slot that decodes is summarised as an `MftRecord`: the flattened
//! field set of the bulk export, all plain values, so that every rule
//! about a record can be stated and proved.  Timestamps and flag sets
//! are carried as the text the decoder printed them in; the slot
//! signature is carried as the little-endian reading of its four
//! bytes, so the well-known empty-slot marker is the value zero.

use vstd::prelude::*;

verus! {

/// The signature value of a slot that was never allocated: four zero
/// bytes, read as one little-endian integer.
pub const EMPTY_SLOT_SIGNATURE: u32 = 0;

/// The header fields of one decoded slot.
pub struct CoreFields {
    /// The four signature bytes, little endian.
    pub signature: u32,
    /// The index of the slot this record came from.
    pub entry_id: u64,
    pub sequence: u16,
    pub base_entry_id: u64,
    pub base_entry_sequence: u16,
    pub hard_link_count: u16,
    /// The raw allocation flag bits.
    pub flags_bits: u16,
    /// The flag set as the decoder prints it.
    pub flags_text: String,
    pub used_entry_size: u32,
    pub total_entry_size: u32,
}

/// The mathematical shadow of `CoreFields`.
pub struct CoreView {
    pub signature: u32,
    pub entry_id: u64,
    pub sequence: u16,
    pub base_entry_id: u64,
    pub base_entry_sequence: u16,
    pub hard_link_count: u16,
    pub flags_bits: u16,
    pub flags_text: Seq<char>,
    pub used_entry_size: u32,
    pub total_entry_size: u32,
}

impl View for CoreFields {
    type V = CoreView;

    open spec fn view(&self) -> CoreView {
        CoreView {
            signature: self.signature,
            entry_id: self.entry_id,
            sequence: self.sequence,
            base_entry_id: self.base_entry_id,
            base_entry_sequence: self.base_entry_sequence,
            hard_link_count: self.hard_link_count,
            flags_bits: self.flags_bits,
            flags_text: self.flags_text@,
            used_entry_size: self.used_entry_size,
            total_entry_size: self.total_entry_size,
        }
    }
}

/// The best filename attribute of one decoded slot.
pub struct NameInfo {
    pub name: String,
    /// The slot index of the parent directory reference.
    pub parent_entry: u64,
    pub flags_text: String,
    pub created: String,
    pub modified: String,
    pub accessed: String,
}

/// The mathematical shadow of `NameInfo`.
pub struct NameView {
    pub name: Seq<char>,
    pub parent_entry: u64,
    pub flags_text: Seq<char>,
    pub created: Seq<char>,
    pub modified: Seq<char>,
    pub accessed: Seq<char>,
}

impl View for NameInfo {
    type V = NameView;

    open spec fn view(&self) -> NameView {
        NameView {
            name: self.name@,
            parent_entry: self.parent_entry,
            flags_text: self.flags_text@,
            created: self.created@,
            modified: self.modified@,
            accessed: self.accessed@,
        }
    }
}

/// The shadow of an optional filename attribute.
pub open spec fn name_view_of(n: Option<NameInfo>) -> Option<NameView> {
    match n {
        Some(x) => Some(x@),
        None => None,
    }
}

/// The standard-information attribute of one decoded slot.
pub struct StdInfo {
    pub flags_text: String,
    pub created: String,
    pub modified: String,
    pub accessed: String,
}

/// The mathematical shadow of `StdInfo`.
pub struct StdView {
    pub flags_text: Seq<char>,
    pub created: Seq<char>,
    pub modified: Seq<char>,
    pub accessed: Seq<char>,
}

impl View for StdInfo {
    type V = StdView;

    open spec fn view(&self) -> StdView {
        StdView {
            flags_text: self.flags_text@,
            created: self.created@,
            modified: self.modified@,
            accessed: self.accessed@,
        }
    }
}

/// The shadow of an optional standard-information attribute.
pub open spec fn std_view_of(s: Option<StdInfo>) -> Option<StdView> {
    match s {
        Some(x) => Some(x@),
        None => None,
    }
}

/// One data attribute of a decoded slot: its content size and its
/// stream name (empty for the main stream).
pub struct DataInfo {
    pub size: u64,
    pub name: String,
}

/// The mathematical shadow of `DataInfo`.
pub struct DataView {
    pub size: u64,
    pub name: Seq<char>,
}

impl View for DataInfo {
    type V = DataView;

    open spec fn view(&self) -> DataView {
        DataView { size: self.size, name: self.name@ }
    }
}

/// The shadows of a list of data attributes.
pub open spec fn data_views_of(v: Seq<DataInfo>) -> Seq<DataView> {
    v.map_values(|d: DataInfo| d@)
}

/// One decoded MFT record, flattened to plain values: the same field
/// set, in the same order, as the bulk export's flattening.
pub struct MftRecord {
    /// The four signature bytes of the slot header, little endian.
    pub signature: u32,
    pub entry_id: u64,
    pub sequence: u16,
    pub base_entry_id: u64,
    pub base_entry_sequence: u16,
    pub hard_link_count: u16,
    /// The entry flag set as the decoder prints it.
    pub flags: String,
    /// The raw entry flag bits behind `flags`.
    pub flags_bits: u16,
    pub used_entry_size: u32,
    pub total_entry_size: u32,
    /// The size of the first data attribute's content, zero when none.
    pub file_size: u64,
    pub is_a_directory: bool,
    pub is_deleted: bool,
    pub has_alternate_data_streams: bool,
    pub standard_info_flags: Option<String>,
    pub standard_info_last_modified: Option<String>,
    pub standard_info_last_access: Option<String>,
    pub standard_info_created: Option<String>,
    pub file_name_flags: Option<String>,
    pub file_name_last_modified: Option<String>,
    pub file_name_last_access: Option<String>,
    pub file_name_created: Option<String>,
    /// The resolved full path; empty when resolution failed, which the
    /// object renderer reports as a field-level soft error.
    pub full_path: String,
}

/// The mathematical shadow of an `MftRecord`.
pub struct RecordView {
    pub signature: u32,
    pub entry_id: u64,
    pub sequence: u16,
    pub base_entry_id: u64,
    pub base_entry_sequence: u16,
    pub hard_link_count: u16,
    pub flags: Seq<char>,
    pub flags_bits: u16,
    pub used_entry_size: u32,
    pub total_entry_size: u32,
    pub file_size: u64,
    pub is_a_directory: bool,
    pub is_deleted: bool,
    pub has_alternate_data_streams: bool,
    pub standard_info_flags: Option<Seq<char>>,
    pub standard_info_last_modified: Option<Seq<char>>,
    pub standard_info_last_access: Option<Seq<char>>,
    pub standard_info_created: Option<Seq<char>>,
    pub file_name_flags: Option<Seq<char>>,
    pub file_name_last_modified: Option<Seq<char>>,
    pub file_name_last_access: Option<Seq<char>>,
    pub file_name_created: Option<Seq<char>>,
    pub full_path: Seq<char>,
}

/// The shadow of an optional text field.
pub open spec fn opt_view(s: Option<String>) -> Option<Seq<char>> {
    match s {
        Some(x) => Some(x@),
        None => None,
    }
}

impl View for MftRecord {
    type V = RecordView;

    open spec fn view(&self) -> RecordView {
        RecordView {
            signature: self.signature,
            entry_id: self.entry_id,
            sequence: self.sequence,
            base_entry_id: self.base_entry_id,
            base_entry_sequence: self.base_entry_sequence,
            hard_link_count: self.hard_link_count,
            flags: self.flags@,
            flags_bits: self.flags_bits,
            used_entry_size: self.used_entry_size,
            total_entry_size: self.total_entry_size,
            file_size: self.file_size,
            is_a_directory: self.is_a_directory,
            is_deleted: self.is_deleted,
            has_alternate_data_streams: self.has_alternate_data_streams,
            standard_info_flags: opt_view(self.standard_info_flags),
            standard_info_last_modified: opt_view(self.standard_info_last_modified),
            standard_info_last_access: opt_view(self.standard_info_last_access),
            standard_info_created: opt_view(self.standard_info_created),
            file_name_flags: opt_view(self.file_name_flags),
            file_name_last_modified: opt_view(self.file_name_last_modified),
            file_name_last_access: opt_view(self.file_name_last_access),
            file_name_created: opt_view(self.file_name_created),
            full_path: self.full_path@,
        }
    }
}

/// The structured value handed out in object mode: the record's own
/// fields plus the cross-reference resolution result made explicit.
pub struct ObjectRecord {
    pub signature: u32,
    pub entry_id: u64,
    pub sequence: u16,
    pub base_entry_id: u64,
    pub base_entry_sequence: u16,
    pub hard_link_count: u16,
    pub flags: String,
    pub flags_bits: u16,
    pub used_entry_size: u32,
    pub total_entry_size: u32,
    pub file_size: u64,
    pub is_a_directory: bool,
    pub is_deleted: bool,
    pub has_alternate_data_streams: bool,
    pub standard_info_flags: Option<String>,
    pub standard_info_last_modified: Option<String>,
    pub standard_info_last_access: Option<String>,
    pub standard_info_created: Option<String>,
    pub file_name_flags: Option<String>,
    pub file_name_last_modified: Option<String>,
    pub file_name_last_access: Option<String>,
    pub file_name_created: Option<String>,
    /// The resolved full path, empty when unresolved.
    pub full_path: String,
    /// False exactly when path resolution failed for this record; the
    /// record is still returned (a field-level soft error, not a hard
    /// failure).
    pub path_resolved: bool,
}

/// The mathematical shadow of an `ObjectRecord`.
pub struct ObjectView {
    pub signature: u32,
    pub entry_id: u64,
    pub sequence: u16,
    pub base_entry_id: u64,
    pub base_entry_sequence: u16,
    pub hard_link_count: u16,
    pub flags: Seq<char>,
    pub flags_bits: u16,
    pub used_entry_size: u32,
    pub total_entry_size: u32,
    pub file_size: u64,
    pub is_a_directory: bool,
    pub is_deleted: bool,
    pub has_alternate_data_streams: bool,
    pub standard_info_flags: Option<Seq<char>>,
    pub standard_info_last_modified: Option<Seq<char>>,
    pub standard_info_last_access: Option<Seq<char>>,
    pub standard_info_created: Option<Seq<char>>,
    pub file_name_flags: Option<Seq<char>>,
    pub file_name_last_modified: Option<Seq<char>>,
    pub file_name_last_access: Option<Seq<char>>,
    pub file_name_created: Option<Seq<char>>,
    pub full_path: Seq<char>,
    pub path_resolved: bool,
}

impl View for ObjectRecord {
    type V = ObjectView;

    open spec fn view(&self) -> ObjectView {
        ObjectView {
            signature: self.signature,
            entry_id: self.entry_id,
            sequence: self.sequence,
            base_entry_id: self.base_entry_id,
            base_entry_sequence: self.base_entry_sequence,
            hard_link_count: self.hard_link_count,
            flags: self.flags@,
            flags_bits: self.flags_bits,
            used_entry_size: self.used_entry_size,
            total_entry_size: self.total_entry_size,
            file_size: self.file_size,
            is_a_directory: self.is_a_directory,
            is_deleted: self.is_deleted,
            has_alternate_data_streams: self.has_alternate_data_streams,
            standard_info_flags: opt_view(self.standard_info_flags),
            standard_info_last_modified: opt_view(self.standard_info_last_modified),
            standard_info_last_access: opt_view(self.standard_info_last_access),
            standard_info_created: opt_view(self.standard_info_created),
            file_name_flags: opt_view(self.file_name_flags),
            file_name_last_modified: opt_view(self.file_name_last_modified),
            file_name_last_access: opt_view(self.file_name_last_access),
            file_name_created: opt_view(self.file_name_created),
            full_path: self.full_path@,
            path_resolved: self.path_resolved,
        }
    }
}

/// What the object renderer returns for a record: every field of the
/// record, with an unresolved path reported explicitly.
pub open spec fn object_of(r: RecordView) -> ObjectView {
    ObjectView {
        signature: r.signature,
        entry_id: r.entry_id,
        sequence: r.sequence,
        base_entry_id: r.base_entry_id,
        base_entry_sequence: r.base_entry_sequence,
        hard_link_count: r.hard_link_count,
        flags: r.flags,
        flags_bits: r.flags_bits,
        used_entry_size: r.used_entry_size,
        total_entry_size: r.total_entry_size,
        file_size: r.file_size,
        is_a_directory: r.is_a_directory,
        is_deleted: r.is_deleted,
        has_alternate_data_streams: r.has_alternate_data_streams,
        standard_info_flags: r.standard_info_flags,
        standard_info_last_modified: r.standard_info_last_modified,
        standard_info_last_access: r.standard_info_last_access,
        standard_info_created: r.standard_info_created,
        file_name_flags: r.file_name_flags,
        file_name_last_modified: r.file_name_last_modified,
        file_name_last_access: r.file_name_last_access,
        file_name_created: r.file_name_created,
        full_path: r.full_path,
        path_resolved: r.full_path.len() > 0,
    }
}

/// Clones an optional text field.
fn clone_opt(s: &Option<String>) -> (r: Option<String>)
    ensures
        opt_view(r) == opt_view(*s),
{
    match s {
        Some(x) => Some(x.clone()),
        None => None,
    }
}

impl MftRecord {
    /// Renders the record as a structured object (object output mode).
    pub fn to_object(&self) -> (o: ObjectRecord)
        ensures
            o@ == object_of(self@),
    {
        ObjectRecord {
            signature: self.signature,
            entry_id: self.entry_id,
            sequence: self.sequence,
            base_entry_id: self.base_entry_id,
            base_entry_sequence: self.base_entry_sequence,
            hard_link_count: self.hard_link_count,
            flags: self.flags.clone(),
            flags_bits: self.flags_bits,
            used_entry_size: self.used_entry_size,
            total_entry_size: self.total_entry_size,
            file_size: self.file_size,
            is_a_directory: self.is_a_directory,
            is_deleted: self.is_deleted,
            has_alternate_data_streams: self.has_alternate_data_streams,
            standard_info_flags: clone_opt(&self.standard_info_flags),
            standard_info_last_modified: clone_opt(&self.standard_info_last_modified),
            standard_info_last_access: clone_opt(&self.standard_info_last_access),
            standard_info_created: clone_opt(&self.standard_info_created),
            file_name_flags: clone_opt(&self.file_name_flags),
            file_name_last_modified: clone_opt(&self.file_name_last_modified),
            file_name_last_access: clone_opt(&self.file_name_last_access),
            file_name_created: clone_opt(&self.file_name_created),
            full_path: self.full_path.clone(),
            path_resolved: !self.full_path.as_str().is_empty(),
        }
    }
}

} // verus!
