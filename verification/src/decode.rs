//! The trusted boundary around the `mft` crate.
//!
//! A `Decoder` owns the parser that reads raw slot bytes.  The bytes it
//! was opened over are named `decoder_table`; what its slots hold is
//! named slot by slot (`slot_decodes`, `slot_core_of`, `slot_name_of`,
//! `slot_std_of`, `slot_data_of`): decoding an in-memory table is a
//! function of the table bytes and the slot index alone, so the same
//! call on the same table always answers the same.  Each wrapper makes
//! one read of one slot and converts the outcome to plain values; none
//! of them follows a parent reference into another slot — the verified
//! path resolution in the iterator does that, one vetted slot at a
//! time.

use vstd::prelude::*;

use crate::record::{CoreFields, CoreView, DataInfo, DataView, NameInfo, NameView, StdInfo, StdView};
use crate::table::{slot_count_of, slot_fixups_sane, slot_walk_sane, table_header_ok};

verus! {

/// The error type of the `mft` crate, carried opaquely until a caller
/// turns it into a message.
#[verifier::external_type_specification]
#[verifier::external_body]
pub struct ExMftError(mft::err::Error);

/// Owns the slot decoder of the `mft` crate together with the byte
/// source it reads.  Opaque: everything known about a value of this
/// type goes through `decoder_table` and the slot names below.
#[verifier::external_body]
pub struct Decoder {
    inner: mft::MftParser<std::io::Cursor<Vec<u8>>>,
}

/// The raw table bytes that the decoder was opened over.  The decoder
/// reads them and never changes them.
pub uninterp spec fn decoder_table(d: Decoder) -> Seq<u8>;

/// Whether slot `i` of the table decodes to an entry at all (any known
/// signature, the empty marker included), rather than to an error.
pub uninterp spec fn slot_decodes(t: Seq<u8>, i: int) -> bool;

/// The header fields of slot `i`, when it decodes.
pub uninterp spec fn slot_core_of(t: Seq<u8>, i: int) -> CoreView;

/// The best filename attribute of slot `i`, when it decodes: the name,
/// the parent reference and the attribute's own fields, or nothing when
/// the slot carries no readable filename attribute.
pub uninterp spec fn slot_name_of(t: Seq<u8>, i: int) -> Option<NameView>;

/// The standard-information attribute of slot `i`, when it decodes.
pub uninterp spec fn slot_std_of(t: Seq<u8>, i: int) -> Option<StdView>;

/// The data attributes of slot `i` (size and stream name each), in
/// walk order, when it decodes.
pub uninterp spec fn slot_data_of(t: Seq<u8>, i: int) -> Seq<DataView>;

impl Decoder {
    /// Relies on `mft::MftParser::from_buffer`: opens a parser over the
    /// given bytes.  With a readable table header the construction
    /// cannot fail, and the parser's slot size is the one the header
    /// holds.
    #[verifier::external_body]
    pub fn open_buffer(buffer: Vec<u8>) -> (d: Decoder)
        requires
            table_header_ok(buffer@),
        ensures
            decoder_table(d) == buffer@,
    {
        let inner = mft::MftParser::from_buffer(buffer).expect("readable table header");
        Decoder { inner }
    }

    /// Relies on `mft::MftParser::get_entry_count`: the table size
    /// divided by the slot size read from the first slot's header.
    #[verifier::external_body]
    pub fn entry_count(&self) -> (r: u64)
        requires
            table_header_ok(decoder_table(*self)),
        ensures
            r as int == slot_count_of(decoder_table(*self)),
    {
        self.inner.get_entry_count()
    }

    /// Relies on `mft::MftParser::get_entry`: reads and decodes slot
    /// `index` and hands its header fields over as plain values.  The
    /// bounds required here keep the decoder's fixup application
    /// inside the slot; the flag text is the flag set printed by the
    /// `mft` crate.
    #[verifier::external_body]
    pub fn decode_core(&mut self, index: u64) -> (r: Result<CoreFields, mft::err::Error>)
        requires
            table_header_ok(decoder_table(*old(self))),
            (index as int) < slot_count_of(decoder_table(*old(self))),
            slot_fixups_sane(decoder_table(*old(self)), index as int),
        ensures
            decoder_table(*final(self)) == decoder_table(*old(self)),
            r is Ok <==> slot_decodes(decoder_table(*old(self)), index as int),
            r matches Ok(c) ==> c@ == slot_core_of(decoder_table(*old(self)), index as int),
    {
        let e = match self.inner.get_entry(index) { Ok(e) => e, Err(er) => return Err(er) };
        Ok(CoreFields {
            signature: u32::from_le_bytes(e.header.signature),
            entry_id: e.header.record_number, sequence: e.header.sequence,
            base_entry_id: e.header.base_reference.entry,
            base_entry_sequence: e.header.base_reference.sequence,
            hard_link_count: e.header.hard_link_count,
            flags_bits: e.header.flags.bits(), flags_text: format!("{:?}", e.header.flags),
            used_entry_size: e.header.used_entry_size,
            total_entry_size: e.header.total_entry_size,
        })
    }

    /// Relies on `mft::MftParser::get_entry` and
    /// `mft::MftEntry::find_best_name_attribute`: reads slot `index`
    /// and hands its best filename attribute over as plain values —
    /// the name of the human-readable namespace when the slot has one,
    /// else the first readable filename attribute.  Timestamps and
    /// flag sets arrive as the decoder's own printing of them (UTC
    /// text and the flag-name list).  The walk bound keeps the
    /// attribute iteration and its data-run reads finite and in
    /// bounds; the call reads this slot only.
    #[verifier::external_body]
    pub fn decode_name(&mut self, index: u64) -> (r: Result<Option<NameInfo>, mft::err::Error>)
        requires
            table_header_ok(decoder_table(*old(self))),
            (index as int) < slot_count_of(decoder_table(*old(self))),
            slot_fixups_sane(decoder_table(*old(self)), index as int),
            slot_walk_sane(decoder_table(*old(self)), index as int),
        ensures
            decoder_table(*final(self)) == decoder_table(*old(self)),
            r is Ok <==> slot_decodes(decoder_table(*old(self)), index as int),
            r matches Ok(n) ==> crate::record::name_view_of(n) == slot_name_of(
                decoder_table(*old(self)),
                index as int,
            ),
    {
        let e = match self.inner.get_entry(index) { Ok(e) => e, Err(er) => return Err(er) };
        Ok(e.find_best_name_attribute().map(|n| NameInfo {
            name: n.name, parent_entry: n.parent.entry,
            flags_text: format!("{:?}", n.flags), created: n.created.to_string(),
            modified: n.modified.to_string(), accessed: n.accessed.to_string(),
        }))
    }

    /// Relies on `mft::MftParser::get_entry` and
    /// `mft::MftEntry::iter_attributes_matching`: reads slot `index`
    /// and hands its standard-information attribute over as plain
    /// values, timestamps and flag set as the decoder prints them.
    /// The walk bound keeps the attribute iteration and its data-run
    /// reads finite and in bounds; the call reads this slot only.
    #[verifier::external_body]
    pub fn decode_std(&mut self, index: u64) -> (r: Result<Option<StdInfo>, mft::err::Error>)
        requires
            table_header_ok(decoder_table(*old(self))),
            (index as int) < slot_count_of(decoder_table(*old(self))),
            slot_fixups_sane(decoder_table(*old(self)), index as int),
            slot_walk_sane(decoder_table(*old(self)), index as int),
        ensures
            decoder_table(*final(self)) == decoder_table(*old(self)),
            r is Ok <==> slot_decodes(decoder_table(*old(self)), index as int),
            r matches Ok(s) ==> crate::record::std_view_of(s) == slot_std_of(
                decoder_table(*old(self)),
                index as int,
            ),
    {
        let e = match self.inner.get_entry(index) { Ok(e) => e, Err(er) => return Err(er) };
        let found = e.iter_attributes_matching(Some(vec![mft::attribute::MftAttributeType::StandardInformation]))
            .filter_map(Result::ok).find_map(|a| a.data.into_standard_info());
        Ok(found.map(|s| StdInfo {
            flags_text: format!("{:?}", s.file_flags), created: s.created.to_string(),
            modified: s.modified.to_string(), accessed: s.accessed.to_string(),
        }))
    }

    /// Relies on `mft::MftParser::get_entry` and
    /// `mft::MftEntry::iter_attributes_matching`: reads slot `index`
    /// and hands its data attributes over as plain values, in walk
    /// order.  The walk bound keeps the attribute iteration and its
    /// data-run reads finite and in bounds; the call reads this slot
    /// only.
    #[verifier::external_body]
    pub fn decode_data(&mut self, index: u64) -> (r: Result<Vec<DataInfo>, mft::err::Error>)
        requires
            table_header_ok(decoder_table(*old(self))),
            (index as int) < slot_count_of(decoder_table(*old(self))),
            slot_fixups_sane(decoder_table(*old(self)), index as int),
            slot_walk_sane(decoder_table(*old(self)), index as int),
        ensures
            decoder_table(*final(self)) == decoder_table(*old(self)),
            r is Ok <==> slot_decodes(decoder_table(*old(self)), index as int),
            r matches Ok(d) ==> crate::record::data_views_of(d@) == slot_data_of(
                decoder_table(*old(self)),
                index as int,
            ),
    {
        let e = match self.inner.get_entry(index) { Ok(e) => e, Err(er) => return Err(er) };
        let found: Vec<DataInfo> = e.iter_attributes_matching(Some(vec![mft::attribute::MftAttributeType::DATA]))
            .filter_map(Result::ok).map(|a| DataInfo {
                size: match &a.header.residential_header {
                    mft::attribute::header::ResidentialHeader::Resident(r) => u64::from(r.data_size),
                    mft::attribute::header::ResidentialHeader::NonResident(nr) => nr.file_size,
                },
                name: a.header.name,
            }).collect();
        Ok(found)
    }
}

/// Relies on the `Display` impl of `mft::err::Error`: prints the error.
#[verifier::external_body]
pub fn mft_error_message(e: &mft::err::Error) -> String {
    format!("{}", e)
}

} // verus!
