//! The record iterator: the stateful core of the crate.
//!
//! The iterator owns the decoder, keeps a monotone cursor over the
//! table's slots, silently skips slots whose signature is the
//! empty-slot marker, renders every other decoded record in its output
//! mode, and reports a per-slot failure as the pulled value of that
//! slot.  Exhaustion is terminal and free of side effects.
//!
//! Because decoding an in-memory table is deterministic, the record of
//! slot `i` is itself a spec-level value, `record_of`: the header
//! fields, the attribute summaries, and the full path resolved by
//! following parent references one vetted slot at a time, with a hop
//! bound so that even a cyclic parent chain ends.  One pull is
//! specified slot by slot: `spec_step_state` and `spec_step_emit` say,
//! for the state and the event a slot supplies, what the next state is
//! and what the caller sees; the laws module proves the sequence-level
//! consequences of those two functions.

use vstd::prelude::*;
use vstd::string::StringExecFns;

use crate::csvfmt::csv_buffer;
use crate::csvfmt::render_csv;
use crate::decode::{
    decoder_table, mft_error_message, slot_core_of, slot_data_of, slot_decodes, slot_name_of,
    slot_std_of, Decoder,
};
use crate::errors::{DecodeError, PullError, SerializationError};
use crate::json::{json_of, render_json};
use crate::record::{
    data_views_of, object_of, DataView, MftRecord, ObjectRecord, ObjectView, RecordView,
    EMPTY_SLOT_SIGNATURE,
};
use crate::table::{
    check_slot_fixups, check_slot_walk, entry_size_of, slot_count_of, slot_sane, table_header_ok,
};

verus! {

/// The output mode of an iterator, fixed at creation.
#[derive(Clone, Copy, PartialEq, Eq, Structural)]
pub enum Output {
    /// Structured in-memory objects.
    Object,
    /// JSON text, one string per record.
    JSON,
    /// CSV bytes, one row per record, with the header row in front of
    /// the first successfully rendered record.
    CSV,
}

/// One rendered record, in the shape of the iterator's output mode.
pub enum Rendered {
    Object(ObjectRecord),
    Json(String),
    Csv(Vec<u8>),
}

/// The mathematical shadow of a rendered value.
pub enum RenderedView {
    Object(ObjectView),
    Json(Seq<char>),
    Csv(Seq<u8>),
}

impl View for Rendered {
    type V = RenderedView;

    open spec fn view(&self) -> RenderedView {
        match self {
            Rendered::Object(o) => RenderedView::Object(o@),
            Rendered::Json(s) => RenderedView::Json(s@),
            Rendered::Csv(b) => RenderedView::Csv(b@),
        }
    }
}

/// What one pull returns.  Errors travel in the same sequence position
/// as the slot they belong to; they never end the iteration.
pub enum Pulled {
    /// The cursor is at the end of the table; nothing more will come.
    Exhausted,
    /// The record of one slot, rendered in the iterator's output mode.
    Value(Rendered),
    /// The failure of one slot; the next pull continues after it.
    Failed(PullError),
}

/// What decoding one slot produced.
pub enum SlotOutcome {
    /// The slot decoded to a record (the empty-slot marker included).
    Decoded(MftRecord),
    /// The slot could not be decoded.
    Undecodable(DecodeError),
}

/// The ghost state of an iterator.
pub struct IterView {
    pub current: int,
    pub total: int,
    pub format: Output,
    pub header_written: bool,
}

/// The event one slot supplies to the step relation: the slot was
/// empty, decoded to a record that is not an empty slot (with the
/// verdict of its CSV encoding, which only the CSV mode reads), or
/// failed to decode.
pub enum SlotEvent {
    Empty,
    Valid(RecordView, bool),
    Failed,
}

/// What a step hands to the caller.
pub enum Emission {
    /// The table is exhausted; the state did not move.
    Exhausted,
    /// An empty slot was passed over; the caller sees nothing for it.
    Skip,
    /// One rendered record.
    Value(RenderedView),
    /// The slot's decode failure, delivered as a value.
    DecodeFailed,
    /// The record decoded but could not be encoded.
    RenderFailed,
}

/// The rendering of a record in a mode, given the header state at the
/// moment of rendering.
pub open spec fn render_of(format: Output, r: RecordView, header_written: bool) -> RenderedView {
    match format {
        Output::Object => RenderedView::Object(object_of(r)),
        Output::JSON => RenderedView::Json(json_of(r)),
        Output::CSV => RenderedView::Csv(csv_buffer(r, !header_written)),
    }
}

/// The state after one slot is consumed.
pub open spec fn spec_step_state(st: IterView, ev: SlotEvent) -> IterView {
    if st.current == st.total {
        st
    } else {
        let adv = IterView { current: st.current + 1, ..st };
        match ev {
            SlotEvent::Empty => adv,
            SlotEvent::Failed => adv,
            SlotEvent::Valid(r, enc_ok) => {
                if st.format is CSV {
                    if enc_ok {
                        IterView { header_written: true, ..adv }
                    } else {
                        adv
                    }
                } else {
                    adv
                }
            },
        }
    }
}

/// What the caller sees for one consumed slot.
pub open spec fn spec_step_emit(st: IterView, ev: SlotEvent) -> Emission {
    if st.current == st.total {
        Emission::Exhausted
    } else {
        match ev {
            SlotEvent::Empty => Emission::Skip,
            SlotEvent::Failed => Emission::DecodeFailed,
            SlotEvent::Valid(r, enc_ok) => {
                if st.format is CSV && !enc_ok {
                    Emission::RenderFailed
                } else {
                    Emission::Value(render_of(st.format, r, st.header_written))
                }
            },
        }
    }
}

/// What an exec step result means as an emission.
pub open spec fn emission_of(r: Option<Pulled>) -> Emission {
    match r {
        None => Emission::Skip,
        Some(Pulled::Exhausted) => Emission::Exhausted,
        Some(Pulled::Value(v)) => Emission::Value(v@),
        Some(Pulled::Failed(PullError::Decode(_))) => Emission::DecodeFailed,
        Some(Pulled::Failed(PullError::Serialization(_))) => Emission::RenderFailed,
    }
}

/// Whether an event is the one a slot outcome stands for.
pub open spec fn event_of_outcome(oc: SlotOutcome, ev: SlotEvent) -> bool {
    match oc {
        SlotOutcome::Decoded(rec) => {
            if rec@.signature == EMPTY_SLOT_SIGNATURE {
                ev is Empty
            } else {
                ev matches SlotEvent::Valid(r, _) && r == rec@
            }
        },
        SlotOutcome::Undecodable(_) => ev is Failed,
    }
}

/// The full path that parent-following resolves, starting from an
/// accumulated tail and the parent reference to follow next.  Each hop
/// prepends the parent directory's own name.  The sentinels follow the
/// bulk export's: the root (slot five) closes the path; a zero parent
/// reference marks it orphaned; a reference that leaves the table, a
/// slot the decoder may not touch or cannot decode, and a named parent
/// that is not a directory mark it unknown; a parent without a name
/// contributes nothing and closes the path; a self-referential parent
/// marks its own level orphaned.  The hop budget ends even a cyclic
/// chain of directories.
pub open spec fn resolve_spec(t: Seq<u8>, acc: Seq<char>, p: u64, hops: nat) -> Seq<char>
    decreases hops,
{
    if hops == 0 {
        acc
    } else if p == 5 {
        acc
    } else if p == 0 {
        "[Orphaned]/"@ + acc
    } else if p as int >= slot_count_of(t) {
        "[Unknown]/"@ + acc
    } else if !slot_sane(t, p as int) {
        "[Unknown]/"@ + acc
    } else if !slot_decodes(t, p as int) {
        "[Unknown]/"@ + acc
    } else {
        match slot_name_of(t, p as int) {
            None => acc,
            Some(n) => {
                if slot_core_of(t, p as int).flags_bits & 2 == 0 {
                    "[Unknown]/"@ + acc
                } else if n.parent_entry == p {
                    "[Orphaned]/"@ + (n.name + "/"@ + acc)
                } else {
                    resolve_spec(t, n.name + "/"@ + acc, n.parent_entry, (hops - 1) as nat)
                }
            },
        }
    }
}

/// The resolved full path of slot `i`: empty when the slot has no name
/// attribute, its name marked orphaned when the slot is its own
/// parent, else its name under the chain of its parents' names.
pub open spec fn path_of(t: Seq<u8>, i: int) -> Seq<char> {
    match slot_name_of(t, i) {
        None => Seq::empty(),
        Some(n) => {
            if n.parent_entry as int == i {
                "[Orphaned]/"@ + n.name
            } else {
                resolve_spec(t, n.name, n.parent_entry, slot_count_of(t) as nat)
            }
        },
    }
}

/// Puts a sentinel (or any prefix) in front of a path.
fn prefixed(pre: &str, acc: String) -> (r: String)
    ensures
        r@ == pre@ + acc@,
{
    let mut r = String::from_str(pre);
    r.append(acc.as_str());
    r
}

/// The file size a slot reports: its first data attribute's content
/// size, zero when it has none.
pub open spec fn file_size_of(data: Seq<DataView>) -> u64 {
    if data.len() > 0 {
        data[0].size
    } else {
        0
    }
}

/// Whether any data attribute carries a stream name.
pub open spec fn has_ads_of(data: Seq<DataView>) -> bool {
    exists|k: int| 0 <= k < data.len() && data[k].name.len() > 0
}

/// The record of slot `i`: the flattened field set, assembled from the
/// slot names of the decode boundary and the resolved path.
pub open spec fn record_of(t: Seq<u8>, i: int) -> RecordView {
    let core = slot_core_of(t, i);
    let std = slot_std_of(t, i);
    let name = slot_name_of(t, i);
    let data = slot_data_of(t, i);
    RecordView {
        signature: core.signature,
        entry_id: core.entry_id,
        sequence: core.sequence,
        base_entry_id: core.base_entry_id,
        base_entry_sequence: core.base_entry_sequence,
        hard_link_count: core.hard_link_count,
        flags: core.flags_text,
        flags_bits: core.flags_bits,
        used_entry_size: core.used_entry_size,
        total_entry_size: core.total_entry_size,
        file_size: file_size_of(data),
        is_a_directory: core.flags_bits & 2 != 0,
        is_deleted: core.flags_bits & 1 == 0,
        has_alternate_data_streams: has_ads_of(data),
        standard_info_flags: match std {
            Some(s) => Some(s.flags_text),
            None => None,
        },
        standard_info_last_modified: match std {
            Some(s) => Some(s.modified),
            None => None,
        },
        standard_info_last_access: match std {
            Some(s) => Some(s.accessed),
            None => None,
        },
        standard_info_created: match std {
            Some(s) => Some(s.created),
            None => None,
        },
        file_name_flags: match name {
            Some(n) => Some(n.flags_text),
            None => None,
        },
        file_name_last_modified: match name {
            Some(n) => Some(n.modified),
            None => None,
        },
        file_name_last_access: match name {
            Some(n) => Some(n.accessed),
            None => None,
        },
        file_name_created: match name {
            Some(n) => Some(n.created),
            None => None,
        },
        full_path: path_of(t, i),
    }
}

/// Whether a pull passes slot `i` over in silence: the decoder may
/// touch it, it decodes, and its signature is the empty-slot marker.
pub open spec fn slot_skippable(t: Seq<u8>, i: int) -> bool {
    &&& slot_sane(t, i)
    &&& slot_decodes(t, i)
    &&& slot_core_of(t, i).signature == EMPTY_SLOT_SIGNATURE
}

/// The record iterator.  It owns the decoder and a copy of the raw
/// table (used to vet each slot's update-sequence fields and attribute
/// layout before the decoder touches the slot).
pub struct PyMftEntriesIterator {
    /// The decoder, owned exclusively for the iterator's lifetime.
    pub inner: Decoder,
    /// A copy of the raw table, read only for the per-slot vetting.
    pub table: Vec<u8>,
    /// The slot size, as the table's first header states it.
    pub entry_size: u64,
    /// The slot count snapshot taken at creation.
    pub total_number_of_records: u64,
    /// The cursor: the next slot to consume.  Monotone.
    pub current_record: u64,
    /// The output mode, fixed for the iterator's lifetime.
    pub output_format: Output,
    /// Whether a CSV buffer with the header row has been emitted.
    pub csv_header_written: bool,
}

impl View for PyMftEntriesIterator {
    type V = IterView;

    open spec fn view(&self) -> IterView {
        IterView {
            current: self.current_record as int,
            total: self.total_number_of_records as int,
            format: self.output_format,
            header_written: self.csv_header_written,
        }
    }
}

impl PyMftEntriesIterator {
    /// The internal consistency of an iterator: the copied table is the
    /// decoder's table, the cached sizes are the table's, and the
    /// cursor never passes the end.
    pub open spec fn wf(&self) -> bool {
        &&& table_header_ok(self.table@)
        &&& self.table@ == decoder_table(self.inner)
        &&& self.entry_size as int == entry_size_of(self.table@)
        &&& self.total_number_of_records as int == slot_count_of(self.table@)
        &&& self.current_record <= self.total_number_of_records
    }

    /// Builds an iterator at slot zero, bound to one output mode.
    pub fn new_from_parts(
        inner: Decoder,
        table: Vec<u8>,
        entry_size: u64,
        total: u64,
        output_format: Output,
    ) -> (it: Self)
        requires
            table_header_ok(table@),
            table@ == decoder_table(inner),
            entry_size as int == entry_size_of(table@),
            total as int == slot_count_of(table@),
        ensures
            it.wf(),
            it@ == (IterView {
                current: 0,
                total: total as int,
                format: output_format,
                header_written: false,
            }),
            it.table@ == table@,
    {
        PyMftEntriesIterator {
            inner,
            table,
            entry_size,
            total_number_of_records: total,
            current_record: 0,
            output_format,
            csv_header_written: false,
        }
    }

    /// The total slot count snapshot this iterator was created with.
    pub fn total_records(&self) -> (r: u64)
        ensures
            r as int == self@.total,
    {
        self.total_number_of_records
    }

    /// The cursor: the index of the next slot to be consumed.
    pub fn current_position(&self) -> (r: u64)
        ensures
            r as int == self@.current,
    {
        self.current_record
    }

    /// Whether the CSV header row has been emitted already.
    pub fn header_written(&self) -> (r: bool)
        ensures
            r == self@.header_written,
    {
        self.csv_header_written
    }

    /// Renders a record as a structured object (object mode).
    pub fn entry_to_object(&self, rec: &MftRecord) -> (o: ObjectRecord)
        ensures
            o@ == object_of(rec@),
    {
        rec.to_object()
    }

    /// Renders a record as JSON text (JSON mode).  Total: a record
    /// always has a JSON form, so no serialization failure can arise.
    pub fn entry_to_json(&self, rec: &MftRecord) -> (s: String)
        ensures
            s@ == json_of(rec@),
    {
        render_json(rec)
    }

    /// Renders a record as CSV bytes (CSV mode), putting the header row
    /// in front exactly when no record was successfully rendered
    /// before, and advancing the header state on success only.
    /// Encoding into the in-memory buffer always succeeds.
    pub fn entry_to_csv(&mut self, rec: &MftRecord) -> (r: Result<Vec<u8>, SerializationError>)
        ensures
            final(self).inner == old(self).inner,
            final(self).table == old(self).table,
            final(self).entry_size == old(self).entry_size,
            final(self).total_number_of_records == old(self).total_number_of_records,
            final(self).current_record == old(self).current_record,
            final(self).output_format == old(self).output_format,
            r is Ok,
            r matches Ok(b) ==> b@ == csv_buffer(rec@, !old(self).csv_header_written)
                && final(self).csv_header_written,
            r is Err ==> final(self).csv_header_written == old(self).csv_header_written,
    {
        match render_csv(rec, !self.csv_header_written) {
            Ok(b) => {
                self.csv_header_written = true;
                Ok(b)
            },
            Err(e) => Err(e),
        }
    }

    /// Follows the parent references of a name upward, prepending each
    /// parent directory's own name or the sentinel its stop case
    /// names, exactly as `resolve_spec` says.  Every slot is vetted
    /// before the decoder touches it, and the hop budget ends even a
    /// cyclic chain.
    fn resolve_path(&mut self, start: String, parent: u64, hops: u64) -> (r: String)
        requires
            old(self).wf(),
        ensures
            final(self).wf(),
            final(self).table == old(self).table,
            final(self).entry_size == old(self).entry_size,
            final(self).total_number_of_records == old(self).total_number_of_records,
            final(self).current_record == old(self).current_record,
            final(self).output_format == old(self).output_format,
            final(self).csv_header_written == old(self).csv_header_written,
            r@ == resolve_spec(old(self).table@, start@, parent, hops as nat),
    {
        let ghost t = self.table@;
        let mut acc = start;
        let mut p = parent;
        let mut h = hops;
        loop
            invariant
                self.wf(),
                self.table == old(self).table,
                self.entry_size == old(self).entry_size,
                self.total_number_of_records == old(self).total_number_of_records,
                self.current_record == old(self).current_record,
                self.output_format == old(self).output_format,
                self.csv_header_written == old(self).csv_header_written,
                t == self.table@,
                resolve_spec(t, acc@, p, h as nat) == resolve_spec(
                    t,
                    start@,
                    parent,
                    hops as nat,
                ),
            decreases h,
        {
            if h == 0 || p == 5 {
                return acc;
            }
            if p == 0 {
                return prefixed("[Orphaned]/", acc);
            }
            if p >= self.total_number_of_records {
                return prefixed("[Unknown]/", acc);
            }
            let fixups_ok = check_slot_fixups(&self.table, p, self.entry_size);
            if !fixups_ok {
                return prefixed("[Unknown]/", acc);
            }
            let walk_ok = check_slot_walk(&self.table, p, self.entry_size);
            if !walk_ok {
                return prefixed("[Unknown]/", acc);
            }
            let core = match self.inner.decode_core(p) {
                Ok(c) => c,
                Err(_) => {
                    return prefixed("[Unknown]/", acc);
                },
            };
            match self.inner.decode_name(p) {
                Err(_) => {
                    return prefixed("[Unknown]/", acc);
                },
                Ok(None) => {
                    return acc;
                },
                Ok(Some(n)) => {
                    if core.flags_bits & 2 == 0 {
                        return prefixed("[Unknown]/", acc);
                    }
                    let mut np = n.name;
                    np.append("/");
                    np.append(acc.as_str());
                    if n.parent_entry == p {
                        return prefixed("[Orphaned]/", np);
                    }
                    acc = np;
                    p = n.parent_entry;
                    h = h - 1;
                },
            }
        }
    }

    /// Reads the slot at `idx` through the decode boundary and
    /// assembles its record: the header fields, the attribute
    /// summaries, the file size, the stream flag, and the resolved
    /// path.  Succeeds exactly when the slot decodes.
    fn read_record(&mut self, idx: u64) -> (r: SlotOutcome)
        requires
            old(self).wf(),
            idx < old(self).total_number_of_records,
            slot_sane(old(self).table@, idx as int),
        ensures
            final(self).wf(),
            final(self).table == old(self).table,
            final(self).entry_size == old(self).entry_size,
            final(self).total_number_of_records == old(self).total_number_of_records,
            final(self).current_record == old(self).current_record,
            final(self).output_format == old(self).output_format,
            final(self).csv_header_written == old(self).csv_header_written,
            r is Decoded <==> slot_decodes(old(self).table@, idx as int),
            r matches SlotOutcome::Decoded(rec) ==> rec@.signature == slot_core_of(
                old(self).table@,
                idx as int,
            ).signature,
            r matches SlotOutcome::Decoded(rec) ==> (rec@.signature != EMPTY_SLOT_SIGNATURE
                ==> rec@ == record_of(old(self).table@, idx as int)),
    {
        let ghost t = self.table@;
        let core = match self.inner.decode_core(idx) {
            Ok(c) => c,
            Err(e) => {
                let message = mft_error_message(&e);
                return SlotOutcome::Undecodable(DecodeError { message });
            },
        };
        if core.signature == EMPTY_SLOT_SIGNATURE {
            return SlotOutcome::Decoded(empty_marker_record(core.signature));
        }
        let name = match self.inner.decode_name(idx) {
            Ok(n) => n,
            Err(e) => {
                let message = mft_error_message(&e);
                return SlotOutcome::Undecodable(DecodeError { message });
            },
        };
        let std = match self.inner.decode_std(idx) {
            Ok(s) => s,
            Err(e) => {
                let message = mft_error_message(&e);
                return SlotOutcome::Undecodable(DecodeError { message });
            },
        };
        let data = match self.inner.decode_data(idx) {
            Ok(d) => d,
            Err(e) => {
                let message = mft_error_message(&e);
                return SlotOutcome::Undecodable(DecodeError { message });
            },
        };
        let file_size: u64 = if data.len() > 0 {
            data[0].size
        } else {
            0
        };
        let mut has_ads = false;
        let mut j: usize = 0;
        while j < data.len()
            invariant
                j <= data@.len(),
                has_ads == exists|k: int| 0 <= k < j && data@[k].name@.len() > 0,
            decreases data@.len() - j,
        {
            if !data[j].name.as_str().is_empty() {
                has_ads = true;
            }
            j = j + 1;
        }
        proof {
            assert(data_views_of(data@).len() == data@.len());
            assert(forall|k: int|
                0 <= k < data@.len() ==> #[trigger] data_views_of(data@)[k] == data@[k]@);
            if has_ads {
                let k = choose|k: int| 0 <= k < data@.len() && data@[k].name@.len() > 0;
                assert(data_views_of(data@)[k].name.len() > 0);
                assert(has_ads_of(data_views_of(data@)));
            } else if has_ads_of(data_views_of(data@)) {
                let k = choose|k: int|
                    0 <= k < data_views_of(data@).len() && data_views_of(data@)[k].name.len() > 0;
                assert(data@[k].name@.len() > 0);
                assert(false);
            }
            assert(has_ads == has_ads_of(data_views_of(data@)));
            if data@.len() > 0 {
                assert(file_size == file_size_of(data_views_of(data@)));
            }
        }
        let full_path = match &name {
            None => String::new(),
            Some(n) => {
                if n.parent_entry == idx {
                    prefixed("[Orphaned]/", n.name.clone())
                } else {
                    let hops = self.total_number_of_records;
                    self.resolve_path(n.name.clone(), n.parent_entry, hops)
                }
            },
        };
        let ghost gstd = std;
        let (si_flags, si_modified, si_accessed, si_created) = match std {
            Some(s) => (Some(s.flags_text), Some(s.modified), Some(s.accessed), Some(s.created)),
            None => (None, None, None, None),
        };
        let (fn_flags, fn_modified, fn_accessed, fn_created) = match &name {
            Some(n) => (
                Some(n.flags_text.clone()),
                Some(n.modified.clone()),
                Some(n.accessed.clone()),
                Some(n.created.clone()),
            ),
            None => (None, None, None, None),
        };
        let rec = MftRecord {
            signature: core.signature,
            entry_id: core.entry_id,
            sequence: core.sequence,
            base_entry_id: core.base_entry_id,
            base_entry_sequence: core.base_entry_sequence,
            hard_link_count: core.hard_link_count,
            flags: core.flags_text,
            flags_bits: core.flags_bits,
            used_entry_size: core.used_entry_size,
            total_entry_size: core.total_entry_size,
            file_size,
            is_a_directory: core.flags_bits & 2 != 0,
            is_deleted: core.flags_bits & 1 == 0,
            has_alternate_data_streams: has_ads,
            standard_info_flags: si_flags,
            standard_info_last_modified: si_modified,
            standard_info_last_access: si_accessed,
            standard_info_created: si_created,
            file_name_flags: fn_flags,
            file_name_last_modified: fn_modified,
            file_name_last_access: fn_accessed,
            file_name_created: fn_created,
            full_path,
        };
        proof {
            assert(rec@ == record_of(t, idx as int));
        }
        SlotOutcome::Decoded(rec)
    }

    /// Consumes the slot at the cursor, given what decoding it
    /// produced: advances the cursor by one, skips an empty slot
    /// silently, renders any other record in the output mode, and
    /// reports failures as values.  The result and the new state are
    /// exactly one step of the spec machine.
    pub fn consume(&mut self, oc: SlotOutcome) -> (r: Option<Pulled>)
        requires
            old(self).wf(),
            old(self)@.current < old(self)@.total,
        ensures
            final(self).wf(),
            final(self).inner == old(self).inner,
            final(self).table == old(self).table,
            final(self).entry_size == old(self).entry_size,
            final(self)@.current == old(self)@.current + 1,
            final(self)@.total == old(self)@.total,
            final(self)@.format == old(self)@.format,
            exists|ev: SlotEvent|
                #![auto]
                event_of_outcome(oc, ev) && final(self)@ == spec_step_state(old(self)@, ev)
                    && emission_of(r) == spec_step_emit(old(self)@, ev),
            r is None <==> (oc matches SlotOutcome::Decoded(rec) && rec@.signature
                == EMPTY_SLOT_SIGNATURE),
            r is None ==> final(self)@.header_written == old(self)@.header_written,
            oc matches SlotOutcome::Undecodable(e) ==> r == Some(
                Pulled::Failed(PullError::Decode(e)),
            ) && final(self)@.header_written == old(self)@.header_written,
            oc matches SlotOutcome::Decoded(rec) ==> (rec@.signature != EMPTY_SLOT_SIGNATURE
                ==> match old(self)@.format {
                Output::Object => (r matches Some(Pulled::Value(Rendered::Object(o))) && o@
                    == object_of(rec@)) && final(self)@.header_written == old(
                    self,
                )@.header_written,
                Output::JSON => (r matches Some(Pulled::Value(Rendered::Json(s))) && s@ == json_of(
                    rec@,
                )) && final(self)@.header_written == old(self)@.header_written,
                Output::CSV => (r matches Some(Pulled::Value(Rendered::Csv(b))) && b@ == csv_buffer(
                    rec@,
                    !old(self)@.header_written,
                )) && final(self)@.header_written,
            }),
    {
        let ghost st0 = self@;
        let ghost goc = oc;
        let step_result: Option<Pulled> = match oc {
            SlotOutcome::Decoded(rec) => {
                if rec.signature == EMPTY_SLOT_SIGNATURE {
                    None
                } else {
                    match self.output_format {
                        Output::Object => Some(Pulled::Value(Rendered::Object(rec.to_object()))),
                        Output::JSON => Some(Pulled::Value(Rendered::Json(render_json(&rec)))),
                        Output::CSV => {
                            match render_csv(&rec, !self.csv_header_written) {
                                Ok(b) => {
                                    self.csv_header_written = true;
                                    Some(Pulled::Value(Rendered::Csv(b)))
                                },
                                Err(e) => Some(Pulled::Failed(PullError::Serialization(e))),
                            }
                        },
                    }
                }
            },
            SlotOutcome::Undecodable(e) => Some(Pulled::Failed(PullError::Decode(e))),
        };
        self.current_record = self.current_record + 1;
        proof {
            match goc {
                SlotOutcome::Decoded(rec) => {
                    if rec@.signature == EMPTY_SLOT_SIGNATURE {
                        assert(event_of_outcome(goc, SlotEvent::Empty));
                        assert(final(self)@ == spec_step_state(st0, SlotEvent::Empty));
                        assert(emission_of(step_result) == spec_step_emit(st0, SlotEvent::Empty));
                    } else {
                        let enc_ok = !(step_result matches Some(Pulled::Failed(_)));
                        let ev = SlotEvent::Valid(rec@, enc_ok);
                        assert(event_of_outcome(goc, ev));
                        assert(final(self)@ == spec_step_state(st0, ev));
                        assert(emission_of(step_result) == spec_step_emit(st0, ev));
                    }
                },
                SlotOutcome::Undecodable(_) => {
                    assert(event_of_outcome(goc, SlotEvent::Failed));
                    assert(final(self)@ == spec_step_state(st0, SlotEvent::Failed));
                    assert(emission_of(step_result) == spec_step_emit(st0, SlotEvent::Failed));
                },
            }
        }
        step_result
    }

    /// Pulls the next value.  The pull lands on the first slot at or
    /// after the cursor that is not a silently-skipped empty slot:
    /// a slot the decoder may not touch or cannot decode yields its
    /// error as the pulled value, and any other slot yields exactly its
    /// record, rendered in the output mode; at the end of the table the
    /// call returns `Exhausted`, changes nothing, and keeps doing so on
    /// every later call.  The CSV header state advances exactly when a
    /// CSV buffer is handed out.
    pub fn next(&mut self) -> (r: Pulled)
        requires
            old(self).wf(),
        ensures
            final(self).wf(),
            final(self)@.total == old(self)@.total,
            final(self)@.format == old(self)@.format,
            final(self).table == old(self).table,
            old(self)@.current <= final(self)@.current <= final(self)@.total,
            old(self)@.current == old(self)@.total ==> r is Exhausted && *final(self) == *old(
                self,
            ),
            r is Exhausted ==> final(self)@.current == final(self)@.total,
            !(r is Exhausted) ==> final(self)@.current > old(self)@.current,
            final(self)@.header_written == (old(self)@.header_written || (r matches Pulled::Value(
                Rendered::Csv(_),
            ))),
            r is Exhausted ==> forall|j: int|
                old(self)@.current <= j < old(self)@.total ==> slot_skippable(
                    old(self).table@,
                    j,
                ),
            !(r is Exhausted) ==> {
                let s = final(self)@.current - 1;
                let t = old(self).table@;
                &&& old(self)@.current <= s < old(self)@.total
                &&& forall|j: int| old(self)@.current <= j < s ==> slot_skippable(t, j)
                &&& !slot_skippable(t, s)
                &&& (!slot_sane(t, s) ==> r matches Pulled::Failed(PullError::Decode(_)))
                &&& (slot_sane(t, s) && !slot_decodes(t, s) ==> r matches Pulled::Failed(
                    PullError::Decode(_),
                ))
                &&& (slot_sane(t, s) && slot_decodes(t, s) ==> slot_core_of(t, s).signature
                    != EMPTY_SLOT_SIGNATURE && (match old(self)@.format {
                    Output::Object => r matches Pulled::Value(Rendered::Object(o)) && o@
                        == object_of(record_of(t, s)),
                    Output::JSON => r matches Pulled::Value(Rendered::Json(x)) && x@ == json_of(
                        record_of(t, s),
                    ),
                    Output::CSV => r matches Pulled::Value(Rendered::Csv(b)) && b@ == csv_buffer(
                        record_of(t, s),
                        !old(self)@.header_written,
                    ),
                }))
            },
            r matches Pulled::Value(v) ==> match old(self)@.format {
                Output::Object => v is Object,
                Output::JSON => v is Json,
                Output::CSV => v is Csv,
            },
    {
        while self.current_record < self.total_number_of_records
            invariant
                self.wf(),
                self@.total == old(self)@.total,
                self@.format == old(self)@.format,
                self.table == old(self).table,
                self.entry_size == old(self).entry_size,
                self@.header_written == old(self)@.header_written,
                old(self)@.current <= self@.current,
                old(self)@.current == old(self)@.total ==> *self == *old(self),
                forall|j: int|
                    old(self)@.current <= j < self@.current ==> slot_skippable(
                        old(self).table@,
                        j,
                    ),
            decreases self@.total - self@.current,
        {
            let idx = self.current_record;
            let fixups_sane_now = check_slot_fixups(&self.table, idx, self.entry_size);
            let walk_sane_now = if fixups_sane_now {
                check_slot_walk(&self.table, idx, self.entry_size)
            } else {
                false
            };
            if !(fixups_sane_now && walk_sane_now) {
                self.current_record = self.current_record + 1;
                let message = String::from_str(
                    "the slot's update-sequence fields or attribute layout are corrupt",
                );
                return Pulled::Failed(PullError::Decode(DecodeError { message }));
            }
            let oc = self.read_record(idx);
            match self.consume(oc) {
                Some(p) => {
                    return p;
                },
                None => {},
            }
        }
        Pulled::Exhausted
    }
}

/// The record a slot with the empty-slot marker is summarised as: the
/// marker signature and nothing else.  Such a record is only ever
/// inspected for its signature; it is skipped before any rendering.
fn empty_marker_record(signature: u32) -> (r: MftRecord)
    ensures
        r@.signature == signature,
{
    MftRecord {
        signature,
        entry_id: 0,
        sequence: 0,
        base_entry_id: 0,
        base_entry_sequence: 0,
        hard_link_count: 0,
        flags: String::new(),
        flags_bits: 0,
        used_entry_size: 0,
        total_entry_size: 0,
        file_size: 0,
        is_a_directory: false,
        is_deleted: false,
        has_alternate_data_streams: false,
        standard_info_flags: None,
        standard_info_last_modified: None,
        standard_info_last_access: None,
        standard_info_created: None,
        file_name_flags: None,
        file_name_last_modified: None,
        file_name_last_access: None,
        file_name_created: None,
        full_path: String::new(),
    }
}

} // verus!
