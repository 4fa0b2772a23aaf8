//! The parser facade.
//!
//! It is constructed once over a raw table, answers the slot count, and
//! hands out exactly one record iterator.  The table handle is moved
//! into that iterator; after the hand-off every further iteration
//! request fails with `AlreadyConsumed` and every metadata request with
//! `NotInitialized`, while the iterator that was handed out keeps
//! working on its own.

use vstd::prelude::*;
use vstd::string::StringExecFns;

use crate::decode::{decoder_table, Decoder};
use crate::errors::{FacadeError, InitializationError};
use crate::iter::{IterView, Output, PyMftEntriesIterator};
use crate::table::{
    check_table_header, copy_bytes, entry_size_of, read_entry_size, slot_count_of, table_header_ok,
};

verus! {

/// The owned pair of decoder and table, with the metadata derived at
/// construction.  Created once per input and consumed by exactly one
/// iterator.
pub struct TableHandle {
    pub decoder: Decoder,
    pub table: Vec<u8>,
    pub entry_size: u64,
    pub total: u64,
}

impl TableHandle {
    /// The handle's consistency: the copied table is the decoder's, and
    /// the cached sizes are the table's.
    pub open spec fn wf(&self) -> bool {
        &&& table_header_ok(self.table@)
        &&& self.table@ == decoder_table(self.decoder)
        &&& self.entry_size as int == entry_size_of(self.table@)
        &&& self.total as int == slot_count_of(self.table@)
    }
}

/// The parser facade: holds the table handle until an iterator takes
/// it.
pub struct PyMftParser {
    pub inner: Option<TableHandle>,
}

impl PyMftParser {
    /// The facade's consistency.
    pub open spec fn wf(&self) -> bool {
        self.inner matches Some(h) ==> h.wf()
    }

    /// Opens a parser over a raw table held in memory.  Succeeds
    /// exactly when the table opens with a readable header; the slot
    /// count is then the table size divided by the slot size that the
    /// header states.
    pub fn new(buffer: Vec<u8>) -> (r: Result<PyMftParser, InitializationError>)
        ensures
            r is Ok <==> table_header_ok(buffer@),
            r matches Ok(p) ==> {
                &&& p.wf()
                &&& p.inner matches Some(h) && h.table@ == buffer@ && (h.total as int)
                    == slot_count_of(buffer@)
            },
    {
        if !check_table_header(&buffer) {
            let message = String::from_str(
                "the table header cannot be read: too short, unknown signature, or unusable slot size",
            );
            return Err(InitializationError { message });
        }
        let entry_size = read_entry_size(&buffer);
        let table = copy_bytes(&buffer);
        let decoder = Decoder::open_buffer(buffer);
        let total = decoder.entry_count();
        Ok(PyMftParser { inner: Some(TableHandle { decoder, table, entry_size, total }) })
    }

    /// The total number of record slots of the table, as derived at
    /// construction.  Fails with `NotInitialized` once the handle has
    /// been consumed.
    pub fn number_of_entries(&self) -> (r: Result<u64, FacadeError>)
        ensures
            self.inner matches Some(h) ==> r == Ok::<u64, FacadeError>(h.total),
            self.inner is None ==> r == Err::<u64, FacadeError>(FacadeError::NotInitialized),
    {
        match &self.inner {
            Some(h) => Ok(h.total),
            None => Err(FacadeError::NotInitialized),
        }
    }

    /// Moves the table handle into a fresh iterator bound to the given
    /// output mode.  The first call succeeds and leaves the facade
    /// empty; every later call fails with `AlreadyConsumed` and changes
    /// nothing further.
    pub fn records_iterator(&mut self, output_format: Output) -> (r: Result<
        PyMftEntriesIterator,
        FacadeError,
    >)
        requires
            old(self).wf(),
        ensures
            final(self).wf(),
            final(self).inner is None,
            old(self).inner is None ==> (r matches Err(e) && e == FacadeError::AlreadyConsumed),
            old(self).inner matches Some(h) ==> r matches Ok(it) && it.wf() && it@ == (IterView {
                current: 0,
                total: h.total as int,
                format: output_format,
                header_written: false,
            }) && it.table@ == h.table@,
    {
        let mut taken: Option<TableHandle> = None;
        core::mem::swap(&mut self.inner, &mut taken);
        match taken {
            None => Err(FacadeError::AlreadyConsumed),
            Some(h) => {
                let TableHandle { decoder, table, entry_size, total } = h;
                Ok(
                    PyMftEntriesIterator::new_from_parts(
                        decoder,
                        table,
                        entry_size,
                        total,
                        output_format,
                    ),
                )
            },
        }
    }

    /// Begins the single iteration in object mode.
    pub fn entries(&mut self) -> (r: Result<PyMftEntriesIterator, FacadeError>)
        requires
            old(self).wf(),
        ensures
            final(self).wf(),
            final(self).inner is None,
            old(self).inner is None ==> (r matches Err(e) && e == FacadeError::AlreadyConsumed),
            old(self).inner matches Some(h) ==> r matches Ok(it) && it.wf() && it@ == (IterView {
                current: 0,
                total: h.total as int,
                format: Output::Object,
                header_written: false,
            }) && it.table@ == h.table@,
    {
        self.records_iterator(Output::Object)
    }

    /// Begins the single iteration in JSON mode.
    pub fn entries_json(&mut self) -> (r: Result<PyMftEntriesIterator, FacadeError>)
        requires
            old(self).wf(),
        ensures
            final(self).wf(),
            final(self).inner is None,
            old(self).inner is None ==> (r matches Err(e) && e == FacadeError::AlreadyConsumed),
            old(self).inner matches Some(h) ==> r matches Ok(it) && it.wf() && it@ == (IterView {
                current: 0,
                total: h.total as int,
                format: Output::JSON,
                header_written: false,
            }) && it.table@ == h.table@,
    {
        self.records_iterator(Output::JSON)
    }

    /// Begins the single iteration in CSV mode.
    pub fn entries_csv(&mut self) -> (r: Result<PyMftEntriesIterator, FacadeError>)
        requires
            old(self).wf(),
        ensures
            final(self).wf(),
            final(self).inner is None,
            old(self).inner is None ==> (r matches Err(e) && e == FacadeError::AlreadyConsumed),
            old(self).inner matches Some(h) ==> r matches Ok(it) && it.wf() && it@ == (IterView {
                current: 0,
                total: h.total as int,
                format: Output::CSV,
                header_written: false,
            }) && it.table@ == h.table@,
    {
        self.records_iterator(Output::CSV)
    }
}

} // verus!
