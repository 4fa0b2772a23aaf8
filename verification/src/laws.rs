//! Sequence-level consequences of the step relation.
//!
//! `spec_step_state` and `spec_step_emit` say what one consumed slot
//! does; the proofs here say what any whole sequence of pulls can do:
//! the cursor never passes the slot count, exhaustion is stable and
//! silent, an empty slot emits nothing and leaves the header state
//! alone, and across any run in CSV mode at most one emitted buffer
//! carries the header row - exactly one as soon as any record renders,
//! none when nothing renders (an all-decode-error table included).

use vstd::prelude::*;

use crate::iter::{
    spec_step_emit, spec_step_state, Emission, IterView, RenderedView, SlotEvent,
};

verus! {

/// The state after a whole sequence of slot events.
pub open spec fn run_state(st: IterView, evs: Seq<SlotEvent>) -> IterView
    decreases evs.len(),
{
    if evs.len() == 0 {
        st
    } else {
        run_state(spec_step_state(st, evs[0]), evs.drop_first())
    }
}

/// What the caller sees over a whole sequence of slot events, step by
/// step.
pub open spec fn run_emissions(st: IterView, evs: Seq<SlotEvent>) -> Seq<Emission>
    decreases evs.len(),
{
    if evs.len() == 0 {
        Seq::empty()
    } else {
        seq![spec_step_emit(st, evs[0])] + run_emissions(
            spec_step_state(st, evs[0]),
            evs.drop_first(),
        )
    }
}

/// How many emissions consumed a slot: everything but `Exhausted`.
pub open spec fn consumed_count(ems: Seq<Emission>) -> nat
    decreases ems.len(),
{
    if ems.len() == 0 {
        0nat
    } else {
        (if ems[0] is Exhausted {
            0nat
        } else {
            1nat
        }) + consumed_count(ems.drop_first())
    }
}

/// How many emissions carry a rendered CSV buffer.
pub open spec fn csv_value_count(ems: Seq<Emission>) -> nat
    decreases ems.len(),
{
    if ems.len() == 0 {
        0nat
    } else {
        (if ems[0] matches Emission::Value(RenderedView::Csv(_)) {
            1nat
        } else {
            0nat
        }) + csv_value_count(ems.drop_first())
    }
}

/// How many steps emit a CSV buffer that bears the header row: a
/// rendered CSV value emitted while the header flag is still clear.
pub open spec fn csv_header_count(st: IterView, evs: Seq<SlotEvent>) -> nat
    decreases evs.len(),
{
    if evs.len() == 0 {
        0nat
    } else {
        (if (spec_step_emit(st, evs[0]) matches Emission::Value(RenderedView::Csv(_)))
            && !st.header_written {
            1nat
        } else {
            0nat
        }) + csv_header_count(spec_step_state(st, evs[0]), evs.drop_first())
    }
}

/// One step never moves the total, never moves the format, never
/// clears the header flag, and moves the cursor forward by at most one.
pub proof fn lemma_step_frame(st: IterView, ev: SlotEvent)
    ensures
        spec_step_state(st, ev).total == st.total,
        spec_step_state(st, ev).format == st.format,
        st.current <= spec_step_state(st, ev).current <= st.current + 1,
        st.header_written ==> spec_step_state(st, ev).header_written,
{
}

/// Iterating to exhaustion visits at most the table's slot count: the
/// cursor stays within the total, and no run consumes more slots than
/// the total leaves room for.
pub proof fn lemma_visits_bounded(st: IterView, evs: Seq<SlotEvent>)
    requires
        st.current <= st.total,
    ensures
        st.current <= run_state(st, evs).current <= st.total,
        run_state(st, evs).total == st.total,
        run_state(st, evs).format == st.format,
        consumed_count(run_emissions(st, evs)) <= st.total - st.current,
    decreases evs.len(),
{
    if evs.len() == 0 {
    } else {
        let st1 = spec_step_state(st, evs[0]);
        lemma_step_frame(st, evs[0]);
        lemma_visits_bounded(st1, evs.drop_first());
        assert(run_emissions(st, evs).drop_first() =~= run_emissions(st1, evs.drop_first()));
    }
}

/// Exhaustion is stable and silent: from a state whose cursor sits at
/// the total, any sequence of pulls leaves the state untouched and
/// answers `Exhausted` every time.
pub proof fn lemma_exhaustion_idempotent(st: IterView, evs: Seq<SlotEvent>)
    requires
        st.current == st.total,
    ensures
        run_state(st, evs) == st,
        run_emissions(st, evs) =~= Seq::new(evs.len(), |i: int| Emission::Exhausted),
    decreases evs.len(),
{
    if evs.len() == 0 {
    } else {
        assert(spec_step_state(st, evs[0]) == st);
        lemma_exhaustion_idempotent(st, evs.drop_first());
    }
}

/// An empty slot is passed over in silence: the step emits no value,
/// reports no error, and leaves the header state alone.
pub proof fn lemma_empty_slot_silent(st: IterView)
    ensures
        spec_step_emit(st, SlotEvent::Empty) is Skip || spec_step_emit(
            st,
            SlotEvent::Empty,
        ) is Exhausted,
        spec_step_state(st, SlotEvent::Empty).header_written == st.header_written,
{
}

/// In CSV mode, the shape of an emitted buffer is decided by the header
/// flag at the moment of rendering: a step that emits a rendered CSV
/// value renders the event's record, with the header row in front
/// exactly when the flag was still clear, and flips the flag on.
pub proof fn lemma_csv_emission_shape(st: IterView, ev: SlotEvent)
    requires
        st.format is CSV,
    ensures
        (spec_step_emit(st, ev) matches Emission::Value(RenderedView::Csv(b)) ==> (ev matches
            SlotEvent::Valid(r, enc_ok) && enc_ok && b == crate::csvfmt::csv_buffer(
            r,
            !st.header_written,
        ) && spec_step_state(st, ev).header_written)),
{
}

/// With the header flag already set, no later step bears a header.
pub proof fn lemma_header_flag_monotone(st: IterView, evs: Seq<SlotEvent>)
    requires
        st.header_written,
    ensures
        run_state(st, evs).header_written,
        csv_header_count(st, evs) == 0,
    decreases evs.len(),
{
    if evs.len() == 0 {
    } else {
        lemma_step_frame(st, evs[0]);
        lemma_header_flag_monotone(spec_step_state(st, evs[0]), evs.drop_first());
    }
}

/// Across any sequence of pulls in CSV mode, at most one emitted buffer
/// bears the header row; with the header still owed, exactly one does
/// as soon as any record renders, and none when nothing renders.  Since
/// every rendered CSV value sets the header flag, the header-bearing
/// buffer, when there is one, is the first rendered one.
pub proof fn lemma_csv_header_once(st: IterView, evs: Seq<SlotEvent>)
    requires
        st.format is CSV,
    ensures
        csv_header_count(st, evs) <= 1,
        st.header_written ==> csv_header_count(st, evs) == 0,
        !st.header_written ==> (csv_header_count(st, evs) == 1 <==> csv_value_count(
            run_emissions(st, evs),
        ) >= 1),
    decreases evs.len(),
{
    if evs.len() == 0 {
    } else {
        let st1 = spec_step_state(st, evs[0]);
        lemma_step_frame(st, evs[0]);
        assert(run_emissions(st, evs).drop_first() =~= run_emissions(st1, evs.drop_first()));
        if st.header_written {
            lemma_header_flag_monotone(st, evs);
        } else {
            if spec_step_emit(st, evs[0]) matches Emission::Value(RenderedView::Csv(_)) {
                lemma_csv_emission_shape(st, evs[0]);
                lemma_header_flag_monotone(st1, evs.drop_first());
            } else {
                assert(!st1.header_written);
                lemma_csv_header_once(st1, evs.drop_first());
            }
        }
    }
}

/// A table in which every slot fails to decode emits no rendered value
/// at all, and so no header row either.
pub proof fn lemma_all_failures_no_header(st: IterView, evs: Seq<SlotEvent>)
    requires
        st.format is CSV,
        forall|i: int| 0 <= i < evs.len() ==> evs[i] is Failed,
    ensures
        csv_value_count(run_emissions(st, evs)) == 0,
        csv_header_count(st, evs) == 0,
    decreases evs.len(),
{
    if evs.len() == 0 {
    } else {
        let st1 = spec_step_state(st, evs[0]);
        lemma_step_frame(st, evs[0]);
        assert(evs[0] is Failed);
        assert(run_emissions(st, evs).drop_first() =~= run_emissions(st1, evs.drop_first()));
        assert(forall|i: int|
            0 <= i < evs.drop_first().len() ==> #[trigger] evs.drop_first()[i] is Failed);
        lemma_all_failures_no_header(st1, evs.drop_first());
    }
}

} // verus!
