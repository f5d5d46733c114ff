//! The ingestion step: routing one decoded reading into the store.
//!
//! The receiving side's loop — receive a message, decode it, push the reading
//! — keeps its transport and codec outside the library; what it hands over is
//! a decoded reading, and this is where that reading goes.

use vstd::prelude::*;

use crate::motion::{Data3d, Position};
use crate::ring::push_model;
use crate::store::HistoryStore;

verus! {

/// History capacity the receiving side configures for every sensor.
pub const DEFAULT_CAPACITY: usize = 50;

/// Routes one decoded reading into the history kept for its sensor, creating
/// that history on first sight. Histories of all other sensors are left
/// exactly as they were.
pub fn ingest(store: &mut HistoryStore<Data3d>, reading: Position)
    requires
        old(store).wf(),
    ensures
        final(store).wf(),
        final(store).capacity() == old(store).capacity(),
        final(store).spec_contains(reading.sensor_id),
        final(store).history_of(reading.sensor_id) == push_model(
            old(store).history_of(reading.sensor_id),
            old(store).capacity(),
            reading.position,
        ),
        forall|k: u64| k != reading.sensor_id
            ==> final(store).spec_contains(k) == old(store).spec_contains(k),
        forall|k: u64| k != reading.sensor_id
            ==> final(store).history_of(k) == old(store).history_of(k),
        final(store).key_seq() == if old(store).spec_contains(reading.sensor_id) {
            old(store).key_seq()
        } else {
            old(store).key_seq().push(reading.sensor_id)
        },
{
    store.push(reading.sensor_id, reading.position);
}

} // verus!
