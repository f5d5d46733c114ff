use sensor_history::ingest::ingest;
use sensor_history::motion::{Data3d, Position};
use sensor_history::ring::RingBuffer;
use sensor_history::store::HistoryStore;

fn reading(sensor_id: u64, timestamp_usec: u64, x: i64) -> Position {
    Position { sensor_id, timestamp_usec, position: Data3d { x, y: 0, z: 0 } }
}

fn collect(buffer: &RingBuffer<Data3d>) -> Vec<Data3d> {
    let mut items = Vec::new();
    let mut it = buffer.iter();
    while let Some(item) = it.next() {
        items.push(*item);
    }
    items
}

#[test]
fn entries_are_created_lazily_and_never_dropped() {
    let mut store = HistoryStore::<Data3d>::new(3);
    assert_eq!(store.len(), 0);
    assert!(!store.contains(1));
    store.push(1, Data3d { x: 1, y: 2, z: 0 });
    assert!(store.contains(1));
    assert_eq!(store.len(), 1);
    store.push(1, Data3d { x: 3, y: 4, z: 0 });
    assert_eq!(store.len(), 1);
    store.push(2, Data3d { x: 5, y: 6, z: 0 });
    assert_eq!(store.len(), 2);
}

#[test]
fn keyed_isolation_pushes_for_one_sensor_leave_others_untouched() {
    let mut store = HistoryStore::<Data3d>::new(2);
    store.push(2, Data3d { x: 9, y: 9, z: 0 });
    let before = collect(store.get(2).unwrap());

    for v in 0..5 {
        store.push(1, Data3d { x: v, y: 0, z: 0 });
    }
    let after = collect(store.get(2).unwrap());
    assert_eq!(before, after);
    assert_eq!(after.len(), 1);
    assert!(!store.contains(3));
}

#[test]
fn end_to_end_capacity_three_keeps_newest_three_readings() {
    let mut store = HistoryStore::<Data3d>::new(3);
    for (i, x_units) in [1i64, 2, 3, 4, 5].iter().enumerate() {
        ingest(&mut store, reading(7, i as u64, x_units * 1000));
    }

    let history = collect(store.get(7).unwrap());
    let xs: Vec<i64> = history.iter().map(|d| d.x).collect();
    assert_eq!(xs, vec![3000, 4000, 5000]);

    let report = store.snapshot();
    assert_eq!(report.len(), 1);
    assert_eq!(report[0].0, 7);
    let report_xs: Vec<i64> = report[0].1.iter().map(|d| d.x).collect();
    assert_eq!(report_xs, vec![3000, 4000, 5000]);
    assert!(store.get(1).is_none());
}

#[test]
fn snapshot_lists_sensors_in_first_seen_order() {
    let mut store = HistoryStore::<Data3d>::new(2);
    store.push(5, Data3d { x: 1, y: 0, z: 0 });
    store.push(3, Data3d { x: 2, y: 0, z: 0 });
    store.push(5, Data3d { x: 3, y: 0, z: 0 });
    let report = store.snapshot();
    let keys: Vec<u64> = report.iter().map(|entry| entry.0).collect();
    assert_eq!(keys, vec![5, 3]);
    assert_eq!(report[0].1.len(), 2);
    assert_eq!(report[1].1.len(), 1);
}

#[test]
fn snapshot_does_not_mutate_the_store() {
    let mut store = HistoryStore::<Data3d>::new(2);
    store.push(1, Data3d { x: 4, y: 0, z: 0 });
    let first = store.snapshot();
    let second = store.snapshot();
    assert_eq!(first.len(), second.len());
    assert_eq!(first[0].0, second[0].0);
    assert_eq!(first[0].1, second[0].1);
}

#[test]
fn store_buffers_use_the_configured_capacity() {
    let mut store = HistoryStore::<Data3d>::new(1);
    store.push(4, Data3d { x: 1, y: 0, z: 0 });
    store.push(4, Data3d { x: 2, y: 0, z: 0 });
    let history = collect(store.get(4).unwrap());
    assert_eq!(history.len(), 1);
    assert_eq!(history[0].x, 2);
}

#[test]
fn key_at_and_history_at_walk_the_store() {
    let mut store = HistoryStore::<Data3d>::new(4);
    store.push(11, Data3d { x: 1, y: 1, z: 0 });
    store.push(22, Data3d { x: 2, y: 2, z: 0 });
    assert_eq!(store.key_at(0), 11);
    assert_eq!(store.key_at(1), 22);
    assert_eq!(store.history_at(0).len(), 1);
    assert_eq!(collect(store.history_at(1))[0].y, 2);
}
