use std::collections::VecDeque;

use odin_sentinel::history::{keep_record, keep_records};
use odin_sentinel::{sort_in_record, sort_in_records, SensorRecord, VocData};

fn voc(id: &str, t: i64) -> SensorRecord<VocData> {
    SensorRecord {
        id: id.to_string(),
        time_recorded: t,
        sensor_no: 39,
        device_id: "roo7gd1dldn3".to_string(),
        evidences: vec![],
        claims: vec![],
        data: VocData { tvoc: 138, e_co2: 489 },
    }
}

fn ids(list: &VecDeque<SensorRecord<VocData>>) -> Vec<String> {
    list.iter().map(|r| r.id.clone()).collect()
}

#[test]
fn sort_in_record_places_newest_first() {
    let mut list = VecDeque::new();
    sort_in_record(&mut list, voc("b", 20));
    sort_in_record(&mut list, voc("a", 30));
    sort_in_record(&mut list, voc("c", 10));
    sort_in_record(&mut list, voc("m", 25));
    assert_eq!(ids(&list), vec!["a", "m", "b", "c"]);
}

#[test]
fn sort_in_record_keeps_existing_first_on_equal_time() {
    let mut list = VecDeque::new();
    sort_in_record(&mut list, voc("first", 10));
    sort_in_record(&mut list, voc("second", 10));
    assert_eq!(ids(&list), vec!["first", "second"]);
}

#[test]
fn sort_in_records_sorts_out_of_order_arrivals() {
    let mut list = VecDeque::new();
    sort_in_records(&mut list, vec![voc("x", 5), voc("y", 50), voc("z", 20)]);
    assert_eq!(ids(&list), vec!["y", "z", "x"]);
}

#[test]
fn keep_record_drops_oldest_when_full() {
    let mut list = VecDeque::new();
    keep_records(&mut list, vec![voc("a", 30), voc("b", 20), voc("c", 10)], 3);
    assert!(keep_record(&mut list, voc("n", 40), 3));
    assert_eq!(ids(&list), vec!["n", "a", "b"]);
}

#[test]
fn keep_record_discards_too_old_record_of_full_history() {
    let mut list = VecDeque::new();
    keep_records(&mut list, vec![voc("a", 30), voc("b", 20)], 2);
    assert!(!keep_record(&mut list, voc("old", 5), 2));
    assert_eq!(ids(&list), vec!["a", "b"]);
    // equal to the oldest kept record is not newer either
    assert!(!keep_record(&mut list, voc("tie", 20), 2));
    assert_eq!(ids(&list), vec!["a", "b"]);
}

#[test]
fn keep_record_ignores_known_id() {
    let mut list = VecDeque::new();
    keep_records(&mut list, vec![voc("a", 30)], 3);
    assert!(keep_record(&mut list, voc("a", 30), 3));
    assert_eq!(list.len(), 1);
}

#[test]
fn single_slot_history_holds_newest_record() {
    let mut list = VecDeque::new();
    keep_records(&mut list, vec![voc("a", 10), voc("b", 30), voc("c", 20)], 1);
    assert_eq!(ids(&list), vec!["b"]);
    keep_record(&mut list, voc("d", 40), 1);
    assert_eq!(ids(&list), vec!["d"]);
}

#[test]
fn history_never_exceeds_bound_and_stays_ordered() {
    let mut list = VecDeque::new();
    let times = [7i64, 3, 9, 1, 9, 4, 12, 0, 6, 6, 11];
    for (i, t) in times.iter().enumerate() {
        keep_record(&mut list, voc(&format!("r{i}"), *t), 4);
        assert!(list.len() <= 4);
        for k in 1..list.len() {
            assert!(list[k - 1].time_recorded >= list[k].time_recorded);
        }
    }
    assert_eq!(list.iter().map(|r| r.time_recorded).collect::<Vec<_>>(), vec![12, 11, 9, 9]);
}

#[test]
fn records_compare_by_time_and_equal_by_id() {
    let a = voc("same", 10);
    let b = voc("same", 20);
    let c = voc("other", 10);
    assert!(a == b);
    assert!(a != c);
    assert!(a < b);
    assert_eq!(a.partial_cmp(&c), Some(std::cmp::Ordering::Equal));
}
