use gpubsub_consumer::deadline_map::DeadlineMap;

const SECOND: u64 = 1_000_000_000;

#[test]
fn can_retrieve_an_item() {
    let mut map = DeadlineMap::new(10 * SECOND, 0);
    map.insert(1, "a".to_string(), 0);
    assert_eq!(map.remove(&1), Some("a".to_string()));
}

#[test]
fn an_item_is_taken_only_once() {
    let mut map = DeadlineMap::new(10 * SECOND, 0);
    map.insert(1, "a".to_string(), 0);
    assert_eq!(map.remove(&1), Some("a".to_string()));
    assert_eq!(map.remove(&1), None);
    assert_eq!(map.sizes(), (0, 0));
}

#[test]
fn an_unknown_key_gives_nothing() {
    let mut map = DeadlineMap::new(10 * SECOND, 0);
    map.insert(1, "a".to_string(), 0);
    assert_eq!(map.remove(&2), None);
    assert_eq!(map.sizes(), (0, 1));
}

#[test]
fn a_new_map_is_empty() {
    let map = DeadlineMap::new(SECOND, 5);
    assert_eq!(map.sizes(), (0, 0));
}

#[test]
fn an_insertion_before_the_deadline_does_not_rotate() {
    let mut map = DeadlineMap::new(SECOND, 0);
    map.insert(1, "A".to_string(), 0);
    map.insert(2, "B".to_string(), SECOND - 1);
    assert_eq!(map.sizes(), (0, 2));
}

#[test]
fn an_insertion_at_the_deadline_rotates() {
    let mut map = DeadlineMap::new(SECOND, 0);
    map.insert(1, "A".to_string(), 0);
    map.insert(2, "B".to_string(), SECOND);
    assert_eq!(map.sizes(), (1, 1));
}

#[test]
fn rotation_is_counted_from_the_opening_of_green() {
    let mut map = DeadlineMap::new(SECOND, 100);
    map.insert(1, "A".to_string(), 100 + SECOND - 1);
    assert_eq!(map.sizes(), (0, 1));
    map.insert(2, "B".to_string(), 100 + SECOND);
    assert_eq!(map.sizes(), (1, 1));
    map.insert(3, "C".to_string(), 100 + 2 * SECOND - 1);
    assert_eq!(map.sizes(), (1, 2));
    map.insert(4, "D".to_string(), 100 + 2 * SECOND);
    assert_eq!(map.sizes(), (2, 1));
}

#[test]
fn a_clock_that_goes_backwards_does_not_rotate() {
    let mut map = DeadlineMap::new(SECOND, 5 * SECOND);
    map.insert(1, "A".to_string(), 0);
    map.insert(2, "B".to_string(), SECOND);
    assert_eq!(map.sizes(), (0, 2));
}

#[test]
fn deadline_eviction_rotates_on_the_late_insertion() {
    let mut map = DeadlineMap::new(SECOND, 0);
    map.insert(1, "A".to_string(), 0);
    map.insert(2, "B".to_string(), 2_100_000_000);
    assert_eq!(map.sizes(), (1, 1));
    assert_eq!(map.remove(&2), Some("B".to_string()));
}

#[test]
fn an_entry_survives_one_rotation_in_blue() {
    let mut map = DeadlineMap::new(SECOND, 0);
    map.insert(1, "A".to_string(), 0);
    map.insert(2, "B".to_string(), 2_100_000_000);
    assert_eq!(map.remove(&1), Some("A".to_string()));
    assert_eq!(map.sizes(), (0, 1));
}

#[test]
fn an_entry_is_evicted_by_the_second_rotation() {
    let mut map = DeadlineMap::new(SECOND, 0);
    map.insert(1, "A".to_string(), 0);
    map.insert(2, "B".to_string(), 2_100_000_000);
    map.insert(3, "C".to_string(), 4_200_000_000);
    assert_eq!(map.remove(&1), None);
    assert_eq!(map.remove(&2), Some("B".to_string()));
    assert_eq!(map.remove(&3), Some("C".to_string()));
}

#[test]
fn green_is_asked_before_blue() {
    let mut map = DeadlineMap::new(SECOND, 0);
    map.insert(7, "old".to_string(), 0);
    map.insert(7, "new".to_string(), SECOND);
    assert_eq!(map.sizes(), (1, 1));
    assert_eq!(map.remove(&7), Some("new".to_string()));
    assert_eq!(map.remove(&7), Some("old".to_string()));
    assert_eq!(map.remove(&7), None);
}

#[test]
fn an_insertion_under_a_held_key_replaces_the_token() {
    let mut map = DeadlineMap::new(SECOND, 0);
    map.insert(7, "old".to_string(), 0);
    map.insert(7, "new".to_string(), 1);
    assert_eq!(map.sizes(), (0, 1));
    assert_eq!(map.remove(&7), Some("new".to_string()));
}

#[test]
fn a_deadline_of_zero_rotates_on_every_insertion() {
    let mut map = DeadlineMap::new(0, 0);
    map.insert(1, "A".to_string(), 0);
    map.insert(2, "B".to_string(), 0);
    map.insert(3, "C".to_string(), 0);
    assert_eq!(map.sizes(), (1, 1));
    assert_eq!(map.remove(&1), None);
}

#[test]
fn the_size_stays_within_twice_the_insertions_of_one_window() {
    // Three insertions in every window of ten time units.
    let mut map = DeadlineMap::new(10, 0);
    let mut key: u64 = 0;
    let mut window: u64 = 0;
    while window < 20 {
        let mut k: u64 = 0;
        while k < 3 {
            key += 1;
            map.insert(key, format!("t{}", key), window * 10 + k * 3);
            let (blue, green) = map.sizes();
            assert!(blue + green <= 6);
            k += 1;
        }
        window += 1;
    }
    assert_eq!(map.sizes(), (3, 3));
}
