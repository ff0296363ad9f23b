use pickprune::list::{event_of_key, Event, Item, List};

fn sample(n: u32) -> List<u32> {
    List::new((0..n).collect())
}

#[test]
fn new_empty_has_no_cursor() {
    let l: List<u32> = List::new(Vec::new());
    assert_eq!(l.cursor, None);
    assert!(l.items.is_empty());
}

#[test]
fn new_nonempty_starts_at_first_unselected() {
    let l = sample(3);
    assert_eq!(l.cursor, Some(0));
    assert_eq!(l.items.len(), 3);
    for (i, item) in l.items.iter().enumerate() {
        assert_eq!(item.value, i as u32);
        assert!(!item.selected);
    }
}

#[test]
fn selected_on_empty_is_none() {
    let l: List<u32> = List::new(Vec::new());
    assert!(l.selected().is_none());
}

#[test]
fn next_and_previous_on_empty_are_noops() {
    let mut l: List<u32> = List::new(Vec::new());
    l.next();
    assert_eq!(l.cursor, None);
    l.previous();
    assert_eq!(l.cursor, None);
}

#[test]
fn advance_len_times_returns_to_start() {
    let mut l = sample(4);
    for _ in 0..4 {
        l.next();
    }
    assert_eq!(l.cursor, Some(0));
}

#[test]
fn advance_wraps_past_the_end() {
    let mut l = sample(3);
    l.next();
    assert_eq!(l.cursor, Some(1));
    l.next();
    assert_eq!(l.cursor, Some(2));
    l.next();
    assert_eq!(l.cursor, Some(0));
}

#[test]
fn retreat_inverts_advance_at_every_index() {
    for start in 0..5u32 {
        let mut l = sample(5);
        for _ in 0..start {
            l.next();
        }
        assert_eq!(l.cursor, Some(start as usize));
        l.next();
        l.previous();
        assert_eq!(l.cursor, Some(start as usize));
    }
}

#[test]
fn retreat_wraps_before_the_front() {
    let mut l = sample(3);
    l.previous();
    assert_eq!(l.cursor, Some(2));
}

#[test]
fn toggle_twice_restores_item() {
    let mut item = Item::new(41u32);
    assert!(!item.selected);
    item.toggle();
    assert!(item.selected);
    item.toggle();
    assert!(!item.selected);
    assert_eq!(item.value, 41);
}

#[test]
fn toggle_changes_neither_length_nor_order() {
    let mut l = sample(3);
    l.toggle_current();
    assert_eq!(l.items.len(), 3);
    let values: Vec<u32> = l.items.iter().map(|i| i.value).collect();
    assert_eq!(values, vec![0, 1, 2]);
    assert!(l.items[0].selected);
    assert!(!l.items[1].selected);
    assert!(!l.items[2].selected);
}

#[test]
fn into_items_keeps_order_and_flags() {
    let mut l = sample(3);
    l.next();
    l.toggle_current();
    let items = l.into_items();
    let values: Vec<u32> = items.iter().map(|i| i.value).collect();
    let flags: Vec<bool> = items.iter().map(|i| i.selected).collect();
    assert_eq!(values, vec![0, 1, 2]);
    assert_eq!(flags, vec![false, true, false]);
}

#[test]
fn into_selected_keeps_candidate_order() {
    let mut l = sample(4);
    l.toggle_current();
    l.next();
    l.next();
    l.toggle_current();
    assert_eq!(l.into_selected(), vec![0, 2]);
}

#[test]
fn key_bindings_are_fixed() {
    assert_eq!(event_of_key('q'), Event::Quit);
    assert_eq!(event_of_key('j'), Event::Down);
    assert_eq!(event_of_key('k'), Event::Up);
    assert_eq!(event_of_key(' '), Event::Toggle);
    assert_eq!(event_of_key('x'), Event::Other);
    assert_eq!(event_of_key('Q'), Event::Other);
}

#[test]
fn step_quit_is_the_only_exit_and_changes_nothing() {
    let mut l = sample(2);
    assert!(l.step(Event::Quit));
    assert_eq!(l.cursor, Some(0));
    assert!(!l.items[0].selected);
    for ev in [Event::Down, Event::Up, Event::Toggle, Event::Tick, Event::Other] {
        let mut l = sample(2);
        assert!(!l.step(ev));
    }
}

#[test]
fn step_toggle_flips_and_auto_advances() {
    let mut l = sample(3);
    assert!(!l.step(Event::Toggle));
    assert_eq!(l.cursor, Some(1));
    assert!(l.items[0].selected);
    assert!(!l.step(Event::Toggle));
    assert!(!l.step(Event::Toggle));
    assert_eq!(l.cursor, Some(0));
    assert!(l.items.iter().all(|i| i.selected));
}

#[test]
fn step_tick_and_unknown_keys_change_nothing() {
    let mut l = sample(2);
    l.step(Event::Tick);
    l.step(Event::Other);
    assert_eq!(l.cursor, Some(0));
    assert!(l.items.iter().all(|i| !i.selected));
}

#[test]
fn step_on_empty_list_keeps_running_until_quit() {
    let mut l: List<u32> = List::new(Vec::new());
    assert!(!l.step(Event::Down));
    assert!(!l.step(Event::Up));
    assert!(!l.step(Event::Toggle));
    assert_eq!(l.cursor, None);
    assert!(l.step(Event::Quit));
}
