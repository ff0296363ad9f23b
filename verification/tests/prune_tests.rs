use pickprune::list::Event;
use pickprune::prune::{batch_request, App};

fn names(list: &[&str]) -> Vec<String> {
    list.iter().map(|s| s.to_string()).collect()
}

#[test]
fn master_is_excluded_from_candidacy() {
    // Three branches including "master": the constructed list holds
    // the other two, in order.
    let app = App::new(names(&["feature/a", "master", "bugfix/b"]));
    assert_eq!(app.list.items.len(), 2);
    assert_eq!(app.list.items[0].value, "feature/a");
    assert_eq!(app.list.items[1].value, "bugfix/b");
    assert!(app.list.items.iter().all(|i| i.value != "master"));
}

#[test]
fn master_alone_leaves_an_empty_list() {
    let app = App::new(names(&["master"]));
    assert!(app.list.items.is_empty());
    assert_eq!(app.list.cursor, None);
}

#[test]
fn only_exact_master_is_protected() {
    let app = App::new(names(&["master", "masterful", "remaster"]));
    let kept: Vec<&str> = app.list.items.iter().map(|i| i.value.as_str()).collect();
    assert_eq!(kept, vec!["masterful", "remaster"]);
}

#[test]
fn selection_keeps_candidate_order() {
    let mut app = App::new(names(&["a", "master", "b", "c"]));
    app.list.step(Event::Toggle);
    app.list.step(Event::Down);
    app.list.step(Event::Toggle);
    assert!(app.list.step(Event::Quit));
    assert_eq!(app.selected(), names(&["a", "c"]));
}

#[test]
fn quitting_immediately_prunes_no_branches() {
    let mut app = App::new(names(&["a", "b", "c"]));
    assert!(app.list.step(Event::Quit));
    assert!(app.selected().is_empty());
}

#[test]
fn empty_selection_requests_no_operation() {
    // Batch policy with an empty selected subset: the external tool is
    // not invoked at all.
    assert!(batch_request(Vec::new()).is_none());
}

#[test]
fn nonempty_selection_requests_one_batch() {
    let batch = batch_request(names(&["a", "b"])).unwrap();
    assert_eq!(batch, names(&["a", "b"]));
}
