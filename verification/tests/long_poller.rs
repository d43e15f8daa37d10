use ratma_tg_types::poller::{LongPoller, PollAction, PollOutcome};

fn deliver(poller: &mut LongPoller<()>, batch: Vec<(i64, &'static str)>) -> Vec<&'static str> {
    match poller.on_outcome::<&'static str, String>(PollOutcome::Received(batch)) {
        PollAction::Deliver(updates) => updates,
        PollAction::Finish(_) => panic!("a batch must be delivered"),
    }
}

#[test]
fn new_poller_starts_at_zero() {
    let allowed = vec!["message".to_owned()];
    let poller = LongPoller::new(&"bot", Some(allowed.clone()));
    assert_eq!(poller.offset(), 0);
    assert_eq!(*poller.bot(), "bot");
    assert!(!poller.is_finished());
    let req = poller.request();
    assert_eq!(req.offset, Some(0));
    assert_eq!(req.limit, None);
    assert_eq!(req.timeout, None);
    assert_eq!(req.allowed_updates, Some(&allowed));
}

#[test]
fn batch_moves_offset_past_greatest_id() {
    let mut poller = LongPoller::new(&(), None);
    let updates = deliver(&mut poller, vec![(10, "a"), (42, "b"), (17, "c")]);
    assert_eq!(updates, vec!["a", "b", "c"]);
    assert_eq!(poller.offset(), 43);
    assert_eq!(poller.request().offset, Some(43));
    assert_eq!(poller.request().allowed_updates, None);
    assert!(!poller.is_finished());
}

#[test]
fn failure_ends_the_stream_with_its_error() {
    let mut poller = LongPoller::new(&(), None);
    let _ = deliver(&mut poller, vec![(5, "a")]);
    match poller.on_outcome::<&str, String>(PollOutcome::Failed("timed out".to_owned())) {
        PollAction::Finish(err) => assert_eq!(err, "timed out"),
        PollAction::Deliver(_) => panic!("a failure must end the stream"),
    }
    assert!(poller.is_finished());
    assert_eq!(poller.offset(), 6);
}

#[test]
fn empty_batch_resets_offset_to_one() {
    let mut poller = LongPoller::new(&(), None);
    let _ = deliver(&mut poller, vec![(100, "x")]);
    assert_eq!(poller.offset(), 101);
    let updates = deliver(&mut poller, vec![]);
    assert!(updates.is_empty());
    assert_eq!(poller.offset(), 1);
}

#[test]
fn non_positive_ids_give_offset_one() {
    let mut poller = LongPoller::new(&(), None);
    let _ = deliver(&mut poller, vec![(-4, "a"), (0, "b"), (-1, "c")]);
    assert_eq!(poller.offset(), 1);
}

#[test]
fn offset_lies_above_every_id_of_batch() {
    let ids = vec![7, 3, 99, 12, 98];
    let mut poller = LongPoller::new(&(), None);
    let updates = deliver(&mut poller, ids.iter().map(|&id| (id, "u")).collect());
    assert_eq!(updates.len(), ids.len());
    assert!(ids.iter().all(|&id| id < poller.offset()));
    assert!(ids.contains(&(poller.offset() - 1)));
}

#[test]
fn largest_allowed_id() {
    let mut poller = LongPoller::new(&(), None);
    let _ = deliver(&mut poller, vec![(i64::MAX - 1, "last")]);
    assert_eq!(poller.offset(), i64::MAX);
}

#[test]
fn run_of_batches_delivers_each_update_once_in_order_then_ends_on_failure() {
    let mut poller = LongPoller::new(&(), None);
    let mut items: Vec<Result<&str, String>> = Vec::new();
    let outcomes = vec![
        PollOutcome::Received(vec![(1, "a"), (2, "b")]),
        PollOutcome::Received(vec![]),
        PollOutcome::Received(vec![(3, "c")]),
        PollOutcome::Failed("gone".to_owned()),
    ];
    for outcome in outcomes {
        assert!(!poller.is_finished());
        match poller.on_outcome(outcome) {
            PollAction::Deliver(updates) => items.extend(updates.into_iter().map(Ok)),
            PollAction::Finish(err) => items.push(Err(err)),
        }
    }
    assert!(poller.is_finished());
    assert_eq!(items, vec![Ok("a"), Ok("b"), Ok("c"), Err("gone".to_owned())]);
}
