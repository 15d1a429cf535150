use pulse_server::channel::{any_accepted, retain_open};
use pulse_server::directory::Directory;
use pulse_server::queue::{OfflineQueue, MAX_PENDING_MESSAGES_PER_USER};
use pulse_server::state::ServerState;
use tokio::sync::mpsc;

#[test]
fn queue_then_take_then_take_again() {
    let mut state = ServerState::new();
    state.queue_message("u", "m1".to_string());
    state.queue_message("u", "m2".to_string());
    assert_eq!(state.take_pending_messages("u"), vec!["m1".to_string(), "m2".to_string()]);
    assert_eq!(state.take_pending_messages("u"), Vec::<String>::new());
    assert_eq!(state.pending_count("u"), 0);
}

#[test]
fn overflow_drops_exactly_the_oldest() {
    let mut state = ServerState::new();
    for i in 0..=1000 {
        state.queue_message("u", format!("m{}", i));
        assert!(state.pending_count("u") <= 1000);
    }
    assert_eq!(MAX_PENDING_MESSAGES_PER_USER, 1000);
    assert_eq!(state.pending_count("u"), 1000);
    let expected: Vec<String> = (1..=1000).map(|i| format!("m{}", i)).collect();
    assert_eq!(state.take_pending_messages("u"), expected);
}

#[test]
fn overflow_keeps_the_newest_thousand() {
    let mut queues = OfflineQueue::new();
    for i in 0..2500 {
        queues.queue("u", format!("m{}", i));
    }
    assert_eq!(queues.pending_count("u"), 1000);
    let expected: Vec<String> = (1500..2500).map(|i| format!("m{}", i)).collect();
    assert_eq!(queues.take("u"), expected);
    assert_eq!(queues.pending_count("u"), 0);
}

#[test]
fn queue_below_the_limit_keeps_everything() {
    let mut queues = OfflineQueue::new();
    for i in 0..999 {
        queues.queue("u", format!("m{}", i));
    }
    queues.queue("v", "other".to_string());
    assert_eq!(queues.pending_count("u"), 999);
    queues.queue("u", "m999".to_string());
    assert_eq!(queues.pending_count("u"), 1000);
    let taken = queues.take("u");
    assert_eq!(taken[0], "m0");
    assert_eq!(taken[999], "m999");
    assert_eq!(queues.take("v"), vec!["other".to_string()]);
}

#[test]
fn online_users_and_is_online_agree() {
    let mut state = ServerState::new();
    let (tx1, _rx1) = mpsc::unbounded_channel();
    let (tx2, _rx2) = mpsc::unbounded_channel();
    let (tx3, _rx3) = mpsc::unbounded_channel();
    state.add_client("a".to_string(), tx1);
    state.add_client("b".to_string(), tx2);
    state.add_client("a".to_string(), tx3);

    let mut listed = state.online_users();
    listed.sort();
    assert_eq!(listed, vec!["a".to_string(), "b".to_string()]);
    for user_id in ["a", "b", "c", ""] {
        assert_eq!(state.is_online(user_id), listed.iter().any(|u| u == user_id));
    }
}

#[test]
fn add_keeps_the_order_of_registration() {
    let mut directory = Directory::new();
    assert!(directory.is_empty());
    let (tx1, mut rx1) = mpsc::unbounded_channel();
    let (tx2, mut rx2) = mpsc::unbounded_channel();
    directory.add("u".to_string(), tx1.clone());
    directory.add("u".to_string(), tx2.clone());
    assert!(!directory.is_empty());

    let targets = directory.broadcast_targets(None);
    assert_eq!(targets.len(), 2);
    assert!(targets[0].same_channel(&tx1));
    assert!(targets[1].same_channel(&tx2));
    let targets = directory.user_targets("u");
    assert_eq!(targets.len(), 2);
    assert!(targets[0].same_channel(&tx1));
    assert!(targets[1].same_channel(&tx2));
    assert!(directory.user_targets("v").is_empty());

    assert!(directory.send_to_user("u", "x"));
    assert_eq!(rx1.try_recv().unwrap(), "x");
    assert_eq!(rx2.try_recv().unwrap(), "x");
}

#[test]
fn broadcast_targets_leave_out_the_excluded_user() {
    let mut directory = Directory::new();
    let (a1, _ra1) = mpsc::unbounded_channel();
    let (a2, _ra2) = mpsc::unbounded_channel();
    let (b1, _rb1) = mpsc::unbounded_channel();
    let (c1, _rc1) = mpsc::unbounded_channel();
    directory.add("a".to_string(), a1.clone());
    directory.add("b".to_string(), b1.clone());
    directory.add("a".to_string(), a2.clone());
    directory.add("c".to_string(), c1.clone());

    let everyone = directory.broadcast_targets(None);
    assert_eq!(everyone.len(), 4);

    let others = directory.broadcast_targets(Some("a"));
    assert_eq!(others.len(), 2);
    assert!(others.iter().any(|t| t.same_channel(&b1)));
    assert!(others.iter().any(|t| t.same_channel(&c1)));
    assert!(!others.iter().any(|t| t.same_channel(&a1) || t.same_channel(&a2)));

    assert_eq!(directory.broadcast_targets(Some("nobody")).len(), 4);
}

#[test]
fn remove_sweeps_only_closed_channels() {
    let mut directory = Directory::new();
    let (tx1, rx1) = mpsc::unbounded_channel();
    let (tx2, mut rx2) = mpsc::unbounded_channel();
    let (tx3, rx3) = mpsc::unbounded_channel();
    directory.add("u".to_string(), tx1);
    directory.add("u".to_string(), tx2.clone());
    directory.add("u".to_string(), tx3);

    directory.remove("u");
    assert_eq!(directory.broadcast_targets(None).len(), 3);

    drop(rx1);
    drop(rx3);
    directory.remove("u");
    let left = directory.broadcast_targets(None);
    assert_eq!(left.len(), 1);
    assert!(left[0].same_channel(&tx2));
    assert!(directory.is_online("u"));

    directory.remove("nobody");
    assert!(directory.is_online("u"));

    rx2.close();
    directory.remove("u");
    assert!(!directory.is_online("u"));
    assert!(directory.is_empty());
    assert!(directory.online_users().is_empty());
}

#[test]
fn retain_open_keeps_the_unflagged_in_order() {
    let (tx1, _rx1) = mpsc::unbounded_channel::<String>();
    let (tx2, _rx2) = mpsc::unbounded_channel::<String>();
    let (tx3, _rx3) = mpsc::unbounded_channel::<String>();
    let (tx4, _rx4) = mpsc::unbounded_channel::<String>();
    let all = vec![tx1.clone(), tx2.clone(), tx3.clone(), tx4.clone()];

    let kept = retain_open(all.clone(), &vec![true, false, true, false]);
    assert_eq!(kept.len(), 2);
    assert!(kept[0].same_channel(&tx2));
    assert!(kept[1].same_channel(&tx4));

    let kept = retain_open(all.clone(), &vec![false, false, false, false]);
    assert_eq!(kept.len(), 4);
    assert!(kept[0].same_channel(&tx1));
    assert!(kept[3].same_channel(&tx4));

    let kept = retain_open(all.clone(), &vec![true, true]);
    assert_eq!(kept.len(), 2);
    assert!(kept[0].same_channel(&tx3));
    assert!(kept[1].same_channel(&tx4));

    let kept = retain_open(all.clone(), &vec![false, true, true, true, true, true]);
    assert_eq!(kept.len(), 1);
    assert!(kept[0].same_channel(&tx1));

    assert!(retain_open(all, &vec![true, true, true, true]).is_empty());
    assert!(retain_open(Vec::new(), &Vec::new()).is_empty());
}

#[test]
fn any_accepted_wants_one_success() {
    assert!(!any_accepted(&vec![]));
    assert!(!any_accepted(&vec![false, false]));
    assert!(any_accepted(&vec![false, true]));
    assert!(any_accepted(&vec![true]));
}

#[test]
fn send_to_user_fails_when_every_channel_is_closed() {
    let mut state = ServerState::new();
    let (tx1, rx1) = mpsc::unbounded_channel();
    let (tx2, mut rx2) = mpsc::unbounded_channel();
    state.add_client("u".to_string(), tx1);
    state.add_client("u".to_string(), tx2);

    drop(rx1);
    assert!(state.send_to_user("u", "one"));
    assert_eq!(rx2.try_recv().unwrap(), "one");

    rx2.close();
    assert!(!state.send_to_user("u", "two"));
    assert!(state.is_online("u"));
}

#[test]
fn settle_queues_only_what_was_not_sent() {
    let mut state = ServerState::new();
    assert!(state.settle("u", "sent", true));
    assert_eq!(state.pending_count("u"), 0);
    assert!(!state.settle("u", "kept", false));
    assert_eq!(state.take_pending_messages("u"), vec!["kept".to_string()]);
}

#[test]
fn users_are_told_apart_by_every_character() {
    let mut state = ServerState::new();
    let (tx, _rx) = mpsc::unbounded_channel();
    state.add_client("user".to_string(), tx);
    state.queue_message("user", "m".to_string());
    for other in ["User", "user ", "use", "", "usér"] {
        assert!(!state.is_online(other));
        assert_eq!(state.pending_count(other), 0);
        assert!(!state.send_to_user(other, "x"));
    }
}
