use std::collections::HashMap;

use store_scp::config::{Channel, Config, LogLevel, Node, Status, DEFAULT_MAX_PDU};
use store_scp::diff::Actions;

fn listener(aet: &str, port: u16) -> Node {
    let mut n = Node::new(aet.to_string(), "0.0.0.0".to_string(), port);
    n.out_dir = Some(".".to_string());
    n
}

fn channel(name: &str, aet: &str, port: u16) -> Channel {
    Channel {
        name: name.to_string(),
        source: listener(aet, port),
        destinations: vec![Node::new("OUT".to_string(), "192.168.10.140".to_string(), 11114)],
        status: Status::default(),
    }
}

fn config_with(entries: Vec<(u64, Channel)>) -> Config {
    let mut c = Config::new();
    for (id, ch) in entries {
        c.channels.insert(id, ch);
    }
    c
}

/// Applies the actions to a map of channels, as the supervisor does.
fn apply(state: &Config, actions: &[Actions]) -> HashMap<u64, Channel> {
    let mut m = state.channels.clone();
    for a in actions {
        match a {
            Actions::Delete(id, _) => {
                m.remove(id);
            }
            Actions::Modify(id, c) | Actions::Create(id, c) => {
                m.insert(*id, (*c).clone());
            }
        }
    }
    m
}

fn same_channels(a: &HashMap<u64, Channel>, b: &HashMap<u64, Channel>) -> bool {
    a.len() == b.len() && a.iter().all(|(k, v)| b.get(k).map_or(false, |w| w == v))
}

#[test]
fn new_config_is_empty_with_info_level() {
    let c = Config::new();
    assert!(c.channels.is_empty());
    assert_eq!(c.log_level, LogLevel::Info);
    assert_eq!(LogLevel::default(), LogLevel::Info);
    assert_eq!(Status::default(), Status::Stopped);
}

#[test]
fn node_new_has_defaults() {
    let n = Node::new("SCP1".to_string(), "0.0.0.0".to_string(), 11112);
    assert_eq!(n.aet(), "SCP1");
    assert_eq!(n.port, 11112);
    assert_eq!(n.max_pdu, DEFAULT_MAX_PDU);
    assert_eq!(n.max_pdu, 16384);
    assert!(!n.uncompressed_only);
    assert!(!n.strict);
    assert_eq!(n.out_dir, None);
    assert_eq!(n.status, Status::Stopped);
    assert!(!n.shutdown_signal);
}

#[test]
fn start_and_stop_node_set_status_and_signal() {
    let mut n = listener("SCP1", 11112);
    n.stop_node();
    assert!(n.shutdown_signal);
    assert_eq!(n.status, Status::Stopped);
    n.start_node();
    assert!(!n.shutdown_signal);
    assert_eq!(n.status, Status::Started);
}

#[test]
fn node_equality_ignores_shutdown_signal() {
    let a = listener("SCP1", 11112);
    let mut b = listener("SCP1", 11112);
    b.shutdown_signal = true;
    assert!(a == b);
    b.port = 11113;
    assert!(a != b);
    let mut c = listener("SCP1", 11112);
    c.out_dir = None;
    assert!(a != c);
}

#[test]
fn config_equality_is_structural() {
    let a = config_with(vec![(1, channel("X", "SCP1", 11112))]);
    let b = config_with(vec![(1, channel("X", "SCP1", 11112))]);
    assert!(a == b);
    let mut c = config_with(vec![(1, channel("X", "SCP1", 11112))]);
    c.log_level = LogLevel::Debug;
    assert!(a != c);
    let d = config_with(vec![(2, channel("X", "SCP1", 11112))]);
    assert!(a != d);
    let mut e = config_with(vec![(1, channel("X", "SCP1", 11112))]);
    e.channels.get_mut(&1).unwrap().destinations.clear();
    assert!(a != e);
}

#[test]
fn diff_of_a_config_with_itself_is_empty() {
    let a = config_with(vec![
        (1, channel("X", "SCP1", 11112)),
        (2, channel("Y", "SCP2", 11113)),
    ]);
    assert!(a.diff(&a).is_empty());
    let empty = Config::new();
    assert!(empty.diff(&empty).is_empty());
}

#[test]
fn diff_from_empty_state_creates_every_channel() {
    let state = Config::new();
    let config = config_with(vec![(1, channel("X", "SCP1", 11112))]);
    let actions = state.diff(&config);
    assert_eq!(actions.len(), 1);
    match &actions[0] {
        Actions::Create(id, c) => {
            assert_eq!(*id, 1);
            assert_eq!(c.name, "X");
            assert_eq!(c.source.aet, "SCP1");
            assert_eq!(c.source.port, 11112);
        }
        other => panic!("unexpected action {:?}", other),
    }
}

#[test]
fn diff_add_then_remove_channel() {
    let s2 = config_with(vec![(1, channel("X", "SCP1", 11112))]);
    let added = config_with(vec![
        (1, channel("X", "SCP1", 11112)),
        (2, channel("Y", "SCP2", 11113)),
    ]);
    let actions = s2.diff(&added);
    assert_eq!(actions.len(), 1);
    match &actions[0] {
        Actions::Create(id, c) => {
            assert_eq!(*id, 2);
            assert_eq!(c.source.port, 11113);
        }
        other => panic!("unexpected action {:?}", other),
    }
    let removed = config_with(vec![(2, channel("Y", "SCP2", 11113))]);
    let actions = added.diff(&removed);
    assert_eq!(actions.len(), 1);
    match &actions[0] {
        Actions::Delete(id, c) => {
            assert_eq!(*id, 1);
            assert_eq!(c.name, "X");
        }
        other => panic!("unexpected action {:?}", other),
    }
}

#[test]
fn status_change_is_a_modify_with_the_new_channel() {
    let old = config_with(vec![(1, channel("X", "SCP1", 11112))]);
    let mut started = channel("X", "SCP1", 11112);
    started.status = Status::Started;
    let new = config_with(vec![(1, started)]);
    let actions = old.diff(&new);
    assert_eq!(actions.len(), 1);
    match &actions[0] {
        Actions::Modify(id, c) => {
            assert_eq!(*id, 1);
            assert_eq!(c.status, Status::Started);
        }
        other => panic!("unexpected action {:?}", other),
    }
}

#[test]
fn applying_the_diff_gives_the_target() {
    let old = config_with(vec![
        (1, channel("A", "SCP1", 11112)),
        (2, channel("B", "SCP2", 11113)),
        (3, channel("C", "SCP3", 11114)),
    ]);
    let mut changed = channel("B", "SCP2", 11120);
    changed.status = Status::Started;
    let new = config_with(vec![
        (2, changed),
        (3, channel("C", "SCP3", 11114)),
        (4, channel("D", "SCP4", 11116)),
        (5, channel("E", "SCP5", 11117)),
    ]);
    let actions = old.diff(&new);
    assert_eq!(actions.len(), 4);
    let first_create = actions.iter().position(|a| matches!(a, Actions::Create(..))).unwrap();
    assert!(actions[first_create..].iter().all(|a| matches!(a, Actions::Create(..))));
    assert!(same_channels(&apply(&old, &actions), &new.channels));
}

#[test]
fn reconcile_skips_when_state_matches() {
    let config = config_with(vec![(1, channel("X", "SCP1", 11112))]);
    let same = config_with(vec![(1, channel("X", "SCP1", 11112))]);
    assert!(store_scp::diff::reconcile(&same, &config).is_empty());
    let state = Config::new();
    let actions = store_scp::diff::reconcile(&state, &config);
    assert_eq!(actions.len(), 1);
    assert!(matches!(actions[0], Actions::Create(1, _)));
}

#[test]
fn node_clone_keeps_every_field() {
    let mut n = listener("SCP1", 11112);
    n.shutdown_signal = true;
    n.strict = true;
    let c = n.clone();
    assert!(c == n);
    assert!(c.shutdown_signal);
    assert!(c.strict);
    assert_eq!(c.out_dir, n.out_dir);
}

#[test]
fn diff_order_is_stable() {
    let old = config_with(vec![
        (1, channel("A", "SCP1", 11112)),
        (2, channel("B", "SCP2", 11113)),
        (3, channel("C", "SCP3", 11114)),
    ]);
    let new = config_with(vec![(3, channel("C", "SCP3", 11120)), (4, channel("D", "SCP4", 11116))]);
    let ids = |a: &Vec<Actions>| -> Vec<u64> {
        a.iter()
            .map(|x| match x {
                Actions::Create(i, _) | Actions::Modify(i, _) | Actions::Delete(i, _) => *i,
            })
            .collect()
    };
    let first = old.diff(&new);
    let second = old.diff(&new);
    assert_eq!(ids(&first), ids(&second));
    assert_eq!(first.len(), 4);
    assert!(matches!(first[3], Actions::Create(4, _)));
}
