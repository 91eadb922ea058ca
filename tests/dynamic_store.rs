use system_configuration::dynamic_store::{
    contains_text, MemoryStore, NotificationBridge, SCDynamicStoreBuilder,
    SCDynamicStoreCallBackContext, USE_SESSION_KEYS_KEY,
};
use system_configuration::property_list::PropertyList;

fn text(s: &str) -> PropertyList {
    PropertyList::String(s.to_string())
}

fn sample_nodes() -> Vec<PropertyList> {
    vec![
        text("8F2C"),
        PropertyList::Array(vec![text("8.8.8.8"), text("8.8.4.4")]),
        PropertyList::Dictionary(vec![(
            "ServerAddresses".to_string(),
            PropertyList::Array(vec![text("192.168.1.1")]),
        )]),
        PropertyList::Boolean(true),
    ]
}

struct Counter {
    calls: u64,
    seen: Vec<Vec<String>>,
}

fn count_calls(_store: &MemoryStore, keys: &Vec<String>, state: &mut Counter) {
    state.calls += 1;
    state.seen.push(keys.clone());
}

#[test]
fn set_then_get_round_trips_each_kind() {
    let mut store = MemoryStore::new();
    let nodes = sample_nodes();
    for (i, node) in sample_nodes().into_iter().enumerate() {
        assert!(store.set("State:/Test", node));
        assert_eq!(store.get("State:/Test"), Some(&nodes[i]));
    }
    for (i, node) in sample_nodes().into_iter().enumerate() {
        let key = format!("State:/Test/{}", i);
        assert!(store.set(&key, node));
        assert_eq!(store.get(&key), Some(&nodes[i]));
    }
}

#[test]
fn get_then_set_the_same_node_then_get() {
    let mut store = MemoryStore::new();
    let nodes = sample_nodes();
    for (i, node) in sample_nodes().into_iter().enumerate() {
        let key = format!("Setup:/Node/{}", i);
        store.set(&key, node);
        let first = store.get(&key).map(|n| format!("{:?}", n)).unwrap();
        let again = match &nodes[i] {
            PropertyList::String(s) => PropertyList::String(s.clone()),
            PropertyList::Boolean(b) => PropertyList::Boolean(*b),
            _ => sample_nodes().into_iter().nth(i).unwrap(),
        };
        assert!(store.set(&key, again));
        assert_eq!(store.get(&key), Some(&nodes[i]));
        assert_eq!(format!("{:?}", store.get(&key).unwrap()), first);
    }
}

#[test]
fn set_overwrites_and_keeps_other_keys() {
    let mut store = MemoryStore::new();
    store.set("a", text("1"));
    store.set("b", text("2"));
    store.set("a", text("3"));
    assert_eq!(store.get("a"), Some(&text("3")));
    assert_eq!(store.get("b"), Some(&text("2")));
}

#[test]
fn remove_of_a_key_never_set_returns_false() {
    let mut store = MemoryStore::new();
    assert!(!store.remove("State:/Network/Never"));
    store.set("State:/Network/Some", PropertyList::Boolean(false));
    assert!(!store.remove("State:/Network/Never"));
    assert!(store.remove("State:/Network/Some"));
    assert_eq!(store.get("State:/Network/Some"), None);
    assert!(!store.remove("State:/Network/Some"));
}

#[test]
fn two_changes_reach_the_handler_and_its_state_persists() {
    let mut store = MemoryStore::new();
    let key = "State:/Network/Service/abc/DNS".to_string();
    assert!(store.set_notification_keys(&vec![key.clone()]));
    let mut bridge = NotificationBridge::register(SCDynamicStoreCallBackContext {
        callout: count_calls,
        info: Counter { calls: 0, seen: vec![] },
    });

    store.set(&key, text("first"));
    let delivered = store.run_loop_turn(&mut bridge);
    assert_eq!(delivered, vec![key.clone()]);
    assert_eq!(bridge.info().calls, 1);

    store.set(&key, text("second"));
    store.set(&key, text("third"));
    store.run_loop_turn(&mut bridge);
    assert_eq!(bridge.info().calls, 2);
    assert_eq!(bridge.deliveries(), 2);

    let state = bridge.release();
    assert_eq!(state.calls, 2);
    assert_eq!(state.seen, vec![vec![key.clone()], vec![key]]);
}

#[test]
fn a_turn_without_changes_does_not_call_the_handler() {
    let mut store = MemoryStore::new();
    store.set_notification_keys(&vec!["watched".to_string()]);
    let mut bridge = NotificationBridge::register(SCDynamicStoreCallBackContext {
        callout: count_calls,
        info: Counter { calls: 0, seen: vec![] },
    });
    store.set("unwatched", text("x"));
    let delivered = store.run_loop_turn(&mut bridge);
    assert!(delivered.is_empty());
    assert_eq!(bridge.info().calls, 0);
    store.remove("watched");
    assert!(store.run_loop_turn(&mut bridge).is_empty());
    assert_eq!(bridge.deliveries(), 0);
}

#[test]
fn changes_to_several_keys_arrive_in_one_call() {
    let mut store = MemoryStore::new();
    store.set_notification_keys(&vec!["a".to_string(), "b".to_string()]);
    let mut bridge = NotificationBridge::register(SCDynamicStoreCallBackContext {
        callout: count_calls,
        info: Counter { calls: 0, seen: vec![] },
    });
    store.set("b", text("1"));
    store.set("a", text("2"));
    store.set("b", text("3"));
    store.remove("a");
    let delivered = store.run_loop_turn(&mut bridge);
    assert_eq!(delivered, vec!["b".to_string(), "a".to_string()]);
    assert_eq!(bridge.info().calls, 1);
}

#[test]
fn an_empty_notification_still_reaches_the_handler() {
    let store = MemoryStore::new();
    let mut bridge = NotificationBridge::register(SCDynamicStoreCallBackContext {
        callout: count_calls,
        info: Counter { calls: 0, seen: vec![] },
    });
    bridge.dispatch(&store, &vec![]);
    assert_eq!(bridge.info().calls, 1);
    assert_eq!(bridge.info().seen, vec![Vec::<String>::new()]);
}

#[test]
fn builder_options_carry_the_session_keys_flag() {
    let builder = SCDynamicStoreBuilder::new("my-store");
    assert_eq!(
        builder.store_options(),
        PropertyList::Dictionary(vec![(
            USE_SESSION_KEYS_KEY.to_string(),
            PropertyList::Boolean(false)
        )])
    );
    let builder = builder.session_keys(true);
    assert_eq!(
        builder.store_options().get("UseSessionKeys"),
        Some(&PropertyList::Boolean(true))
    );
    let builder = builder.callback_context(SCDynamicStoreCallBackContext {
        callout: count_calls,
        info: Counter { calls: 5, seen: vec![] },
    });
    let (name, session_keys, context) = builder.into_parts();
    assert_eq!(name, "my-store");
    assert!(session_keys);
    assert_eq!(context.unwrap().info.calls, 5);
}

#[test]
fn contains_text_compares_characters() {
    let v = vec!["State:/A".to_string(), "Setup:/B".to_string()];
    assert!(contains_text(&v, "Setup:/B"));
    assert!(!contains_text(&v, "Setup:/b"));
    assert!(!contains_text(&vec![], ""));
}
