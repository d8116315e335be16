use vibar::registry::{BackendRegistry, Broadcaster, SignalRegistry};

#[test]
fn broadcaster_sends_to_all_subscribers() {
    let mut bc = Broadcaster::new();
    let (a, _) = bc.subscribe();
    let (b, _) = bc.subscribe();
    let targets = bc.broadcast("hello".to_string());
    assert_eq!(targets, vec![a, b]);
    assert_eq!(bc.latest.as_deref(), Some("hello"));
}

#[test]
fn broadcaster_replays_latest_to_new_subscriber() {
    let mut bc = Broadcaster::new();
    bc.broadcast("cached".to_string());
    let (_, replay) = bc.subscribe();
    assert!(replay);
    assert_eq!(bc.latest.as_deref(), Some("cached"));
}

#[test]
fn broadcaster_prunes_dead_subscribers() {
    let mut bc = Broadcaster::new();
    let _dead = bc.subscribe();
    assert_eq!(bc.subscriber_count(), 1);
    let _alive = bc.subscribe();
    assert_eq!(bc.subscriber_count(), 2);
    bc.broadcast("test".to_string());
    bc.record_deliveries(&vec![false, true]);
    assert_eq!(bc.subscriber_count(), 1);
}

#[test]
fn broadcaster_subscriber_count_tracks_subscribers() {
    let mut bc = Broadcaster::<String>::new();
    assert_eq!(bc.subscriber_count(), 0);
    let _sub1 = bc.subscribe();
    assert_eq!(bc.subscriber_count(), 1);
    let _sub2 = bc.subscribe();
    assert_eq!(bc.subscriber_count(), 2);
}

#[test]
fn broadcaster_no_replay_when_no_value_yet() {
    let mut bc = Broadcaster::<String>::new();
    let (_, replay) = bc.subscribe();
    assert!(!replay);
}

#[test]
fn backend_registry_creates_new_on_first_call() {
    let mut registry = BackendRegistry::<String>::new();
    let (backend, is_new) = registry.get_or_create("key", || "value".to_string());
    assert!(is_new);
    assert_eq!(registry.backend(backend).map(String::as_str), Some("value"));
}

#[test]
fn backend_registry_returns_existing_on_second_call() {
    let mut registry = BackendRegistry::<String>::new();
    let (first, is_new_1) = registry.get_or_create("key", || "first".to_string());
    assert!(is_new_1);
    let (second, is_new_2) = registry.get_or_create("key", || "should not be called".to_string());
    assert!(!is_new_2);
    assert_eq!(first, second);
}

#[test]
fn backend_registry_remove_cleans_up_matching_entry() {
    let mut registry = BackendRegistry::<String>::new();
    let (backend, _) = registry.get_or_create("key", || "value".to_string());
    registry.remove("key", backend);
    let (new_backend, is_new) = registry.get_or_create("key", || "new_value".to_string());
    assert!(is_new);
    assert_eq!(registry.backend(new_backend).map(String::as_str), Some("new_value"));
}

#[test]
fn backend_registry_remove_ignores_different_instance() {
    let mut registry = BackendRegistry::<String>::new();
    let (backend, _) = registry.get_or_create("key", || "value".to_string());
    registry.remove("key", backend + 100);
    let (existing, is_new) = registry.get_or_create("key", || "should not be called".to_string());
    assert!(!is_new);
    assert_eq!(registry.backend(existing).map(String::as_str), Some("value"));
}

#[test]
fn backend_registry_independent_keys() {
    let mut registry = BackendRegistry::<String>::new();
    let (a, new_a) = registry.get_or_create("a", || "alpha".to_string());
    let (b, new_b) = registry.get_or_create("b", || "beta".to_string());
    assert!(new_a);
    assert!(new_b);
    assert_eq!(registry.backend(a).map(String::as_str), Some("alpha"));
    assert_eq!(registry.backend(b).map(String::as_str), Some("beta"));
    assert_ne!(a, b);
}

#[test]
fn signal_registry_installs_each_signal_once() {
    let mut signals = SignalRegistry::new();
    assert!(signals.register(40, 1));
    assert!(!signals.register(40, 1));
    assert!(!signals.register(40, 2));
    assert!(signals.register(41, 1));
    assert_eq!(signals.listeners(40), vec![1, 2]);
    assert_eq!(signals.listeners(41), vec![1]);
    assert!(signals.listeners(42).is_empty());
}

#[test]
fn late_subscriber_gets_the_most_recent_update_after_pruning() {
    let mut bc = Broadcaster::new();
    let (dead, _) = bc.subscribe();
    let (alive, _) = bc.subscribe();
    bc.broadcast("first".to_string());
    let targets = bc.broadcast("second".to_string());
    assert_eq!(targets, vec![dead, alive]);
    bc.record_deliveries(&vec![false, true]);
    assert_eq!(bc.subscribers, vec![alive]);
    let (late, replay) = bc.subscribe();
    assert!(replay);
    assert_eq!(bc.latest.as_deref(), Some("second"));
    assert_eq!(bc.subscribers, vec![alive, late]);
}

#[test]
fn backend_registry_remove_leaves_other_keys() {
    let mut registry = BackendRegistry::new();
    let (a, _) = registry.get_or_create("a", || "alpha".to_string());
    let (b, _) = registry.get_or_create("b", || "beta".to_string());
    registry.remove("a", a);
    assert_eq!(registry.get_or_create("b", || "other".to_string()), (b, false));
    let (a2, is_new) = registry.get_or_create("a", || "again".to_string());
    assert!(is_new);
    assert_ne!(a2, a);
}
