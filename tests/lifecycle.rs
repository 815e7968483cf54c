use command_bridge::lifecycle::{InitAction, Lifecycle, LOGIC_MODULE, LOGIC_PACKAGE};
use command_bridge::token::AccessToken;

fn evictions(actions: &[InitAction], name: &str) -> usize {
    actions.iter().filter(|a| matches!(a, InitAction::Evict(m) if m == name)).count()
}

#[test]
fn first_initialize_prepares_engine() {
    let mut l = Lifecycle::new();
    assert!(!l.is_ready());
    let actions = l.initialize("/opt/app/embedded");
    assert!(l.is_ready());
    assert_eq!(actions.len(), 4);
    assert!(matches!(actions[0], InitAction::StartEngine));
    assert!(matches!(&actions[1], InitAction::PrependSearchPath(d) if d == "/opt/app/embedded"));
    assert!(matches!(&actions[2], InitAction::Evict(m) if m == "agent_runtime.executor"));
    assert!(matches!(&actions[3], InitAction::Evict(m) if m == "agent_runtime"));
}

#[test]
fn repeated_initialize_evicts_once() {
    let mut l = Lifecycle::new();
    let mut all = Vec::new();
    for _ in 0..8 {
        all.extend(l.initialize("embedded"));
        assert!(l.is_ready());
    }
    assert_eq!(evictions(&all, LOGIC_MODULE), 1);
    assert_eq!(evictions(&all, LOGIC_PACKAGE), 1);
    assert_eq!(all.iter().filter(|a| matches!(a, InitAction::StartEngine)).count(), 1);
}

#[test]
fn token_admits_one_caller_at_a_time() {
    let mut t = AccessToken::new();
    assert_eq!(t.holder(), None);
    assert!(t.try_acquire(1));
    assert!(!t.try_acquire(2));
    assert!(!t.try_acquire(1));
    assert!(!t.release(2));
    assert_eq!(t.holder(), Some(1));
    assert!(t.release(1));
    assert!(!t.release(1));
    assert!(t.try_acquire(2));
    assert_eq!(t.holder(), Some(2));
}
